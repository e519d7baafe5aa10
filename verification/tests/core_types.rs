use lr35902::flags::Flags;
use lr35902::memory::Memory;
use lr35902::register::Register;

#[test]
fn test_flags() {
    let mut flags = Flags::new();
    assert_eq!(flags.z(), 0);
    assert_eq!(flags.n(), 0);
    assert_eq!(flags.c(), 0);
    assert_eq!(flags.h(), 0);

    flags.set_z();
    assert_eq!(flags.z(), 1);
    flags.set_z();
    assert_eq!(flags.z(), 0);

    flags.set_n();
    assert_eq!(flags.n(), 1);
    flags.set_n();
    assert_eq!(flags.n(), 0);

    flags.set_c();
    assert_eq!(flags.c(), 1);
    flags.set_c();
    assert_eq!(flags.c(), 0);

    flags.set_h();
    assert_eq!(flags.h(), 1);
    flags.set_h();
    assert_eq!(flags.h(), 0);
}

#[test]
fn test_memory_index() {
    let addr: u16 = 0x0000;
    let mut mem = Memory::new();
    assert_eq!(mem.read(addr as usize), 0);

    mem.set(addr as usize, 0xFF);
    assert_eq!(mem.read(addr as usize), 0xFF);
}

#[test]
fn test_register() {
    let r = Register::new(0xB668);
    assert_eq!(r.value, 0xB668);
    assert_eq!(r.hi(), 0xB6);
    assert_eq!(r.lo(), 0x68);
}

#[test]
fn test_register_add() {
    let mut r1 = Register::new(0x0000);
    let r2 = Register::new(0x0005);

    r1 = r1.wrapping_add(r2.value);
    assert_eq!(r1.value, 0x0005);

    r1 = r1.wrapping_add(0x0005 as u16);
    assert_eq!(r1.value, 0x000A);

    r1 = r1.wrapping_add(0x05 as u8 as u16);
    assert_eq!(r1.value, 0x000F);
}

#[test]
fn test_register_sub() {
    let mut r1 = Register::new(0x000F);
    let r2 = Register::new(0x0005);

    r1 = r1.wrapping_sub(r2.value);
    assert_eq!(r1.value, 0x000A);

    r1 = r1.wrapping_sub(0x0005 as u16);
    assert_eq!(r1.value, 0x0005);

    r1 = r1.wrapping_sub(0x05 as u8 as u16);
    assert_eq!(r1.value, 0x0000);
}

#[test]
fn test_register_halves_and_wrap() {
    let mut r = Register::new(0x0000);
    r.write_hi(0x12);
    r.write_lo(0x34);
    assert_eq!(r.value, 0x1234);

    let mut w = Register::new(0xFFFF);
    w.inc();
    assert_eq!(w.value, 0x0000);
    w.dec();
    assert_eq!(w.value, 0xFFFF);
}

#[test]
fn test_memory_hardware_registers() {
    let mut mem = Memory::new();
    mem.reset_hardware_registers();
    assert_eq!(mem.div(), 0xAB);
    assert_eq!(mem.tima(), 0x00);
    assert_eq!(mem.tma(), 0x00);
    assert_eq!(mem.tac(), 0xF8);
    assert_eq!(mem.read(0xFF0F), 0xE1);
    assert_eq!(mem.read(0xFFFF), 0x00);

    // IF post-reset is 0xE1: bits 0, 5, 6, 7 pending.
    assert!(mem.is_iflag_set(0));
    assert!(!mem.is_iflag_set(1));
    assert!(mem.is_iflag_set(5));
    mem.reset_iflag_bit(0);
    assert!(!mem.is_iflag_set(0));
    assert!(!mem.is_ie_set(0));

    mem.inc_div();
    assert_eq!(mem.div(), 0xAC);
    mem.inc_tima();
    assert_eq!(mem.tima(), 0x01);
    mem.reset_tima();
    assert_eq!(mem.tima(), 0x00);
}

#[test]
fn test_memory_write_policy() {
    let mut mem = Memory::new();
    // ROM, echo, and forbidden regions drop stores.
    mem.write(0x0000, 0xFF);
    assert_eq!(mem.read(0x0000), 0x00);
    mem.write(0x07FF, 0xFF);
    assert_eq!(mem.read(0x07FF), 0x00);
    mem.write(0xE000, 0xFF);
    assert_eq!(mem.read(0xE000), 0x00);
    mem.write(0xFEA0, 0xFF);
    assert_eq!(mem.read(0xFEA0), 0x00);
    // Any store to DIV forces it to zero.
    mem.write(0xFF04, 0x55);
    assert_eq!(mem.read(0xFF04), 0x00);
    // A plain store lands.
    mem.write(0x8000, 0x21);
    assert_eq!(mem.read(0x8000), 0x21);
}

#[test]
fn test_memory_load_rom() {
    let mut mem = Memory::new();
    let image = vec![0x11u8, 0x22, 0x33];
    assert!(mem.load(&image).is_ok());
    assert_eq!(mem.read(0), 0x11);
    assert_eq!(mem.read(1), 0x22);
    assert_eq!(mem.read(2), 0x33);
    assert_eq!(mem.read(3), 0x00);

    let too_big = vec![0u8; 32 * 1024 + 1];
    assert_eq!(mem.load(&too_big), Err(lr35902::CpuError::RomTooLarge));
    // A rejected image changes nothing.
    assert_eq!(mem.read(0), 0x11);
}
