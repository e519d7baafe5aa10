use lr35902::cpu::{Flag, CPU};
use lr35902::opcodes::{Instruction, InstrucionTarget};
use lr35902::CpuError;

/// Clocks the CPU until the per-instruction countdown returns to zero and
/// returns how many cycles the instruction consumed.
fn run_instr(cpu: &mut CPU) -> i32 {
    let mut n: i32 = 0;
    loop {
        cpu.clock().unwrap();
        n += 1;
        if cpu.cycles == 0 {
            break;
        }
    }
    n
}

#[test]
fn load_immediate() {
    let mut cpu = CPU::new();
    cpu.memory.set(0x0100, 0x3E);
    cpu.memory.set(0x0101, 0x42);
    let flags_before = cpu.reg_af.lo();
    let n = run_instr(&mut cpu);
    assert_eq!(cpu.reg_af.hi(), 0x42);
    assert_eq!(cpu.pc.value, 0x0102);
    assert_eq!(cpu.reg_af.lo(), flags_before);
    assert_eq!(n, 8);
}

#[test]
fn conditional_jump_taken() {
    let mut cpu = CPU::new();
    cpu.reg_af.write_lo(0x80); // Z set
    cpu.memory.set(0x0100, 0xCA);
    cpu.memory.set(0x0101, 0x34);
    cpu.memory.set(0x0102, 0x12);
    let n = run_instr(&mut cpu);
    assert_eq!(cpu.pc.value, 0x1234);
    assert_eq!(n, 16);
}

#[test]
fn conditional_jump_not_taken() {
    let mut cpu = CPU::new();
    cpu.reg_af.write_lo(0x00); // Z clear
    cpu.memory.set(0x0100, 0xCA);
    cpu.memory.set(0x0101, 0x34);
    cpu.memory.set(0x0102, 0x12);
    let n = run_instr(&mut cpu);
    assert_eq!(cpu.pc.value, 0x0103);
    assert_eq!(n, 12);
}

#[test]
fn call_and_return() {
    let mut cpu = CPU::new();
    assert_eq!(cpu.stack_pointer.value, 0xFFFE);
    cpu.memory.set(0x0100, 0xCD);
    cpu.memory.set(0x0101, 0x00);
    cpu.memory.set(0x0102, 0x20);
    cpu.memory.set(0x2000, 0xC9);
    let n_call = run_instr(&mut cpu);
    assert_eq!(n_call, 24);
    assert_eq!(cpu.stack_pointer.value, 0xFFFC);
    assert_eq!(cpu.memory.read(0xFFFD), 0x01);
    assert_eq!(cpu.memory.read(0xFFFC), 0x03);
    assert_eq!(cpu.pc.value, 0x2000);
    let n_ret = run_instr(&mut cpu);
    assert_eq!(n_ret, 16);
    assert_eq!(cpu.stack_pointer.value, 0xFFFE);
    assert_eq!(cpu.pc.value, 0x0103);
}

#[test]
fn prefixed_swap() {
    let mut cpu = CPU::new();
    cpu.reg_af.write_hi(0xAB);
    cpu.memory.set(0x0100, 0xCB);
    cpu.memory.set(0x0101, 0x37);
    let n = run_instr(&mut cpu);
    assert_eq!(cpu.reg_af.hi(), 0xBA);
    assert_eq!(cpu.reg_af.lo(), 0x00); // Z=0, N=H=C=0
    assert_eq!(n, 12); // 4 for the prefix plus 8 for the table entry
}

#[test]
fn echo_ram_mirror() {
    let mut cpu = CPU::new();
    cpu.memory.write(0xC123, 0x77);
    assert_eq!(cpu.memory.read(0xC123), 0x77);
    assert_eq!(cpu.memory.read(0xE123), 0x77);
}

#[test]
fn add_wraps_with_flags() {
    let mut cpu = CPU::new();
    cpu.reg_af.write_hi(0xFF);
    cpu.memory.set(0x0100, 0xC6);
    cpu.memory.set(0x0101, 0x01);
    run_instr(&mut cpu);
    assert_eq!(cpu.reg_af.hi(), 0x00);
    assert_eq!(cpu.reg_af.lo(), 0xB0); // Z=1, N=0, H=1, C=1
}

#[test]
fn sub_wraps_with_flags() {
    let mut cpu = CPU::new();
    cpu.reg_af.write_hi(0x00);
    cpu.memory.set(0x0100, 0xD6);
    cpu.memory.set(0x0101, 0x01);
    run_instr(&mut cpu);
    assert_eq!(cpu.reg_af.hi(), 0xFF);
    assert_eq!(cpu.reg_af.lo(), 0x70); // Z=0, N=1, H=1, C=1
}

#[test]
fn daa_adjusts_bcd_sum() {
    let mut cpu = CPU::new();
    cpu.reg_af.write_hi(0x15);
    cpu.memory.set(0x0100, 0xC6); // ADD A, $27
    cpu.memory.set(0x0101, 0x27);
    run_instr(&mut cpu);
    assert_eq!(cpu.reg_af.hi(), 0x3C);
    cpu.memory.set(0x0102, 0x27); // DAA
    run_instr(&mut cpu);
    assert_eq!(cpu.reg_af.hi(), 0x42);
    assert!(!cpu.get_flag(Flag::C));
    assert!(!cpu.get_flag(Flag::H));
    assert!(!cpu.get_flag(Flag::Z));
}

#[test]
fn ld_hl_sp_plus_offset_flags() {
    let mut cpu = CPU::new();
    cpu.stack_pointer.value = 0x00FF;
    cpu.memory.set(0x0100, 0xF8); // LD HL, SP+$01
    cpu.memory.set(0x0101, 0x01);
    run_instr(&mut cpu);
    assert_eq!(cpu.reg_hl.value, 0x0100);
    assert_eq!(cpu.reg_af.lo(), 0x30); // Z=0, N=0, H=1, C=1
}

#[test]
fn push_pop_round_trip() {
    let mut cpu = CPU::new();
    cpu.reg_bc.value = 0x1234;
    cpu.push(InstrucionTarget::BC);
    assert_eq!(cpu.stack_pointer.value, 0xFFFC);
    cpu.reg_bc.value = 0x0000;
    cpu.pop(InstrucionTarget::BC);
    assert_eq!(cpu.reg_bc.value, 0x1234);
    assert_eq!(cpu.stack_pointer.value, 0xFFFE);
}

#[test]
fn pop_af_masks_low_nibble() {
    let mut cpu = CPU::new();
    cpu.stack_pointer.value = 0xC100;
    cpu.memory.set(0xC100, 0xBF);
    cpu.memory.set(0xC101, 0x12);
    cpu.pop(InstrucionTarget::AF);
    assert_eq!(cpu.reg_af.value, 0x12B0);
    assert_eq!(cpu.stack_pointer.value, 0xC102);
}

#[test]
fn xor_a_clears_accumulator() {
    let mut cpu = CPU::new();
    cpu.reg_af.write_hi(0x5C);
    cpu.xor(InstrucionTarget::A, InstrucionTarget::A);
    assert_eq!(cpu.reg_af.hi(), 0x00);
    assert_eq!(cpu.reg_af.lo(), 0x80); // Z=1, N=H=C=0
}

#[test]
fn inc_dec_round_trip() {
    let mut cpu = CPU::new();
    cpu.reg_bc.write_hi(0x42);
    cpu.inc(InstrucionTarget::B);
    assert!(!cpu.get_flag(Flag::N));
    cpu.dec(InstrucionTarget::B);
    assert_eq!(cpu.reg_bc.hi(), 0x42);
    assert!(cpu.get_flag(Flag::N));
}

#[test]
fn cpl_twice_restores_a() {
    let mut cpu = CPU::new();
    cpu.reg_af.write_hi(0x5A);
    cpu.cpl();
    assert_eq!(cpu.reg_af.hi(), 0xA5);
    assert!(cpu.get_flag(Flag::N));
    assert!(cpu.get_flag(Flag::H));
    cpu.cpl();
    assert_eq!(cpu.reg_af.hi(), 0x5A);
}

#[test]
fn swap_twice_is_identity() {
    let mut cpu = CPU::new();
    cpu.reg_af.write_hi(0xAB);
    cpu.swap(InstrucionTarget::A);
    assert_eq!(cpu.reg_af.hi(), 0xBA);
    cpu.swap(InstrucionTarget::A);
    assert_eq!(cpu.reg_af.hi(), 0xAB);
}

#[test]
fn scf_ccf_flag_laws() {
    let mut cpu = CPU::new();
    cpu.scf();
    assert!(cpu.get_flag(Flag::C));
    cpu.ccf();
    assert!(!cpu.get_flag(Flag::C));
    cpu.ccf();
    assert!(cpu.get_flag(Flag::C));
}

#[test]
fn decode_tables_complete() {
    let cpu = CPU::new();
    assert_eq!(cpu.check_table(), (0, 0));
    for entry in cpu.opcode_table.iter() {
        assert!(!matches!(entry.0, Instruction::TODO));
    }
    for entry in cpu.prefix_table.iter() {
        assert!(!matches!(entry.0, Instruction::TODO));
    }
}

#[test]
fn illegal_opcode_is_fatal() {
    let mut cpu = CPU::new();
    cpu.memory.set(0x0100, 0xD3);
    assert_eq!(
        cpu.clock(),
        Err(CpuError::IllegalOpcode {
            opcode: 0xD3,
            pc: 0x0100
        })
    );
    assert_eq!(cpu.pc.value, 0x0100);
}

#[test]
fn rom_too_large_is_rejected() {
    let mut cpu = CPU::new();
    let too_big = vec![0u8; 32 * 1024 + 1];
    assert_eq!(cpu.load_rom(&too_big), Err(CpuError::RomTooLarge));
    let fine = vec![0x3Eu8, 0x42];
    assert_eq!(cpu.load_rom(&fine), Ok(()));
    assert_eq!(cpu.memory.read(0x0000), 0x3E);
}

#[test]
fn step_instruction_drains_cycles() {
    let mut cpu = CPU::new();
    // NOP at the reset PC.
    cpu.step_instruction().unwrap();
    assert_eq!(cpu.cycles, 0);
    assert_eq!(cpu.pc.value, 0x0101);
}

#[test]
fn relative_jump_backwards() {
    let mut cpu = CPU::new();
    cpu.memory.set(0x0100, 0x18); // JR $-2
    cpu.memory.set(0x0101, 0xFE);
    let n = run_instr(&mut cpu);
    assert_eq!(cpu.pc.value, 0x0100);
    assert_eq!(n, 12);
}

#[test]
fn reti_enables_interrupts() {
    let mut cpu = CPU::new();
    cpu.di();
    assert!(!cpu.ime);
    cpu.stack_pointer.value = 0xC200;
    cpu.memory.set(0xC200, 0x03);
    cpu.memory.set(0xC201, 0x01);
    cpu.memory.set(0x0100, 0xD9); // RETI
    let n = run_instr(&mut cpu);
    assert!(cpu.ime);
    assert_eq!(cpu.pc.value, 0x0103);
    assert_eq!(n, 16);
}

#[test]
fn rst_pushes_and_jumps() {
    let mut cpu = CPU::new();
    cpu.memory.set(0x0100, 0xEF); // RST $28
    let n = run_instr(&mut cpu);
    assert_eq!(cpu.pc.value, 0x0028);
    assert_eq!(cpu.stack_pointer.value, 0xFFFC);
    assert_eq!(cpu.memory.read(0xFFFD), 0x01);
    assert_eq!(cpu.memory.read(0xFFFC), 0x01);
    assert_eq!(n, 16);
}

#[test]
fn snapshot_reads_state() {
    let mut cpu = CPU::new();
    cpu.reg_af.value = 0x42B0;
    let snap = cpu.snapshot();
    assert_eq!(snap.af, 0x42B0);
    assert_eq!(snap.bc, 0x0013);
    assert_eq!(snap.pc, 0x0100);
    assert_eq!(snap.sp, 0xFFFE);
    assert!(snap.ime);
    assert!(!snap.halted);
    assert!(!snap.stopped);
    assert!(snap.z);
    assert!(!snap.n);
    assert!(snap.h);
    assert!(snap.c);
}

#[test]
fn halt_and_stop_latch() {
    let mut cpu = CPU::new();
    cpu.memory.set(0x0100, 0x76); // HALT
    run_instr(&mut cpu);
    assert!(cpu.halted);
    cpu.memory.set(0x0101, 0x10); // STOP
    run_instr(&mut cpu);
    assert!(cpu.stopped);
}

#[test]
fn add_hl_sets_wide_carries() {
    let mut cpu = CPU::new();
    cpu.reg_hl.value = 0x0FFF;
    cpu.reg_bc.value = 0x0001;
    cpu.memory.set(0x0100, 0x09); // ADD HL, BC
    run_instr(&mut cpu);
    assert_eq!(cpu.reg_hl.value, 0x1000);
    assert!(cpu.get_flag(Flag::H));
    assert!(!cpu.get_flag(Flag::C));
    cpu.reg_hl.value = 0xFFFF;
    cpu.memory.set(0x0101, 0x09);
    run_instr(&mut cpu);
    assert_eq!(cpu.reg_hl.value, 0x0000);
    assert!(cpu.get_flag(Flag::C));
}

#[test]
fn bit_res_set_single_bits() {
    let mut cpu = CPU::new();
    cpu.reg_bc.write_hi(0b0000_0100);
    cpu.bit(2, InstrucionTarget::B);
    assert!(!cpu.get_flag(Flag::Z));
    cpu.bit(3, InstrucionTarget::B);
    assert!(cpu.get_flag(Flag::Z));
    cpu.res(2, InstrucionTarget::B);
    assert_eq!(cpu.reg_bc.hi(), 0);
    cpu.set(7, InstrucionTarget::B);
    assert_eq!(cpu.reg_bc.hi(), 0x80);
}

#[test]
fn sra_preserves_sign_bit() {
    let mut cpu = CPU::new();
    cpu.reg_bc.write_hi(0x81);
    cpu.sra(InstrucionTarget::B);
    assert_eq!(cpu.reg_bc.hi(), 0xC0);
    assert!(cpu.get_flag(Flag::C));
    cpu.reg_bc.write_hi(0x81);
    cpu.srl(InstrucionTarget::B);
    assert_eq!(cpu.reg_bc.hi(), 0x40);
}

#[test]
fn immediate_fetch_advances_pc() {
    let mut cpu = CPU::new();
    cpu.memory.set(0x0100, 0x42);
    cpu.memory.set(0x0101, 0x90);
    cpu.memory.set(0x0102, 0x34);
    cpu.memory.set(0x0103, 0x12);
    assert_eq!(cpu.get_imm_u8(), 0x42);
    assert_eq!(cpu.pc.value, 0x0101);
    assert_eq!(cpu.get_imm_i8(), -0x70);
    assert_eq!(cpu.pc.value, 0x0102);
    assert_eq!(cpu.get_imm_16(), 0x1234);
    assert_eq!(cpu.pc.value, 0x0104);
}

#[test]
fn set_flag_raises_one_bit() {
    let mut cpu = CPU::new();
    cpu.reg_af.write_lo(0x00);
    cpu.set_flag(Flag::C);
    assert!(cpu.get_flag(Flag::C));
    assert!(!cpu.get_flag(Flag::Z));
    cpu.set_flag(Flag::N);
    assert!(cpu.get_flag(Flag::N));
    assert!(cpu.get_flag(Flag::C));
    assert_eq!(cpu.reg_af.lo(), 0x50);
}

#[test]
fn adc_and_sbc_use_carry() {
    let mut cpu = CPU::new();
    cpu.reg_af.write_hi(0x10);
    cpu.reg_af.write_lo(0x10); // C set
    cpu.memory.set(0x0100, 0xCE); // ADC A, $05
    cpu.memory.set(0x0101, 0x05);
    run_instr(&mut cpu);
    assert_eq!(cpu.reg_af.hi(), 0x16);
    cpu.reg_af.write_lo(0x10); // C set
    cpu.memory.set(0x0102, 0xDE); // SBC A, $06
    cpu.memory.set(0x0103, 0x06);
    run_instr(&mut cpu);
    assert_eq!(cpu.reg_af.hi(), 0x0F);
    assert!(cpu.get_flag(Flag::N));
}

#[test]
fn conditional_return_timing() {
    let mut cpu = CPU::new();
    // RET NZ with Z set: not taken, SP untouched, 8 cycles.
    cpu.reg_af.write_lo(0x80);
    cpu.memory.set(0x0100, 0xC0);
    let n = run_instr(&mut cpu);
    assert_eq!(n, 8);
    assert_eq!(cpu.stack_pointer.value, 0xFFFE);
    assert_eq!(cpu.pc.value, 0x0101);
    // RET NZ with Z clear: taken, 8 + 12 cycles.
    cpu.reg_af.write_lo(0x00);
    cpu.stack_pointer.value = 0xC300;
    cpu.memory.set(0xC300, 0x00);
    cpu.memory.set(0xC301, 0x30);
    cpu.memory.set(0x0101, 0xC0);
    let n = run_instr(&mut cpu);
    assert_eq!(n, 20);
    assert_eq!(cpu.pc.value, 0x3000);
    assert_eq!(cpu.stack_pointer.value, 0xC302);
}
