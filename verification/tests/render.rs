use lr35902::cpu::CPU;
use lr35902::hexfmt::{dec_u8, hex2, hex4, hex_u16};
use lr35902::opcodes::{Instruction, InstrucionTarget};

#[test]
fn instruction_text() {
    assert_eq!(
        Instruction::LD(InstrucionTarget::A, InstrucionTarget::U8).to_string(),
        "LD A u8"
    );
    assert_eq!(
        Instruction::LD(InstrucionTarget::A8, InstrucionTarget::A).to_string(),
        "LD [$FF00+u8] A"
    );
    assert_eq!(Instruction::RST(0x18).to_string(), "RST 0x18");
    assert_eq!(Instruction::RET(InstrucionTarget::Blank).to_string(), "RET");
    assert_eq!(
        Instruction::RET(InstrucionTarget::ZCond).to_string(),
        "RET Z"
    );
    assert_eq!(
        Instruction::JP(InstrucionTarget::Blank, InstrucionTarget::HL).to_string(),
        "JP HL"
    );
    assert_eq!(
        Instruction::JR(InstrucionTarget::NCCond, InstrucionTarget::I8).to_string(),
        "JR NC i8"
    );
    assert_eq!(
        Instruction::BIT(3, InstrucionTarget::B).to_string(),
        "BIT 3 B"
    );
    assert_eq!(Instruction::XXX.to_string(), "???");
    assert_eq!(Instruction::NOP.to_string(), "NOP");
}

#[test]
fn hex_and_decimal_formatting() {
    assert_eq!(hex2(0x0A), "0A");
    assert_eq!(hex2(0xFF), "FF");
    assert_eq!(hex4(0x0310), "0310");
    assert_eq!(hex_u16(0x18), "18");
    assert_eq!(hex_u16(0x0), "0");
    assert_eq!(dec_u8(7), "7");
    assert_eq!(dec_u8(255), "255");
}

#[test]
fn disassembly_lines() {
    let mut cpu = CPU::new();
    cpu.memory.set(0x0200, 0x3E); // LD A, $42
    cpu.memory.set(0x0201, 0x42);
    cpu.memory.set(0x0300, 0xC3); // JP $1234
    cpu.memory.set(0x0301, 0x34);
    cpu.memory.set(0x0302, 0x12);
    cpu.memory.set(0x0400, 0xEA); // LD [$ABCD], A
    cpu.memory.set(0x0401, 0xCD);
    cpu.memory.set(0x0402, 0xAB);
    cpu.memory.set(0x0500, 0xCB); // prefix escape, then SCF at 0x0501
    cpu.memory.set(0x0501, 0x37);

    let disas = cpu.disassemble();
    assert_eq!(disas.get(&0x0000).unwrap(), "$0000 ???");
    assert_eq!(disas.get(&0x00FF).unwrap(), "$00FF ???");
    assert_eq!(disas.get(&0x0100).unwrap(), "$0100 NOP");
    assert_eq!(disas.get(&0x0200).unwrap(), "$0200 LD A $42");
    assert!(disas.get(&0x0201).is_none());
    assert_eq!(disas.get(&0x0202).unwrap(), "$0202 NOP");
    assert_eq!(disas.get(&0x0300).unwrap(), "$0300 JP $1234");
    assert_eq!(disas.get(&0x0400).unwrap(), "$0400 LD [$ABCD] A");
    assert_eq!(disas.get(&0x0500).unwrap(), "$0500 PREFIX");
    assert_eq!(disas.get(&0x0501).unwrap(), "$0501 SCF");

    // The map is in increasing address order.
    let keys: Vec<u16> = disas.keys().copied().collect();
    for w in keys.windows(2) {
        assert!(w[0] < w[1]);
    }
    assert_eq!(keys[0], 0x0000);
}
