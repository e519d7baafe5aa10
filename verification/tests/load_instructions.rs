use lr35902::cpu::CPU;
use lr35902::opcodes::{Instruction, InstrucionTarget};

fn test_ld(
    cpu: &mut CPU,
    value: u16,
    cycles: i32,
    to: InstrucionTarget,
    from: InstrucionTarget,
    payload: &Vec<u8>,
    mod_hl: i32,
) {
    cpu.pc.value = 0x0100;
    for (k, b) in payload.iter().enumerate() {
        cpu.memory.set(0x0100 + k, *b);
    }
    for _ in 0..cycles {
        cpu.clock().unwrap();
    }

    cpu.reg_hl = cpu.reg_hl.wrapping_add(mod_hl as u16);
    cpu.pc.value = 0x0101;
    let desired = cpu.read_target(to);
    assert_eq!(
        desired,
        value,
        "failed on opcode {:#04X}",
        cpu.memory.read(0x0100)
    );
    assert_eq!(cpu.cycles, 0);
    cpu.reg_hl = cpu.reg_hl.wrapping_sub(mod_hl as u16);
}

#[test]
fn test_load_instructions() {
    let mut cpu = CPU::new();
    let table = cpu.opcode_table.clone();
    let value: u16 = 0x13;
    let addr: u16 = 0x1313;

    for (op, instruction) in table.iter().enumerate() {
        match instruction.0 {
            Instruction::LD(to, from) => {
                let mut payload: Vec<u8> = vec![];
                match from {
                    InstrucionTarget::U8 => {
                        payload.push(op as u8);
                        payload.push(value as u8);
                    }
                    InstrucionTarget::U16 => {
                        payload.push(op as u8);
                        payload.push(value as u8);
                        payload.push(0x00);
                    }
                    InstrucionTarget::A8 => {
                        payload.push(op as u8);
                        payload.push(value as u8);
                        cpu.memory.set((0xFF00 + value) as usize, value as u8);
                    }
                    InstrucionTarget::A16 => {
                        payload.push(op as u8);
                        payload.push(value as u8);
                        payload.push(value as u8);
                        cpu.memory.set(addr as usize, value as u8);
                    }
                    InstrucionTarget::CMem => {
                        payload.push(op as u8);
                        cpu.reg_bc.write_lo(value as u8);
                        cpu.memory
                            .set((0xFF00 + cpu.reg_bc.lo() as u16) as usize, value as u8);
                    }
                    InstrucionTarget::HLMem => {
                        payload.push(op as u8);
                        cpu.reg_hl.value = addr;
                        cpu.memory.set(addr as usize, value as u8);
                    }
                    InstrucionTarget::BCMem => {
                        payload.push(op as u8);
                        cpu.reg_bc.value = addr;
                        cpu.memory.set(addr as usize, value as u8);
                    }
                    InstrucionTarget::DEMem => {
                        payload.push(op as u8);
                        cpu.reg_de.value = addr;
                        cpu.memory.set(addr as usize, value as u8);
                    }
                    InstrucionTarget::SPi8 => {
                        payload.push(op as u8);
                        payload.push(0x00);
                        cpu.stack_pointer.value = value;
                    }
                    _ => {
                        payload.push(op as u8);
                        cpu.write_target(from, value);
                    }
                };
                // Destinations that name an address need that address to be
                // writable memory, and an immediate destination needs its
                // bytes in the payload.
                match to {
                    InstrucionTarget::HLMem => cpu.reg_hl.value = addr,
                    InstrucionTarget::BCMem => cpu.reg_bc.value = addr,
                    InstrucionTarget::DEMem => cpu.reg_de.value = addr,
                    InstrucionTarget::A8 => {
                        payload.push(value as u8);
                    }
                    InstrucionTarget::A16 => {
                        payload.push(value as u8);
                        payload.push(value as u8);
                    }
                    _ => {}
                };
                test_ld(&mut cpu, value, instruction.1, to, from, &payload, 0);
            }
            Instruction::LDI(to, from) => {
                let payload: Vec<u8> = vec![op as u8];
                cpu.reg_hl.value = addr;
                cpu.memory.set(addr as usize, value as u8);
                cpu.reg_af.write_hi(value as u8);

                test_ld(&mut cpu, value, instruction.1, to, from, &payload, -1);
                assert_eq!(cpu.reg_hl.value, 0x1314);
            }
            Instruction::LDD(to, from) => {
                let payload: Vec<u8> = vec![op as u8];
                cpu.reg_hl.value = addr;
                cpu.memory.set(addr as usize, value as u8);
                cpu.reg_af.write_hi(value as u8);

                test_ld(&mut cpu, value, instruction.1, to, from, &payload, 1);
                assert_eq!(cpu.reg_hl.value, 0x1312);
            }
            _ => continue,
        }
    }
}
