use gband::decoder::{Condition, Opcode, OpcodeCB, Register, RegisterPair};

#[test]
fn test_all_instructions_implemented() {
    for i in 0u8..=255u8 {
        let opcode = Opcode::from(i);
        match i {
            0xD3 | 0xDB | 0xDD | 0xE3 | 0xE4 | 0xEB | 0xEC | 0xED | 0xF4 | 0xFC | 0xFD => {
                assert!(
                    matches!(opcode, Opcode::Unknown),
                    "{:#04X} should be unknown",
                    i
                );
            }
            _ => {
                assert!(
                    !matches!(opcode, Opcode::Unknown),
                    "{:#04X} shouldn't be unknown",
                    i
                );
            }
        }
    }
}

#[test]
fn decodes_representative_opcodes() {
    assert_eq!(Opcode::from(0x00), Opcode::Nop);
    assert_eq!(Opcode::from(0x41), Opcode::LdRR(Register::B, Register::C));
    assert_eq!(Opcode::from(0xCD), Opcode::Call);
    assert_eq!(Opcode::from(0xF5), Opcode::Push(RegisterPair::AF));
    assert_eq!(Opcode::from(0x31), Opcode::Ld16RImm(RegisterPair::SP));
    assert_eq!(Opcode::from(0x38), Opcode::JpRelCond(Condition::Carry));
    assert_eq!(Opcode::from(0xEF), Opcode::Rst(0x28));
    assert_eq!(Opcode::from(0x76), Opcode::Halt);
    assert_eq!(OpcodeCB::from(0x7E), OpcodeCB::BitMem(7));
    assert_eq!(OpcodeCB::from(0xC1), OpcodeCB::SetR(0, Register::C));
}

#[test]
fn base_cycle_costs() {
    assert_eq!(Opcode::from(0x00).cycles(), 1);
    assert_eq!(Opcode::from(0xCD).cycles(), 6);
    assert_eq!(Opcode::from(0xC2).cycles(), 3);
    assert_eq!(Opcode::from(0x20).cycles(), 2);
    assert_eq!(Opcode::from(0xC4).cycles(), 3);
    assert_eq!(Opcode::from(0xC0).cycles(), 2);
    assert_eq!(Opcode::from(0x08).cycles(), 5);
    assert_eq!(OpcodeCB::from(0x06).cycles(), 4);
    assert_eq!(OpcodeCB::from(0x46).cycles(), 3);
}
