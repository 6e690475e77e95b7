use vstd::prelude::*;

verus! {

/// An 8-bit register operand.
#[derive(Clone, Copy, Debug, PartialEq, Eq, Structural)]
pub enum Register {
    B,
    C,
    D,
    E,
    H,
    L,
    A,
}

/// A 16-bit register pair operand.
#[derive(Clone, Copy, Debug, PartialEq, Eq, Structural)]
pub enum RegisterPair {
    BC,
    DE,
    HL,
    SP,
    AF,
}

/// An 8-bit arithmetic/logic operation.
#[derive(Clone, Copy, Debug, PartialEq, Eq, Structural)]
pub enum Alu {
    Add,
    Adc,
    Sub,
    Sbc,
    And,
    Xor,
    Or,
    Cp,
}

/// A flag condition of a conditional jump, call or return.
#[derive(Clone, Copy, Debug, PartialEq, Eq, Structural)]
pub enum Condition {
    NonZero,
    Zero,
    NoCarry,
    Carry,
}

/// A rotate or shift operation of the `0xCB` table.
#[derive(Clone, Copy, Debug, PartialEq, Eq, Structural)]
pub enum Rot {
    Rlc,
    Rrc,
    Rl,
    Rr,
    Sla,
    Sra,
    Swap,
    Srl,
}

/// A 16-bit memory operand.
#[derive(Clone, Copy, Debug, PartialEq, Eq, Structural)]
pub enum OpMemAddress16 {
    Register(RegisterPair),
    RegisterIncrease(RegisterPair),
    RegisterDecrease(RegisterPair),
    Immediate,
}

/// A memory operand in the `0xFF00` page.
#[derive(Clone, Copy, Debug, PartialEq, Eq, Structural)]
pub enum OpMemAddress8 {
    Register(Register),
    Immediate,
}

/// A decoded instruction of the main opcode table.
#[derive(Clone, Copy, Debug, PartialEq, Eq, Structural)]
pub enum Opcode {
    Unknown,
    CBPrefix,
    LdRR(Register, Register),
    LdRImm(Register),
    LdRMem(Register, OpMemAddress16),
    LdMemR(OpMemAddress16, Register),
    LdMemImm(RegisterPair),
    LdhRead(Register, OpMemAddress8),
    LdhWrite(OpMemAddress8, Register),
    Ld16RImm(RegisterPair),
    Ld16MemSp,
    Ld16SpHL,
    Push(RegisterPair),
    Pop(RegisterPair),
    AluR(Alu, Register),
    AluImm(Alu),
    AluMem(Alu),
    IncR(Register),
    IncMem,
    DecR(Register),
    DecMem,
    Daa,
    Cpl,
    Add16HL(RegisterPair),
    Add16SPSigned,
    Inc16R(RegisterPair),
    Dec16R(RegisterPair),
    Ld16HLSPSigned,
    RlcA,
    RlA,
    RrcA,
    RrA,
    JpImm,
    JpHL,
    JpCond(Condition),
    JpRel,
    JpRelCond(Condition),
    Call,
    CallCond(Condition),
    Ret,
    RetCond(Condition),
    Reti,
    Rst(u8),
    Nop,
    Ccf,
    Scf,
    Halt,
    Stop,
    Di,
    Ei,
}

/// A decoded instruction of the `0xCB`-prefixed table.
#[derive(Clone, Copy, Debug, PartialEq, Eq, Structural)]
pub enum OpcodeCB {
    RotateR(Rot, Register),
    RotateMem(Rot),
    BitR(u8, Register),
    BitMem(u8),
    ResR(u8, Register),
    ResMem(u8),
    SetR(u8, Register),
    SetMem(u8),
}

/// Register selected by a 3-bit operand field; `6` selects `(HL)` instead.
pub open spec fn register_spec(bits: u8) -> Option<Register> {
    if bits == 0 {
        Some(Register::B)
    } else if bits == 1 {
        Some(Register::C)
    } else if bits == 2 {
        Some(Register::D)
    } else if bits == 3 {
        Some(Register::E)
    } else if bits == 4 {
        Some(Register::H)
    } else if bits == 5 {
        Some(Register::L)
    } else if bits == 6 {
        None
    } else {
        Some(Register::A)
    }
}

/// Register pair selected by a 2-bit operand field, with `SP` in the last slot.
pub open spec fn pair_spec(bits: u8) -> RegisterPair {
    if bits == 0 {
        RegisterPair::BC
    } else if bits == 1 {
        RegisterPair::DE
    } else if bits == 2 {
        RegisterPair::HL
    } else {
        RegisterPair::SP
    }
}

/// Register pair of `PUSH`/`POP`, with `AF` in the last slot.
pub open spec fn stack_pair_spec(bits: u8) -> RegisterPair {
    if bits == 0 {
        RegisterPair::BC
    } else if bits == 1 {
        RegisterPair::DE
    } else if bits == 2 {
        RegisterPair::HL
    } else {
        RegisterPair::AF
    }
}

/// ALU operation selected by a 3-bit operand field.
pub open spec fn alu_spec(bits: u8) -> Alu {
    if bits == 0 {
        Alu::Add
    } else if bits == 1 {
        Alu::Adc
    } else if bits == 2 {
        Alu::Sub
    } else if bits == 3 {
        Alu::Sbc
    } else if bits == 4 {
        Alu::And
    } else if bits == 5 {
        Alu::Xor
    } else if bits == 6 {
        Alu::Or
    } else {
        Alu::Cp
    }
}

/// Flag condition selected by a 2-bit operand field.
pub open spec fn condition_spec(bits: u8) -> Condition {
    if bits == 0 {
        Condition::NonZero
    } else if bits == 1 {
        Condition::Zero
    } else if bits == 2 {
        Condition::NoCarry
    } else {
        Condition::Carry
    }
}

/// The main opcode table: encodings are xx,yyy,zzz with yyy = ppq.
pub open spec fn decode(op: u8) -> Opcode {
            let x = op / 64;
    let y = (op / 8) % 8;
    let z = op % 8;
    let p = y / 2;
    let q = y % 2;
    if x == 0 {
        match z {
            0 => match y {
                0 => Opcode::Nop,
                1 => Opcode::Ld16MemSp,
                2 => Opcode::Stop,
                3 => Opcode::JpRel,
                _ => Opcode::JpRelCond(condition_spec((y - 4) as u8)),
            },
            1 => if q == 0 {
                Opcode::Ld16RImm(pair_spec(p))
            } else {
                Opcode::Add16HL(pair_spec(p))
            },
            2 => {
                let mem = match p {
                    0 => OpMemAddress16::Register(RegisterPair::BC),
                    1 => OpMemAddress16::Register(RegisterPair::DE),
                    2 => OpMemAddress16::RegisterIncrease(RegisterPair::HL),
                    _ => OpMemAddress16::RegisterDecrease(RegisterPair::HL),
                };
                if q == 0 {
                    Opcode::LdMemR(mem, Register::A)
                } else {
                    Opcode::LdRMem(Register::A, mem)
                }
            },
            3 => if q == 0 {
                Opcode::Inc16R(pair_spec(p))
            } else {
                Opcode::Dec16R(pair_spec(p))
            },
            4 => match register_spec(y) {
                Some(r) => Opcode::IncR(r),
                None => Opcode::IncMem,
            },
            5 => match register_spec(y) {
                Some(r) => Opcode::DecR(r),
                None => Opcode::DecMem,
            },
            6 => match register_spec(y) {
                Some(r) => Opcode::LdRImm(r),
                None => Opcode::LdMemImm(RegisterPair::HL),
            },
            _ => match y {
                0 => Opcode::RlcA,
                1 => Opcode::RrcA,
                2 => Opcode::RlA,
                3 => Opcode::RrA,
                4 => Opcode::Daa,
                5 => Opcode::Cpl,
                6 => Opcode::Scf,
                _ => Opcode::Ccf,
            },
        }
    } else if x == 1 {
        match (register_spec(y), register_spec(z)) {
            (Some(t), Some(s)) => Opcode::LdRR(t, s),
            (Some(t), None) => Opcode::LdRMem(t, OpMemAddress16::Register(RegisterPair::HL)),
            (None, Some(s)) => Opcode::LdMemR(OpMemAddress16::Register(RegisterPair::HL), s),
            (None, None) => Opcode::Halt,
        }
    } else if x == 2 {
        match register_spec(z) {
            Some(s) => Opcode::AluR(alu_spec(y), s),
            None => Opcode::AluMem(alu_spec(y)),
        }
    } else {
        match z {
            0 => match y {
                4 => Opcode::LdhWrite(OpMemAddress8::Immediate, Register::A),
                5 => Opcode::Add16SPSigned,
                6 => Opcode::LdhRead(Register::A, OpMemAddress8::Immediate),
                7 => Opcode::Ld16HLSPSigned,
                _ => Opcode::RetCond(condition_spec(y)),
            },
            1 => if q == 0 {
                Opcode::Pop(stack_pair_spec(p))
            } else {
                match p {
                    0 => Opcode::Ret,
                    1 => Opcode::Reti,
                    2 => Opcode::JpHL,
                    _ => Opcode::Ld16SpHL,
                }
            },
            2 => match y {
                4 => Opcode::LdhWrite(OpMemAddress8::Register(Register::C), Register::A),
                5 => Opcode::LdMemR(OpMemAddress16::Immediate, Register::A),
                6 => Opcode::LdhRead(Register::A, OpMemAddress8::Register(Register::C)),
                7 => Opcode::LdRMem(Register::A, OpMemAddress16::Immediate),
                _ => Opcode::JpCond(condition_spec(y)),
            },
            3 => match y {
                0 => Opcode::JpImm,
                1 => Opcode::CBPrefix,
                6 => Opcode::Di,
                7 => Opcode::Ei,
                _ => Opcode::Unknown,
            },
            4 => if y < 4 {
                Opcode::CallCond(condition_spec(y))
            } else {
                Opcode::Unknown
            },
            5 => if q == 0 {
                Opcode::Push(stack_pair_spec(p))
            } else if p == 0 {
                Opcode::Call
            } else {
                Opcode::Unknown
            },
            6 => Opcode::AluImm(alu_spec(y)),
            _ => Opcode::Rst((y * 8) as u8),
        }
    }
}

/// The `0xCB`-prefixed table.
pub open spec fn decode_cb(op: u8) -> OpcodeCB {
    let x = op / 64;
    let y = (op / 8) % 8;
    let z = op % 8;
    match register_spec(z) {
        Some(r) => if x == 0 {
            OpcodeCB::RotateR(rot_from_spec(y), r)
        } else if x == 1 {
            OpcodeCB::BitR(y, r)
        } else if x == 2 {
            OpcodeCB::ResR(y, r)
        } else {
            OpcodeCB::SetR(y, r)
        },
        None => if x == 0 {
            OpcodeCB::RotateMem(rot_from_spec(y))
        } else if x == 1 {
            OpcodeCB::BitMem(y)
        } else if x == 2 {
            OpcodeCB::ResMem(y)
        } else {
            OpcodeCB::SetMem(y)
        },
    }
}

/// Base cost of an instruction in machine cycles.
pub open spec fn base_cycles(op: Opcode) -> u8 {
    match op {
        Opcode::Unknown => 1,
        Opcode::CBPrefix => 1,
        Opcode::LdRR(_, _) => 1,
        Opcode::LdRImm(_) => 2,
        Opcode::LdRMem(_, mem) => match mem {
            OpMemAddress16::Immediate => 4,
            _ => 2,
        },
        Opcode::LdMemR(mem, _) => match mem {
            OpMemAddress16::Immediate => 4,
            _ => 2,
        },
        Opcode::LdMemImm(_) => 3,
        Opcode::LdhRead(_, mem) => match mem {
            OpMemAddress8::Register(_) => 2,
            OpMemAddress8::Immediate => 3,
        },
        Opcode::LdhWrite(mem, _) => match mem {
            OpMemAddress8::Register(_) => 2,
            OpMemAddress8::Immediate => 3,
        },
        Opcode::Ld16RImm(_) => 3,
        Opcode::Ld16MemSp => 5,
        Opcode::Ld16SpHL => 2,
        Opcode::Push(_) => 4,
        Opcode::Pop(_) => 3,
        Opcode::AluR(_, _) => 1,
        Opcode::AluImm(_) => 2,
        Opcode::AluMem(_) => 2,
        Opcode::IncR(_) => 1,
        Opcode::IncMem => 3,
        Opcode::DecR(_) => 1,
        Opcode::DecMem => 3,
        Opcode::Daa => 1,
        Opcode::Cpl => 1,
        Opcode::Add16HL(_) => 2,
        Opcode::Add16SPSigned => 4,
        Opcode::Inc16R(_) => 2,
        Opcode::Dec16R(_) => 2,
        Opcode::Ld16HLSPSigned => 3,
        Opcode::RlcA => 1,
        Opcode::RlA => 1,
        Opcode::RrcA => 1,
        Opcode::RrA => 1,
        Opcode::JpImm => 4,
        Opcode::JpHL => 1,
        Opcode::JpCond(_) => 3,
        Opcode::JpRel => 3,
        Opcode::JpRelCond(_) => 2,
        Opcode::Call => 6,
        Opcode::CallCond(_) => 3,
        Opcode::Ret => 4,
        Opcode::RetCond(_) => 2,
        Opcode::Reti => 4,
        Opcode::Rst(_) => 4,
        Opcode::Nop => 1,
        Opcode::Ccf => 1,
        Opcode::Scf => 1,
        Opcode::Halt => 1,
        Opcode::Stop => 1,
        Opcode::Di => 1,
        Opcode::Ei => 1,
    }
}

/// Extra machine cycles of a prefixed instruction.
pub open spec fn cb_cycles(op: OpcodeCB) -> u8 {
    match op {
        OpcodeCB::RotateR(_, _) => 2,
        OpcodeCB::RotateMem(_) => 4,
        OpcodeCB::BitR(_, _) => 2,
        OpcodeCB::BitMem(_) => 3,
        OpcodeCB::ResR(_, _) => 2,
        OpcodeCB::ResMem(_) => 4,
        OpcodeCB::SetR(_, _) => 2,
        OpcodeCB::SetMem(_) => 4,
    }
}

/// The opcodes that the processor leaves undefined.
pub open spec fn is_undefined_opcode(op: u8) -> bool {
    op == 0xD3 || op == 0xDB || op == 0xDD || op == 0xE3 || op == 0xE4 || op == 0xEB || op == 0xEC
        || op == 0xED || op == 0xF4 || op == 0xFC || op == 0xFD
}

/// Register selected by a 3-bit operand field; `6` selects the `(HL)` memory operand instead.
pub fn register_from_bits(bits: u8) -> (r: Option<Register>)
    requires
        bits < 8,
    ensures
        r == register_spec(bits),
        r is None <==> bits == 6,
        bits == 0 ==> r == Some(Register::B),
        bits == 1 ==> r == Some(Register::C),
        bits == 2 ==> r == Some(Register::D),
        bits == 3 ==> r == Some(Register::E),
        bits == 4 ==> r == Some(Register::H),
        bits == 5 ==> r == Some(Register::L),
        bits == 7 ==> r == Some(Register::A),
{
    match bits {
        0 => Some(Register::B),
        1 => Some(Register::C),
        2 => Some(Register::D),
        3 => Some(Register::E),
        4 => Some(Register::H),
        5 => Some(Register::L),
        6 => None,
        _ => Some(Register::A),
    }
}

/// Register pair selected by a 2-bit operand field, with `SP` in the last slot.
pub fn pair_from_bits(bits: u8) -> (r: RegisterPair)
    requires
        bits < 4,
    ensures
        r == pair_spec(bits),
{
    match bits {
        0 => RegisterPair::BC,
        1 => RegisterPair::DE,
        2 => RegisterPair::HL,
        _ => RegisterPair::SP,
    }
}

/// Register pair selected by a 2-bit operand field of `PUSH`/`POP`, with `AF` in the last slot.
pub fn stack_pair_from_bits(bits: u8) -> (r: RegisterPair)
    requires
        bits < 4,
    ensures
        r == stack_pair_spec(bits),
{
    match bits {
        0 => RegisterPair::BC,
        1 => RegisterPair::DE,
        2 => RegisterPair::HL,
        _ => RegisterPair::AF,
    }
}

/// ALU operation selected by a 3-bit operand field.
pub fn alu_from_bits(bits: u8) -> (r: Alu)
    requires
        bits < 8,
    ensures
        r == alu_spec(bits),
        bits == 0 ==> r == Alu::Add,
        bits == 1 ==> r == Alu::Adc,
        bits == 2 ==> r == Alu::Sub,
        bits == 3 ==> r == Alu::Sbc,
        bits == 4 ==> r == Alu::And,
        bits == 5 ==> r == Alu::Xor,
        bits == 6 ==> r == Alu::Or,
        bits == 7 ==> r == Alu::Cp,
{
    match bits {
        0 => Alu::Add,
        1 => Alu::Adc,
        2 => Alu::Sub,
        3 => Alu::Sbc,
        4 => Alu::And,
        5 => Alu::Xor,
        6 => Alu::Or,
        _ => Alu::Cp,
    }
}

/// Rotate/shift operation selected by a 3-bit operand field.
pub open spec fn rot_from_spec(bits: u8) -> Rot {
    if bits == 0 {
        Rot::Rlc
    } else if bits == 1 {
        Rot::Rrc
    } else if bits == 2 {
        Rot::Rl
    } else if bits == 3 {
        Rot::Rr
    } else if bits == 4 {
        Rot::Sla
    } else if bits == 5 {
        Rot::Sra
    } else if bits == 6 {
        Rot::Swap
    } else {
        Rot::Srl
    }
}

/// Rotate/shift operation selected by a 3-bit operand field.
pub fn rot_from_bits(bits: u8) -> (r: Rot)
    requires
        bits < 8,
    ensures
        r == rot_from_spec(bits),
{
    match bits {
        0 => Rot::Rlc,
        1 => Rot::Rrc,
        2 => Rot::Rl,
        3 => Rot::Rr,
        4 => Rot::Sla,
        5 => Rot::Sra,
        6 => Rot::Swap,
        _ => Rot::Srl,
    }
}

/// Flag condition selected by a 2-bit operand field.
pub fn condition_from_bits(bits: u8) -> (r: Condition)
    requires
        bits < 4,
    ensures
        r == condition_spec(bits),
        bits == 0 ==> r == Condition::NonZero,
        bits == 1 ==> r == Condition::Zero,
        bits == 2 ==> r == Condition::NoCarry,
        bits == 3 ==> r == Condition::Carry,
{
    match bits {
        0 => Condition::NonZero,
        1 => Condition::Zero,
        2 => Condition::NoCarry,
        _ => Condition::Carry,
    }
}


impl Opcode {
    /// Decodes one byte of the main opcode table.
    pub fn from(op: u8) -> (r: Opcode)
        ensures
            r == decode(op),
            r is Unknown <==> is_undefined_opcode(op),
            op == 0x00 ==> r == Opcode::Nop,
            op == 0xCD ==> r == Opcode::Call,
            op == 0xCB ==> r == Opcode::CBPrefix,
            op == 0xC3 ==> r == Opcode::JpImm,
            op == 0x18 ==> r == Opcode::JpRel,
            op == 0xC9 ==> r == Opcode::Ret,
            op == 0x76 ==> r == Opcode::Halt,
            op == 0xC2 ==> r == Opcode::JpCond(Condition::NonZero),
            op == 0xCA ==> r == Opcode::JpCond(Condition::Zero),
            op == 0xD2 ==> r == Opcode::JpCond(Condition::NoCarry),
            op == 0xDA ==> r == Opcode::JpCond(Condition::Carry),
            op == 0x20 ==> r == Opcode::JpRelCond(Condition::NonZero),
            op == 0x28 ==> r == Opcode::JpRelCond(Condition::Zero),
            op == 0x30 ==> r == Opcode::JpRelCond(Condition::NoCarry),
            op == 0x38 ==> r == Opcode::JpRelCond(Condition::Carry),
            op == 0xC4 ==> r == Opcode::CallCond(Condition::NonZero),
            op == 0xCC ==> r == Opcode::CallCond(Condition::Zero),
            op == 0xD4 ==> r == Opcode::CallCond(Condition::NoCarry),
            op == 0xDC ==> r == Opcode::CallCond(Condition::Carry),
            op == 0xC0 ==> r == Opcode::RetCond(Condition::NonZero),
            op == 0xC8 ==> r == Opcode::RetCond(Condition::Zero),
            op == 0xD0 ==> r == Opcode::RetCond(Condition::NoCarry),
            op == 0xD8 ==> r == Opcode::RetCond(Condition::Carry),
    {
        // Encodings are xx,yyy,zzz with yyy = ppq
        let x = op / 64;
        let y = (op / 8) % 8;
        let z = op % 8;
        let p = y / 2;
        let q = y % 2;
        if x == 0 {
            match z {
                0 => match y {
                    0 => Opcode::Nop,
                    1 => Opcode::Ld16MemSp,
                    2 => Opcode::Stop,
                    3 => Opcode::JpRel,
                    _ => Opcode::JpRelCond(condition_from_bits(y - 4)),
                },
                1 => if q == 0 {
                    Opcode::Ld16RImm(pair_from_bits(p))
                } else {
                    Opcode::Add16HL(pair_from_bits(p))
                },
                2 => {
                    let mem = match p {
                        0 => OpMemAddress16::Register(RegisterPair::BC),
                        1 => OpMemAddress16::Register(RegisterPair::DE),
                        2 => OpMemAddress16::RegisterIncrease(RegisterPair::HL),
                        _ => OpMemAddress16::RegisterDecrease(RegisterPair::HL),
                    };
                    if q == 0 {
                        Opcode::LdMemR(mem, Register::A)
                    } else {
                        Opcode::LdRMem(Register::A, mem)
                    }
                },
                3 => if q == 0 {
                    Opcode::Inc16R(pair_from_bits(p))
                } else {
                    Opcode::Dec16R(pair_from_bits(p))
                },
                4 => match register_from_bits(y) {
                    Some(r) => Opcode::IncR(r),
                    None => Opcode::IncMem,
                },
                5 => match register_from_bits(y) {
                    Some(r) => Opcode::DecR(r),
                    None => Opcode::DecMem,
                },
                6 => match register_from_bits(y) {
                    Some(r) => Opcode::LdRImm(r),
                    None => Opcode::LdMemImm(RegisterPair::HL),
                },
                _ => match y {
                    0 => Opcode::RlcA,
                    1 => Opcode::RrcA,
                    2 => Opcode::RlA,
                    3 => Opcode::RrA,
                    4 => Opcode::Daa,
                    5 => Opcode::Cpl,
                    6 => Opcode::Scf,
                    _ => Opcode::Ccf,
                },
            }
        } else if x == 1 {
            match (register_from_bits(y), register_from_bits(z)) {
                (Some(t), Some(s)) => Opcode::LdRR(t, s),
                (Some(t), None) => Opcode::LdRMem(t, OpMemAddress16::Register(RegisterPair::HL)),
                (None, Some(s)) => Opcode::LdMemR(OpMemAddress16::Register(RegisterPair::HL), s),
                (None, None) => Opcode::Halt,
            }
        } else if x == 2 {
            match register_from_bits(z) {
                Some(s) => Opcode::AluR(alu_from_bits(y), s),
                None => Opcode::AluMem(alu_from_bits(y)),
            }
        } else {
            match z {
                0 => match y {
                    4 => Opcode::LdhWrite(OpMemAddress8::Immediate, Register::A),
                    5 => Opcode::Add16SPSigned,
                    6 => Opcode::LdhRead(Register::A, OpMemAddress8::Immediate),
                    7 => Opcode::Ld16HLSPSigned,
                    _ => Opcode::RetCond(condition_from_bits(y)),
                },
                1 => if q == 0 {
                    Opcode::Pop(stack_pair_from_bits(p))
                } else {
                    match p {
                        0 => Opcode::Ret,
                        1 => Opcode::Reti,
                        2 => Opcode::JpHL,
                        _ => Opcode::Ld16SpHL,
                    }
                },
                2 => match y {
                    4 => Opcode::LdhWrite(OpMemAddress8::Register(Register::C), Register::A),
                    5 => Opcode::LdMemR(OpMemAddress16::Immediate, Register::A),
                    6 => Opcode::LdhRead(Register::A, OpMemAddress8::Register(Register::C)),
                    7 => Opcode::LdRMem(Register::A, OpMemAddress16::Immediate),
                    _ => Opcode::JpCond(condition_from_bits(y)),
                },
                3 => match y {
                    0 => Opcode::JpImm,
                    1 => Opcode::CBPrefix,
                    6 => Opcode::Di,
                    7 => Opcode::Ei,
                    _ => Opcode::Unknown,
                },
                4 => if y < 4 {
                    Opcode::CallCond(condition_from_bits(y))
                } else {
                    Opcode::Unknown
                },
                5 => if q == 0 {
                    Opcode::Push(stack_pair_from_bits(p))
                } else if p == 0 {
                    Opcode::Call
                } else {
                    Opcode::Unknown
                },
                6 => Opcode::AluImm(alu_from_bits(y)),
                _ => Opcode::Rst(y * 8),
            }
        }
    }

    /// Base cost of the instruction in machine cycles; a taken condition adds to it.
    pub fn cycles(&self) -> (r: u8)
        ensures
            r == base_cycles(*self),
            1 <= r <= 6,
            *self == Opcode::Nop ==> r == 1,
            *self == Opcode::Call ==> r == 6,
            *self is JpCond ==> r == 3,
            *self is JpRelCond ==> r == 2,
            *self is CallCond ==> r == 3,
            *self is RetCond ==> r == 2,
    {
        match self {
            Opcode::Unknown => 1,
            Opcode::CBPrefix => 1,
            Opcode::LdRR(_, _) => 1,
            Opcode::LdRImm(_) => 2,
            Opcode::LdRMem(_, mem) => match mem {
                OpMemAddress16::Immediate => 4,
                _ => 2,
            },
            Opcode::LdMemR(mem, _) => match mem {
                OpMemAddress16::Immediate => 4,
                _ => 2,
            },
            Opcode::LdMemImm(_) => 3,
            Opcode::LdhRead(_, mem) => match mem {
                OpMemAddress8::Register(_) => 2,
                OpMemAddress8::Immediate => 3,
            },
            Opcode::LdhWrite(mem, _) => match mem {
                OpMemAddress8::Register(_) => 2,
                OpMemAddress8::Immediate => 3,
            },
            Opcode::Ld16RImm(_) => 3,
            Opcode::Ld16MemSp => 5,
            Opcode::Ld16SpHL => 2,
            Opcode::Push(_) => 4,
            Opcode::Pop(_) => 3,
            Opcode::AluR(_, _) => 1,
            Opcode::AluImm(_) => 2,
            Opcode::AluMem(_) => 2,
            Opcode::IncR(_) => 1,
            Opcode::IncMem => 3,
            Opcode::DecR(_) => 1,
            Opcode::DecMem => 3,
            Opcode::Daa => 1,
            Opcode::Cpl => 1,
            Opcode::Add16HL(_) => 2,
            Opcode::Add16SPSigned => 4,
            Opcode::Inc16R(_) => 2,
            Opcode::Dec16R(_) => 2,
            Opcode::Ld16HLSPSigned => 3,
            Opcode::RlcA => 1,
            Opcode::RlA => 1,
            Opcode::RrcA => 1,
            Opcode::RrA => 1,
            Opcode::JpImm => 4,
            Opcode::JpHL => 1,
            Opcode::JpCond(_) => 3,
            Opcode::JpRel => 3,
            Opcode::JpRelCond(_) => 2,
            Opcode::Call => 6,
            Opcode::CallCond(_) => 3,
            Opcode::Ret => 4,
            Opcode::RetCond(_) => 2,
            Opcode::Reti => 4,
            Opcode::Rst(_) => 4,
            Opcode::Nop => 1,
            Opcode::Ccf => 1,
            Opcode::Scf => 1,
            Opcode::Halt => 1,
            Opcode::Stop => 1,
            Opcode::Di => 1,
            Opcode::Ei => 1,
        }
    }
}

impl OpcodeCB {
    /// Decodes the byte that follows the `0xCB` prefix.
    pub fn from(op: u8) -> (r: OpcodeCB)
        ensures
            r == decode_cb(op),
            op / 64 == 0 && op % 8 == 6 ==> r == OpcodeCB::RotateMem(rot_from_spec((op / 8) % 8)),
            op / 64 == 1 && op % 8 == 6 ==> r == OpcodeCB::BitMem((op / 8) % 8),
            op / 64 == 2 && op % 8 == 6 ==> r == OpcodeCB::ResMem((op / 8) % 8),
            op / 64 == 3 && op % 8 == 6 ==> r == OpcodeCB::SetMem((op / 8) % 8),
            op / 64 == 1 && op % 8 != 6 ==> r is BitR && r->BitR_0 == (op / 8) % 8,
            op / 64 == 2 && op % 8 != 6 ==> r is ResR && r->ResR_0 == (op / 8) % 8,
            op / 64 == 3 && op % 8 != 6 ==> r is SetR && r->SetR_0 == (op / 8) % 8,
    {
        let x = op / 64;
        let y = (op / 8) % 8;
        let z = op % 8;
        match register_from_bits(z) {
            Some(r) => if x == 0 {
                OpcodeCB::RotateR(rot_from_bits(y), r)
            } else if x == 1 {
                OpcodeCB::BitR(y, r)
            } else if x == 2 {
                OpcodeCB::ResR(y, r)
            } else {
                OpcodeCB::SetR(y, r)
            },
            None => if x == 0 {
                OpcodeCB::RotateMem(rot_from_bits(y))
            } else if x == 1 {
                OpcodeCB::BitMem(y)
            } else if x == 2 {
                OpcodeCB::ResMem(y)
            } else {
                OpcodeCB::SetMem(y)
            },
        }
    }

    /// Extra machine cycles that the prefixed instruction costs.
    pub fn cycles(&self) -> (r: u8)
        ensures
            r == cb_cycles(*self),
            2 <= r <= 4,
            (*self is RotateMem || *self is ResMem || *self is SetMem) ==> r == 4,
            *self is BitMem ==> r == 3,
            (*self is RotateR || *self is BitR || *self is ResR || *self is SetR) ==> r == 2,
    {
        match self {
            OpcodeCB::RotateR(_, _) => 2,
            OpcodeCB::RotateMem(_) => 4,
            OpcodeCB::BitR(_, _) => 2,
            OpcodeCB::BitMem(_) => 3,
            OpcodeCB::ResR(_, _) => 2,
            OpcodeCB::ResMem(_) => 4,
            OpcodeCB::SetR(_, _) => 2,
            OpcodeCB::SetMem(_) => 4,
        }
    }
}

} // verus!
