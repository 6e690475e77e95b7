use vstd::prelude::*;

use crate::bus::CpuBus;
use crate::decoder::{OpMemAddress16, OpMemAddress8, Opcode, OpcodeCB};

verus! {

/// One decoded instruction of a memory listing.
#[derive(Clone, Copy, Debug, PartialEq, Eq, Structural)]
pub struct Disassembled {
    /// Bank of the memory region the instruction sits in.
    pub bank: u8,
    /// Address of the opcode byte.
    pub addr: u16,
    pub opcode: Opcode,
    /// The second byte of a `0xCB`-prefixed instruction, decoded.
    pub cb: Option<OpcodeCB>,
    /// The immediate operand; for relative jumps, the target address.
    pub operand: u16,
}

/// Number of immediate bytes that follow an opcode (the `0xCB` byte included).
pub open spec fn operand_len(op: Opcode) -> nat {
    match op {
        Opcode::CBPrefix | Opcode::LdRImm(_) | Opcode::LdMemImm(_) | Opcode::AluImm(_)
        | Opcode::Add16SPSigned | Opcode::Ld16HLSPSigned | Opcode::JpRel | Opcode::JpRelCond(_) => 1,
        Opcode::LdhRead(_, m) => if m is Immediate {
            1
        } else {
            0
        },
        Opcode::LdhWrite(m, _) => if m is Immediate {
            1
        } else {
            0
        },
        Opcode::LdRMem(_, m) => if m is Immediate {
            2
        } else {
            0
        },
        Opcode::LdMemR(m, _) => if m is Immediate {
            2
        } else {
            0
        },
        Opcode::Ld16RImm(_) | Opcode::Ld16MemSp | Opcode::JpImm | Opcode::JpCond(_) | Opcode::Call
        | Opcode::CallCond(_) => 2,
        _ => 0,
    }
}

/// Bank shown for an address, given the cartridge ROM/RAM banks and the work RAM bank.
pub fn bank_of(addr: u16, rom_bank: u8, ram_bank: u8, wram_bank: u8) -> (r: u8)
    ensures
        addr <= 0x3FFF ==> r == 0,
        0x4000 <= addr <= 0x7FFF ==> r == rom_bank,
        0xA000 <= addr <= 0xBFFF ==> r == ram_bank,
        (0xD000 <= addr <= 0xDFFF) || (0xF000 <= addr <= 0xFDFF) ==> r == wram_bank,
{
    if 0x4000 <= addr && addr <= 0x7FFF {
        rom_bank
    } else if 0xA000 <= addr && addr <= 0xBFFF {
        ram_bank
    } else if (0xD000 <= addr && addr <= 0xDFFF) || (0xF000 <= addr && addr <= 0xFDFF) {
        wram_bank
    } else {
        0
    }
}

/// Decodes the instruction at `pc`; returns it and the address of the next one.
pub fn decode_at(bus: &CpuBus, pc: u16, bank: u8) -> (r: (Disassembled, u32))
    requires
        bus.wf(),
    ensures
        r.0.addr == pc,
        r.0.bank == bank,
        r.1 == pc as int + 1 + operand_len(r.0.opcode),
{
    let opcode = Opcode::from(bus.read(pc));
    let next = pc as u32 + 1;
    let b1 = bus.read(pc.wrapping_add(1));
    let b2 = bus.read(pc.wrapping_add(2));
    let word = (b2 as u16) * 256 + b1 as u16;
    let after1 = pc.wrapping_add(2);
    let rel_target = if b1 >= 0x80 {
        after1.wrapping_add(0xFF00 + b1 as u16)
    } else {
        after1.wrapping_add(b1 as u16)
    };
    let (cb, operand, len): (Option<OpcodeCB>, u16, u32) = match opcode {
        Opcode::CBPrefix => (Some(OpcodeCB::from(b1)), b1 as u16, 1),
        Opcode::JpRel | Opcode::JpRelCond(_) => (None, rel_target, 1),
        Opcode::LdRImm(_) | Opcode::LdMemImm(_) | Opcode::AluImm(_) | Opcode::Add16SPSigned
        | Opcode::Ld16HLSPSigned => (None, b1 as u16, 1),
        Opcode::LdhRead(_, m) => match m {
            OpMemAddress8::Immediate => (None, b1 as u16, 1),
            _ => (None, 0, 0),
        },
        Opcode::LdhWrite(m, _) => match m {
            OpMemAddress8::Immediate => (None, b1 as u16, 1),
            _ => (None, 0, 0),
        },
        Opcode::LdRMem(_, m) => match m {
            OpMemAddress16::Immediate => (None, word, 2),
            _ => (None, 0, 0),
        },
        Opcode::LdMemR(m, _) => match m {
            OpMemAddress16::Immediate => (None, word, 2),
            _ => (None, 0, 0),
        },
        Opcode::Ld16RImm(_) | Opcode::Ld16MemSp | Opcode::JpImm | Opcode::JpCond(_) | Opcode::Call
        | Opcode::CallCond(_) => (None, word, 2),
        _ => (None, 0, 0),
    };
    (Disassembled { bank, addr: pc, opcode, cb, operand }, next + len)
}

/// Decodes the whole address space from 0, one instruction after another.
pub fn disassemble(bus: &CpuBus) -> (r: Vec<Disassembled>)
    requires
        bus.wf(),
    ensures
        r@.len() > 0,
        r@[0].addr == 0,
        forall|i: int| 0 <= i < r@.len() ==> #[trigger] r@[i].addr < 0xFFFF,
        forall|i: int| 0 <= i < r@.len() - 1 ==> r@[i + 1].addr == r@[i].addr + 1 + operand_len(
            #[trigger] r@[i].opcode,
        ),
{
    let rom_bank = bus.get_cartridge_rom_bank();
    let ram_bank = bus.get_cartridge_ram_bank();
    let wram_bank = bus.read_without_dma_check(0xFF70, false);
    let mut listing: Vec<Disassembled> = Vec::new();
    let mut pc: u32 = 0;
    while pc < 0xFFFF
        invariant
            bus.wf(),
            pc <= 0x10001,
            listing@.len() == 0 ==> pc == 0,
            listing@.len() > 0 ==> listing@[0].addr == 0,
            forall|i: int| 0 <= i < listing@.len() ==> #[trigger] listing@[i].addr < 0xFFFF,
            listing@.len() > 0 ==> pc == listing@.last().addr + 1 + operand_len(listing@.last().opcode),
            forall|i: int|
                0 <= i < listing@.len() - 1 ==> listing@[i + 1].addr == listing@[i].addr + 1
                    + operand_len(#[trigger] listing@[i].opcode),
        decreases 0x10002 - pc,
    {
        let addr = pc as u16;
        let bank = bank_of(addr, rom_bank, ram_bank, wram_bank);
        let (d, next) = decode_at(bus, addr, bank);
        listing.push(d);
        pc = next;
    }
    listing
}

} // verus!
