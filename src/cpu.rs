use vstd::prelude::*;

use crate::bus::{dma_conflict, CpuBus};
use crate::decoder::{
    base_cycles, cb_cycles, decode, decode_cb,
    Alu, Condition, OpMemAddress16, OpMemAddress8, Opcode, OpcodeCB, Register, RegisterPair, Rot,
};
use crate::dma::OamDma;
use crate::interrupt::{
    lowest_set_bit, lowest_set_bit_index, INT_MASK, INT_SERIAL, INT_TIMER,
};

verus! {

/// Flag bit: the result was zero.
pub const FLAG_Z: u8 = 0x80;

/// Flag bit: the operation was a subtraction.
pub const FLAG_N: u8 = 0x40;

/// Flag bit: carry out of bit 3.
pub const FLAG_H: u8 = 0x20;

/// Flag bit: carry out of bit 7.
pub const FLAG_C: u8 = 0x10;

/// Whether condition `c` holds for flags `f`.
pub open spec fn condition_holds(f: u8, c: Condition) -> bool {
    match c {
        Condition::NonZero => f & FLAG_Z == 0,
        Condition::Zero => f & FLAG_Z != 0,
        Condition::NoCarry => f & FLAG_C == 0,
        Condition::Carry => f & FLAG_C != 0,
    }
}

/// Whether flag bit `x` is set in `f`.
pub open spec fn flag_set(f: u8, x: u8) -> bool {
    f & x != 0
}

/// Setting or clearing the bits `flag` of `f` changes exactly those bits.
pub proof fn lemma_flag_update(f: u8, flag: u8, x: u8)
    ensures
        x != 0 && flag & x == x ==> (f | flag) & x != 0 && (f & !flag) & x == 0,
        flag & x == 0 ==> (f | flag) & x == f & x && (f & !flag) & x == f & x,
{
    assert(x != 0 && flag & x == x ==> (f | flag) & x != 0 && (f & !flag) & x == 0) by (bit_vector);
    assert(flag & x == 0 ==> (f | flag) & x == f & x && (f & !flag) & x == f & x) by (bit_vector);
}

/// The flag bits are distinct single bits.
pub proof fn lemma_flag_constants()
    ensures
        FLAG_Z & FLAG_Z == FLAG_Z,
        FLAG_Z & FLAG_N == 0,
        FLAG_Z & FLAG_H == 0,
        FLAG_Z & FLAG_C == 0,
        FLAG_N & FLAG_Z == 0,
        FLAG_N & FLAG_N == FLAG_N,
        FLAG_N & FLAG_H == 0,
        FLAG_N & FLAG_C == 0,
        FLAG_H & FLAG_Z == 0,
        FLAG_H & FLAG_N == 0,
        FLAG_H & FLAG_H == FLAG_H,
        FLAG_H & FLAG_C == 0,
        FLAG_C & FLAG_Z == 0,
        FLAG_C & FLAG_N == 0,
        FLAG_C & FLAG_H == 0,
        FLAG_C & FLAG_C == FLAG_C,
{
    assert(0x80u8 & 0x80u8 == 0x80u8 && 0x80u8 & 0x40u8 == 0x00u8 && 0x80u8 & 0x20u8 == 0x00u8 && 0x80u8 & 0x10u8 == 0x00u8 && 0x40u8 & 0x80u8 == 0x00u8 && 0x40u8 & 0x40u8 == 0x40u8 && 0x40u8 & 0x20u8 == 0x00u8 && 0x40u8 & 0x10u8 == 0x00u8 && 0x20u8 & 0x80u8 == 0x00u8 && 0x20u8 & 0x40u8 == 0x00u8 && 0x20u8 & 0x20u8 == 0x20u8 && 0x20u8 & 0x10u8 == 0x00u8 && 0x10u8 & 0x80u8 == 0x00u8 && 0x10u8 & 0x40u8 == 0x00u8 && 0x10u8 & 0x20u8 == 0x00u8 && 0x10u8 & 0x10u8 == 0x10u8) by (bit_vector);
}

/// Result of a rotate/shift of `val` with carry-in `carry_in`.
pub open spec fn rot_value(op: Rot, val: u8, carry_in: bool) -> u8 {
    match op {
        Rot::Rlc => ((val % 128) * 2 + val / 128) as u8,
        Rot::Rrc => (val / 2 + (val % 2) * 128) as u8,
        Rot::Rl => ((val % 128) * 2 + if carry_in { 1int } else { 0int }) as u8,
        Rot::Rr => (val / 2 + if carry_in { 128int } else { 0int }) as u8,
        Rot::Sla => ((val % 128) * 2) as u8,
        Rot::Sra => (val / 2 + if val >= 128 { 128int } else { 0int }) as u8,
        Rot::Swap => ((val % 16) * 16 + val / 16) as u8,
        Rot::Srl => (val / 2) as u8,
    }
}

/// Carry out of a rotate/shift of `val`.
pub open spec fn rot_carry(op: Rot, val: u8) -> bool {
    match op {
        Rot::Rlc | Rot::Rl | Rot::Sla => val >= 0x80,
        Rot::Swap => false,
        _ => val % 2 == 1,
    }
}

/// The new A of an 8-bit ALU operation on A = `a` and operand `v`, with carry-in `c`.
pub open spec fn alu_result(op: Alu, a: u8, v: u8, c: bool) -> u8 {
    let ci: int = if c { 1 } else { 0 };
    match op {
        Alu::Add => ((a + v) % 256) as u8,
        Alu::Adc => ((a + v + ci) % 256) as u8,
        Alu::Sub => ((a - v) % 256) as u8,
        Alu::Sbc => ((a - v - ci) % 256) as u8,
        Alu::And => a & v,
        Alu::Xor => a ^ v,
        Alu::Or => a | v,
        Alu::Cp => a,
    }
}

/// Sign-extends an 8-bit offset to 16 bits.
pub open spec fn sign_extend(v: u8) -> u16 {
    if v >= 0x80 {
        (0xFF00 + v as int) as u16
    } else {
        v as u16
    }
}

/// The byte that a CPU read of `a` yields, where the state determines it: 0xFF under an
/// OAM DMA bus conflict, else the byte behind the address (cartridge ROM and RAM, VRAM, OAM,
/// work RAM, high RAM, I/O latches).
pub open spec fn readable(bus: &CpuBus, a: u16) -> Option<u8> {
    if bus.dma_active() && dma_conflict(bus.oam_dma.source, a) {
        Some(0xFFu8)
    } else {
        bus.unchecked_byte(a)
    }
}

/// The little-endian word that CPU reads of `a` and `a + 1` yield, where both are determined.
pub open spec fn readable_word(bus: &CpuBus, a: u16) -> Option<u16> {
    let hi_addr = ((a + 1) % 0x10000) as u16;
    if readable(bus, a) is Some && readable(bus, hi_addr) is Some {
        Some((readable(bus, hi_addr)->Some_0 as int * 256 + readable(bus, a)->Some_0 as int) as u16)
    } else {
        None
    }
}

/// Addresses of plain memory (work RAM and high RAM), where a write is read back as is.
pub open spec fn is_plain_memory(a: int) -> bool {
    (0xC000 <= a <= 0xFDFF) || (0xFF80 <= a <= 0xFFFE)
}

/// The processor: registers, the latched instruction and its remaining cycles, and the
/// interrupt/halt state.
pub struct Cpu {
    pub b: u8,
    pub c: u8,
    pub d: u8,
    pub e: u8,
    pub h: u8,
    pub l: u8,
    pub a: u8,
    pub f: u8,
    pub sp: u16,
    pub pc: u16,
    pub cycles: u8,
    pub opcode_latch: Opcode,
    pub interrupt_master_enable: bool,
    pub ime_pending: Option<bool>,
    pub halted: bool,
    pub halt_bug_active: bool,
}

impl Cpu {
    pub open spec fn wf(&self) -> bool {
        &&& self.cycles <= 10
        &&& !(self.opcode_latch is Unknown) ==> self.cycles <= 6
    }

    /// The register state that the colour boot ROM leaves behind.
    pub fn new() -> (r: Self)
        ensures
            r.wf(),
            r.pc == 0x0100,
            r.sp == 0xFFFE,
            r.cycles == 0,
            r.opcode_latch == Opcode::Unknown,
            !r.interrupt_master_enable && r.ime_pending is None,
            !r.halted && !r.halt_bug_active,
    {
        Cpu {
            b: 0,
            c: 0,
            d: 0xFF,
            e: 0x56,
            h: 0,
            l: 0x0D,
            a: 0x11,
            f: FLAG_Z,
            sp: 0xFFFE,
            pc: 0x0100,
            cycles: 0,
            opcode_latch: Opcode::Unknown,
            interrupt_master_enable: false,
            ime_pending: None,
            halted: false,
            halt_bug_active: false,
        }
    }

    /// One machine cycle: OAM DMA, timer and serial first, then the instruction in flight,
    /// then (at an instruction boundary) interrupts and the next fetch.
    #[verifier::spinoff_prover]
    #[verifier::rlimit(100)]
    pub fn clock(&mut self, bus: &mut CpuBus)
        requires
            old(self).wf(),
            old(bus).wf(),
        ensures
            old(bus).ppu.timing_kept(final(bus).ppu),
            final(self).wf(),
            final(bus).wf(),
            !final(self).halted ==> final(self).cycles >= 1,
            // Idle cycles of an instruction count down
            !old(self).halted && old(self).cycles > 1 && old(self).opcode_latch is Unknown ==> {
                &&& final(self).cycles == old(self).cycles - 1
                &&& final(self).pc == old(self).pc
                &&& final(self).sp == old(self).sp
                &&& final(self).opcode_latch is Unknown
            },
            // The timer is clocked once per machine cycle and its interrupt requested
            old(self).opcode_latch is Unknown && old(bus).interrupts().enable == 0
                && old(bus).oam_dma.cycle is None ==> {
                &&& final(bus).timer_registers == old(bus).timer_registers.reload_step().with_div(
                    ((old(bus).timer_registers.div + 4) % 0x10000) as u16,
                )
                &&& (old(bus).timer_registers.interrupt_cycle_countdown == 2
                    && old(bus).timer_registers.counter == 0) ==> final(bus).interrupts().status
                    & INT_TIMER == INT_TIMER
            },
            // At an instruction boundary the next opcode is fetched and latched with its cost
            // (unless an interrupt can be serviced: IE set, and IME set or about to be)
            !old(self).halted && old(self).cycles <= 1 && old(self).opcode_latch is Unknown && (old(
                bus,
            ).interrupts().enable == 0 || (!old(self).interrupt_master_enable && old(self).ime_pending
                != Some(false))) && old(bus).oam_dma.cycle is None && (old(self).pc <= 0x7FFF
                || is_plain_memory(old(self).pc as int)) ==> {
                &&& final(self).opcode_latch == decode(old(bus).unchecked_byte(old(self).pc)->Some_0)
                &&& final(self).cycles == base_cycles(final(self).opcode_latch)
                &&& final(self).pc == if old(self).halt_bug_active {
                    old(self).pc as int
                } else {
                    (old(self).pc + 1) % 0x10000
                }
                &&& !final(self).halt_bug_active
            },
            // A latched instruction runs on the first cycle after its fetch; the rest are idle
            !old(self).halted && old(self).cycles > 1 && !(old(self).opcode_latch is Unknown) ==> {
                &&& final(self).opcode_latch is Unknown
                &&& final(self).cycles >= old(self).cycles - 1
                &&& (!(old(self).opcode_latch is JpCond || old(self).opcode_latch is JpRelCond
                    || old(self).opcode_latch is CallCond || old(self).opcode_latch is RetCond
                    || old(self).opcode_latch is CBPrefix) ==> final(self).cycles == old(self).cycles
                    - 1)
            },
            !old(self).halted && old(self).cycles > 1 && old(bus).oam_dma.cycle is None && (old(
                self,
            ).pc <= 0x7FFF || is_plain_memory(old(self).pc as int)) ==> (old(
                self,
            ).opcode_latch matches Opcode::LdRImm(t) ==> {
                &&& final(self).register_value(t) == old(bus).unchecked_byte(old(self).pc)->Some_0
                &&& final(self).pc == (old(self).pc + 1) % 0x10000
            }),
            !old(self).halted && old(self).cycles > 1 ==> (old(self).opcode_latch matches Opcode::AluR(
                op,
                r,
            ) ==> final(self).a == alu_result(
                op,
                old(self).a,
                old(self).register_value(r),
                old(self).f & FLAG_C != 0,
            )),
            // A latched call runs on the first cycle after its fetch
            !old(self).halted && old(self).cycles > 1 && old(self).opcode_latch == Opcode::Call
                && old(bus).oam_dma.cycle is None && is_plain_memory(old(self).pc as int)
                && is_plain_memory((old(self).pc + 1) % 0x10000) ==> {
                &&& final(self).cycles == old(self).cycles - 1
                &&& final(self).opcode_latch is Unknown
                &&& final(self).sp == (old(self).sp - 2) % 0x10000
                &&& final(self).pc == readable_word(old(bus), old(self).pc)->Some_0
                &&& (is_plain_memory((old(self).sp - 1) % 0x10000) && is_plain_memory(
                    (old(self).sp - 2) % 0x10000,
                ) ==> {
                    &&& final(bus).bus_held_byte(((old(self).sp - 1) % 0x10000) as u16) == Some(
                        (((old(self).pc + 2) % 0x10000) / 256) as u8,
                    )
                    &&& final(bus).bus_held_byte(((old(self).sp - 2) % 0x10000) as u16) == Some(
                        (((old(self).pc + 2) % 0x10000) % 256) as u8,
                    )
                })
            },
    {
        self.handle_oam_dma(bus);
        bus.run_hdma();
        let ghost status0 = bus.interrupts().status;
        if bus.timer_registers.clock() {
            bus.request_interrupt(INT_TIMER);
            proof {
                assert((status0 | (4u8 & 0x1Fu8)) & 4u8 == 4u8) by (bit_vector);
            }
        }
        let ghost status1 = bus.interrupts().status;
        if bus.serial_port.clock() {
            bus.request_interrupt(INT_SERIAL);
            proof {
                assert(status1 & 4u8 == 4u8 ==> (status1 | (8u8 & 0x1Fu8)) & 4u8 == 4u8)
                    by (bit_vector);
            }
        }
        // The last cycle of an instruction overlaps the next fetch
        if !self.halted && self.cycles != 0 {
            self.execute(bus);
            // Execution is not cycle-exact: the remaining cycles are idle
            self.opcode_latch = Opcode::Unknown;
            self.cycles = self.cycles - 1;
        }
        if self.cycles == 0 {
            match self.ime_pending {
                Some(true) => {
                    self.ime_pending = Some(false);
                },
                Some(false) => {
                    self.interrupt_master_enable = true;
                    self.ime_pending = None;
                },
                None => {},
            }
            proof {
                let st = bus.interrupts().status;
                assert(0u8 & st & 0x1Fu8 == 0u8) by (bit_vector);
            }
            self.handle_interrupt(bus);
            if !self.halted {
                self.fetch(bus);
            }
        }
    }

    /// Services the highest-priority pending interrupt (lowest bit of enable & request).
    pub fn handle_interrupt(&mut self, bus: &mut CpuBus)
        requires
            old(self).wf(),
            old(bus).wf(),
        ensures
            old(bus).ppu.timing_kept(final(bus).ppu),
            final(self).wf(),
            final(bus).wf(),
            ({
                let pending = old(bus).interrupts().enable & old(bus).interrupts().status & INT_MASK;
                &&& (pending == 0 ==> *final(self) == *old(self) && *final(bus) == *old(bus))
                &&& (pending != 0 ==> !final(self).halted)
                &&& (pending != 0 && !old(self).interrupt_master_enable ==> final(self).pc
                    == old(self).pc && final(self).cycles == old(self).cycles
                    && !final(self).interrupt_master_enable)
                &&& (!old(self).interrupt_master_enable ==> *final(bus) == *old(bus) && *final(self)
                    == (Cpu { halted: final(self).halted, ..*old(self) }))
                &&& (pending != 0 && old(self).interrupt_master_enable ==> {
                    &&& !final(self).interrupt_master_enable
                    &&& final(self).pc == 0x40 + 8 * lowest_set_bit(pending)
                    &&& final(self).cycles == 5
                    &&& final(self).sp == (old(self).sp - 2) % 0x10000
                    &&& ({
                        let a1 = (old(self).sp - 1) % 0x10000;
                        let a2 = (old(self).sp - 2) % 0x10000;
                        a1 != 0xFF0F && a1 != 0xFFFF && a2 != 0xFF0F && a2 != 0xFFFF ==> {
                            &&& final(bus).interrupts().status == (old(bus).interrupts().status & !(1u8
                                << lowest_set_bit(pending) as u8)) & INT_MASK
                            &&& final(bus).interrupts().enable == old(bus).interrupts().enable
                        }
                    })
                    &&& (!old(bus).dma_active() && is_plain_memory((old(self).sp - 1) % 0x10000)
                        && is_plain_memory((old(self).sp - 2) % 0x10000) ==> {
                        &&& final(bus).bus_held_byte(((old(self).sp - 1) % 0x10000) as u16) == Some(
                            (old(self).pc / 256) as u8,
                        )
                        &&& final(bus).bus_held_byte(((old(self).sp - 2) % 0x10000) as u16) == Some(
                            (old(self).pc % 256) as u8,
                        )
                    })
                })
            }),
    {
        let interrupts_status = bus.read(0xFF0F);
        let interrupts_enable = bus.read(0xFFFF);
        let pending = interrupts_enable & interrupts_status & INT_MASK;
        proof {
            let e = bus.interrupts().enable;
            let s = bus.interrupts().status;
            assert((e | 0xE0) & (s | 0xE0) & 0x1F == e & s & 0x1F) by (bit_vector);
        }
        if pending != 0 {
            // A pending interrupt ends HALT even when IME is clear
            self.halted = false;
            if self.interrupt_master_enable {
                let index = lowest_set_bit_index(pending);
                self.interrupt_master_enable = false;
                let cleared = interrupts_status & !(1u8 << index);
                proof {
                    let st = bus.interrupts().status;
                    assert(((st | 0xE0) & !(1u8 << index)) & 0x1F == (st & !(1u8 << index)) & 0x1F)
                        by (bit_vector);
                }
                bus.write(0xFF0F, cleared);
                let pc = self.pc;
                self.push_stack(bus, pc);
                self.pc = 0x0040 + 0x0008 * (index as u16);
                self.cycles = 5;
            }
        }
    }

    /// Reads the next opcode and latches it with its base cost.
    pub fn fetch(&mut self, bus: &mut CpuBus)
        requires
            old(self).wf(),
            old(bus).wf(),
        ensures
            old(bus).ppu.timing_kept(final(bus).ppu),
            final(self).wf(),
            *final(bus) == *old(bus),
            final(self).cycles == base_cycles(final(self).opcode_latch),
            readable(old(bus), old(self).pc) matches Some(b) ==> final(self).opcode_latch == decode(b),
            1 <= final(self).cycles <= 6,
            final(self).opcode_latch == Opcode::Nop ==> final(self).cycles == 1,
            final(self).opcode_latch == Opcode::Call ==> final(self).cycles == 6,
            final(self).opcode_latch is JpCond ==> final(self).cycles == 3,
            final(self).opcode_latch is JpRelCond ==> final(self).cycles == 2,
            final(self).opcode_latch is CallCond ==> final(self).cycles == 3,
            final(self).opcode_latch is RetCond ==> final(self).cycles == 2,
            !final(self).halt_bug_active,
            old(self).halt_bug_active ==> final(self).pc == old(self).pc,
            !old(self).halt_bug_active ==> final(self).pc == (old(self).pc + 1) % 0x10000,
    {
        let op = self.read_immediate(bus);
        self.opcode_latch = Opcode::from(op);
        self.cycles = self.opcode_latch.cycles();
        if self.halt_bug_active {
            // HALT bug: the byte after HALT is read twice
            self.pc = self.pc.wrapping_sub(1);
            self.halt_bug_active = false;
        }
    }

    /// Reads the byte at PC and advances PC.
    pub fn read_immediate(&mut self, bus: &CpuBus) -> (r: u8)
        requires
            bus.wf(),
        ensures
            readable(bus, old(self).pc) matches Some(v) ==> r == v,
            final(self).pc == (old(self).pc + 1) % 0x10000,
            final(self).a == old(self).a && final(self).f == old(self).f,
            final(self).b == old(self).b && final(self).c == old(self).c,
            final(self).d == old(self).d && final(self).e == old(self).e,
            final(self).h == old(self).h && final(self).l == old(self).l,
            final(self).sp == old(self).sp,
            final(self).cycles == old(self).cycles,
            final(self).opcode_latch == old(self).opcode_latch,
            final(self).interrupt_master_enable == old(self).interrupt_master_enable,
            final(self).ime_pending == old(self).ime_pending,
            final(self).halted == old(self).halted,
            final(self).halt_bug_active == old(self).halt_bug_active,
    {
        let immediate = bus.read(self.pc);
        self.pc = self.pc.wrapping_add(1);
        immediate
    }

    /// Reads a little-endian 16-bit immediate.
    pub fn read_immediate16(&mut self, bus: &CpuBus) -> (r: u16)
        requires
            bus.wf(),
        ensures
            readable_word(bus, old(self).pc) matches Some(w) ==> r == w,
            final(self).pc == (old(self).pc + 2) % 0x10000,
            final(self).a == old(self).a && final(self).f == old(self).f,
            final(self).b == old(self).b && final(self).c == old(self).c,
            final(self).d == old(self).d && final(self).e == old(self).e,
            final(self).h == old(self).h && final(self).l == old(self).l,
            final(self).sp == old(self).sp,
            final(self).cycles == old(self).cycles,
            final(self).opcode_latch == old(self).opcode_latch,
            final(self).interrupt_master_enable == old(self).interrupt_master_enable,
            final(self).ime_pending == old(self).ime_pending,
            final(self).halted == old(self).halted,
            final(self).halt_bug_active == old(self).halt_bug_active,
    {
        let lsb = self.read_immediate(bus) as u16;
        let msb = self.read_immediate(bus) as u16;
        msb * 256 + lsb
    }

    /// Pops a 16-bit value (low byte first).
    pub fn pop_stack(&mut self, bus: &CpuBus) -> (r: u16)
        requires
            bus.wf(),
        ensures
            readable_word(bus, old(self).sp) matches Some(w) ==> r == w,
            final(self).sp == (old(self).sp + 2) % 0x10000,
            final(self).pc == old(self).pc,
            final(self).cycles == old(self).cycles,
            final(self).opcode_latch == old(self).opcode_latch,
            final(self).interrupt_master_enable == old(self).interrupt_master_enable,
            final(self).halted == old(self).halted,
    {
        let lsb = bus.read(self.sp) as u16;
        self.sp = self.sp.wrapping_add(1);
        let msb = bus.read(self.sp) as u16;
        self.sp = self.sp.wrapping_add(1);
        msb * 256 + lsb
    }

    /// Pushes a 16-bit value (high byte first, so the low byte ends at the lower address).
    pub fn push_stack(&mut self, bus: &mut CpuBus, val: u16)
        requires
            old(bus).wf(),
        ensures
            old(bus).ppu.timing_kept(final(bus).ppu),
            final(bus).wf(),
            final(self).sp == (old(self).sp - 2) % 0x10000,
            *final(self) == (Cpu { sp: final(self).sp, ..*old(self) }),
            ({
                let a1 = (old(self).sp - 1) % 0x10000;
                let a2 = (old(self).sp - 2) % 0x10000;
                a1 != 0xFF0F && a1 != 0xFFFF && a2 != 0xFF0F && a2 != 0xFFFF
                    ==> final(bus).interrupts() == old(bus).interrupts()
            }),
            ({
                let a1 = (old(self).sp - 1) % 0x10000;
                let a2 = (old(self).sp - 2) % 0x10000;
                !old(bus).dma_active() && is_plain_memory(a1) && is_plain_memory(a2) ==> {
                    &&& final(bus).bus_held_byte(a1 as u16) == Some((val / 256) as u8)
                    &&& final(bus).bus_held_byte(a2 as u16) == Some((val % 256) as u8)
                    &&& final(bus).interrupts() == old(bus).interrupts()
                    &&& final(bus).oam_dma == old(bus).oam_dma
                }
            }),
    {
        self.sp = self.sp.wrapping_sub(1);
        bus.write(self.sp, (val / 256) as u8);
        self.sp = self.sp.wrapping_sub(1);
        bus.write(self.sp, (val % 256) as u8);
    }

    /// Sets or clears the flag bits `flag`.
    pub fn set_flag(&mut self, flag: u8, value: bool)
        ensures
            final(self).f == if value {
                old(self).f | flag
            } else {
                old(self).f & !flag
            },
            *final(self) == (Cpu { f: final(self).f, ..*old(self) }),
            flag == FLAG_C ==> ((final(self).f & FLAG_C != 0) == value),
            flag & FLAG_Z == FLAG_Z ==> (final(self).f & FLAG_Z != 0) == value,
            flag & FLAG_Z == 0 ==> final(self).f & FLAG_Z == old(self).f & FLAG_Z,
            flag & FLAG_N == FLAG_N ==> (final(self).f & FLAG_N != 0) == value,
            flag & FLAG_N == 0 ==> final(self).f & FLAG_N == old(self).f & FLAG_N,
            flag & FLAG_H == FLAG_H ==> (final(self).f & FLAG_H != 0) == value,
            flag & FLAG_H == 0 ==> final(self).f & FLAG_H == old(self).f & FLAG_H,
            flag & FLAG_C == FLAG_C ==> (final(self).f & FLAG_C != 0) == value,
            flag & FLAG_C == 0 ==> final(self).f & FLAG_C == old(self).f & FLAG_C,
    {
        proof {
            let f = self.f;
            lemma_flag_update(f, flag, FLAG_Z);
            lemma_flag_update(f, flag, FLAG_N);
            lemma_flag_update(f, flag, FLAG_H);
            lemma_flag_update(f, flag, FLAG_C);
            assert((f | 0x10u8) & 0x10u8 != 0 && (f & !0x10u8) & 0x10u8 == 0) by (bit_vector);
        }
        if value {
            self.f = self.f | flag;
        } else {
            self.f = self.f & !flag;
        }
    }

    /// Sets the four flag bits to `z`, `n`, `h` and `c`; the low nibble of F is kept.
    pub fn write_flags(&mut self, z: bool, n: bool, h: bool, c: bool)
        ensures
            (final(self).f & FLAG_Z != 0) == z,
            (final(self).f & FLAG_N != 0) == n,
            (final(self).f & FLAG_H != 0) == h,
            (final(self).f & FLAG_C != 0) == c,
            *final(self) == (Cpu { f: final(self).f, ..*old(self) }),
    {
        let f0 = self.f;
        let low = f0 & 0x0F;
        let zb: u8 = if z { 0x80 } else { 0 };
        let nb: u8 = if n { 0x40 } else { 0 };
        let hb: u8 = if h { 0x20 } else { 0 };
        let cb: u8 = if c { 0x10 } else { 0 };
        let f = zb | nb | hb | cb | low;
        proof {
            assert((zb == 0x80 || zb == 0) && (nb == 0x40 || nb == 0) && (hb == 0x20 || hb == 0) && (cb
                == 0x10 || cb == 0) && low <= 0x0F ==> {
                &&& ((zb | nb | hb | cb | low) & 0x80 != 0) == (zb == 0x80)
                &&& ((zb | nb | hb | cb | low) & 0x40 != 0) == (nb == 0x40)
                &&& ((zb | nb | hb | cb | low) & 0x20 != 0) == (hb == 0x20)
                &&& ((zb | nb | hb | cb | low) & 0x10 != 0) == (cb == 0x10)
            }) by (bit_vector);
            assert(f0 & 0x0F <= 0x0F) by (bit_vector);
        }
        self.f = f;
    }

    pub fn check_conditional(&self, condition: Condition) -> (r: bool)
        ensures
            r == condition_holds(self.f, condition),
    {
        match condition {
            Condition::NonZero => self.f & FLAG_Z == 0,
            Condition::Zero => self.f & FLAG_Z != 0,
            Condition::NoCarry => self.f & FLAG_C == 0,
            Condition::Carry => self.f & FLAG_C != 0,
        }
    }

    pub open spec fn register_value(&self, reg: Register) -> u8 {
        match reg {
            Register::B => self.b,
            Register::C => self.c,
            Register::D => self.d,
            Register::E => self.e,
            Register::H => self.h,
            Register::L => self.l,
            Register::A => self.a,
        }
    }

    pub fn get_register(&self, reg: Register) -> (r: u8)
        ensures
            r == self.register_value(reg),
    {
        match reg {
            Register::B => self.b,
            Register::C => self.c,
            Register::D => self.d,
            Register::E => self.e,
            Register::H => self.h,
            Register::L => self.l,
            Register::A => self.a,
        }
    }

    pub fn set_register(&mut self, reg: Register, val: u8)
        ensures
            final(self).register_value(reg) == val,
            forall|o: Register| o != reg ==> final(self).register_value(o) == old(self).register_value(o),
            *final(self) == (Cpu {
                b: final(self).b,
                c: final(self).c,
                d: final(self).d,
                e: final(self).e,
                h: final(self).h,
                l: final(self).l,
                a: final(self).a,
                ..*old(self)
            }),
            reg != Register::A ==> final(self).a == old(self).a,
            reg != Register::B ==> final(self).b == old(self).b,
            reg != Register::C ==> final(self).c == old(self).c,
            reg != Register::D ==> final(self).d == old(self).d,
            reg != Register::E ==> final(self).e == old(self).e,
            reg != Register::H ==> final(self).h == old(self).h,
            reg != Register::L ==> final(self).l == old(self).l,
            final(self).f == old(self).f && final(self).sp == old(self).sp && final(self).pc == old(self).pc,
            final(self).cycles == old(self).cycles,
            final(self).opcode_latch == old(self).opcode_latch,
            final(self).interrupt_master_enable == old(self).interrupt_master_enable,
            final(self).ime_pending == old(self).ime_pending,
            final(self).halted == old(self).halted,
            final(self).halt_bug_active == old(self).halt_bug_active,
    {
        match reg {
            Register::B => self.b = val,
            Register::C => self.c = val,
            Register::D => self.d = val,
            Register::E => self.e = val,
            Register::H => self.h = val,
            Register::L => self.l = val,
            Register::A => self.a = val,
        }
    }

    pub open spec fn pair_value(&self, reg: RegisterPair) -> u16 {
        match reg {
            RegisterPair::BC => (self.b as u16 * 256 + self.c as u16) as u16,
            RegisterPair::DE => (self.d as u16 * 256 + self.e as u16) as u16,
            RegisterPair::HL => (self.h as u16 * 256 + self.l as u16) as u16,
            RegisterPair::SP => self.sp,
            RegisterPair::AF => (self.a as u16 * 256 + (self.f & 0xF0) as u16) as u16,
        }
    }

    pub fn get_register_pair(&self, reg: RegisterPair) -> (r: u16)
        ensures
            r == self.pair_value(reg),
    {
        match reg {
            RegisterPair::BC => self.b as u16 * 256 + self.c as u16,
            RegisterPair::DE => self.d as u16 * 256 + self.e as u16,
            RegisterPair::HL => self.h as u16 * 256 + self.l as u16,
            RegisterPair::SP => self.sp,
            RegisterPair::AF => self.a as u16 * 256 + (self.f & 0xF0) as u16,
        }
    }

    /// Writes a register pair; writing AF keeps only the upper nibble of F.
    pub fn set_register_pair(&mut self, reg: RegisterPair, val: u16)
        ensures
            reg != RegisterPair::AF ==> final(self).pair_value(reg) == val,
            reg == RegisterPair::AF ==> final(self).a == val / 256 && final(self).f == (val % 256)
                as u8 & 0xF0,
            final(self).pc == old(self).pc,
            reg != RegisterPair::SP ==> final(self).sp == old(self).sp,
            final(self).cycles == old(self).cycles,
            final(self).opcode_latch == old(self).opcode_latch,
            final(self).interrupt_master_enable == old(self).interrupt_master_enable,
            final(self).ime_pending == old(self).ime_pending,
            final(self).halted == old(self).halted,
            final(self).halt_bug_active == old(self).halt_bug_active,
            reg != RegisterPair::AF ==> final(self).f == old(self).f,
            reg == RegisterPair::BC ==> *final(self) == (Cpu { b: final(self).b, c: final(self).c, ..*old(self) }),
            reg == RegisterPair::DE ==> *final(self) == (Cpu { d: final(self).d, e: final(self).e, ..*old(self) }),
            reg == RegisterPair::HL ==> *final(self) == (Cpu { h: final(self).h, l: final(self).l, ..*old(self) }),
            reg == RegisterPair::SP ==> *final(self) == (Cpu { sp: val, ..*old(self) }),
            reg == RegisterPair::AF ==> *final(self) == (Cpu { a: final(self).a, f: final(self).f, ..*old(self) }),
    {
        match reg {
            RegisterPair::BC => {
                self.b = (val / 256) as u8;
                self.c = (val % 256) as u8;
            },
            RegisterPair::DE => {
                self.d = (val / 256) as u8;
                self.e = (val % 256) as u8;
            },
            RegisterPair::HL => {
                self.h = (val / 256) as u8;
                self.l = (val % 256) as u8;
            },
            RegisterPair::SP => {
                self.sp = val;
            },
            RegisterPair::AF => {
                self.a = (val / 256) as u8;
                self.f = (val % 256) as u8 & 0xF0;
            },
        }
    }

    /// One step of a running OAM DMA: copies one byte into object memory.
    pub fn handle_oam_dma(&mut self, bus: &mut CpuBus)
        requires
            old(bus).wf(),
        ensures
            old(bus).ppu.timing_kept(final(bus).ppu),
            final(bus).wf(),
            *final(self) == *old(self),
            old(bus).oam_dma.cycle is None ==> *final(bus) == *old(bus),
            old(bus).oam_dma.cycle matches Some(c) ==> final(bus).oam_dma == (OamDma {
                cycle: if c >= 0x9F {
                    None
                } else {
                    Some((c + 1) as u8)
                },
                source: old(bus).oam_dma.source,
            }),
    {
        let dma = bus.get_oam_dma();
        match dma.cycle {
            Some(c) => {
                let src = (dma.source as u16) * 256 + c as u16;
                let data = bus.read_without_dma_check(src, true);
                bus.write_without_dma_check(0xFE00 + c as u16, data, true);
                let next = if c >= 0x9F {
                    None
                } else {
                    Some(c + 1)
                };
                bus.set_oam_dma(OamDma { cycle: next, source: dma.source });
            },
            None => {},
        }
    }

    /// Runs the latched instruction. A taken condition adds its extra cycles.
    #[verifier::spinoff_prover]
    #[verifier::rlimit(100)]
    pub fn execute(&mut self, bus: &mut CpuBus)
        requires
            old(self).wf(),
            old(bus).wf(),
        ensures
            old(bus).ppu.timing_kept(final(bus).ppu),
            final(bus).wf(),
            final(self).cycles <= 10,
            final(self).cycles >= old(self).cycles,
            final(self).opcode_latch == old(self).opcode_latch,
            old(self).opcode_latch matches Opcode::JpCond(c) ==> final(self).cycles == old(self).cycles
                + if condition_holds(old(self).f, c) {
                1int
            } else {
                0int
            },
            old(self).opcode_latch matches Opcode::JpRelCond(c) ==> final(self).cycles
                == old(self).cycles + if condition_holds(old(self).f, c) {
                1int
            } else {
                0int
            },
            old(self).opcode_latch matches Opcode::CallCond(c) ==> final(self).cycles
                == old(self).cycles + if condition_holds(old(self).f, c) {
                3int
            } else {
                0int
            },
            old(self).opcode_latch matches Opcode::RetCond(c) ==> final(self).cycles
                == old(self).cycles + if condition_holds(old(self).f, c) {
                3int
            } else {
                0int
            },
            !(old(self).opcode_latch is JpCond || old(self).opcode_latch is JpRelCond
                || old(self).opcode_latch is CallCond || old(self).opcode_latch is RetCond
                || old(self).opcode_latch is CBPrefix) ==> final(self).cycles == old(self).cycles,
            old(self).opcode_latch matches Opcode::JpCond(c) ==> final(self).sp == old(self).sp && (
            if condition_holds(old(self).f, c) {
                (readable_word(old(bus), old(self).pc) matches Some(w) ==> final(self).pc == w)
            } else {
                final(self).pc == (old(self).pc + 2) % 0x10000
            }),
            old(self).opcode_latch matches Opcode::JpRelCond(c) ==> final(self).sp == old(self).sp
                && (if condition_holds(old(self).f, c) {
                (readable(old(bus), old(self).pc) matches Some(o) ==> final(self).pc == (old(self).pc
                    + 1 + sign_extend(o)) % 0x10000)
            } else {
                final(self).pc == (old(self).pc + 1) % 0x10000
            }),
            old(self).opcode_latch matches Opcode::CallCond(c) ==> if condition_holds(old(self).f, c) {
                &&& final(self).sp == (old(self).sp - 2) % 0x10000
                &&& (readable_word(old(bus), old(self).pc) matches Some(w) ==> final(self).pc == w)
            } else {
                final(self).sp == old(self).sp && final(self).pc == (old(self).pc + 2) % 0x10000
            },
            old(self).opcode_latch matches Opcode::RetCond(c) ==> if condition_holds(old(self).f, c) {
                &&& final(self).sp == (old(self).sp + 2) % 0x10000
                &&& (readable_word(old(bus), old(self).sp) matches Some(w) ==> final(self).pc == w)
            } else {
                final(self).sp == old(self).sp && final(self).pc == old(self).pc
            },
            old(self).opcode_latch == Opcode::Call ==> {
                &&& final(self).sp == (old(self).sp - 2) % 0x10000
                &&& (readable_word(old(bus), old(self).pc) matches Some(w) ==> final(self).pc == w)
                &&& (!old(bus).dma_active() && is_plain_memory((old(self).sp - 1) % 0x10000)
                    && is_plain_memory((old(self).sp - 2) % 0x10000) ==> {
                    &&& final(bus).bus_held_byte(((old(self).sp - 1) % 0x10000) as u16) == Some(
                        (((old(self).pc + 2) % 0x10000) / 256) as u8,
                    )
                    &&& final(bus).bus_held_byte(((old(self).sp - 2) % 0x10000) as u16) == Some(
                        (((old(self).pc + 2) % 0x10000) % 256) as u8,
                    )
                })
            },
            old(self).opcode_latch == Opcode::Ret ==> final(self).sp == (old(self).sp + 2) % 0x10000
                && (readable_word(old(bus), old(self).sp) matches Some(w) ==> final(self).pc == w),
            old(self).opcode_latch == Opcode::JpImm ==> (readable_word(old(bus), old(self).pc) matches Some(
                w,
            ) ==> final(self).pc == w),
            // Loads
            old(self).opcode_latch matches Opcode::LdRImm(t) ==> final(self).pc == (old(self).pc + 1) % 0x10000 && (
            readable(old(bus), old(self).pc) matches Some(v) ==> final(self).register_value(t) == v),
            old(self).opcode_latch matches Opcode::LdRMem(t, m) ==> ({
                let addr: Option<u16> = match m {
                    OpMemAddress16::Register(p) => Some(old(self).pair_value(p)),
                    OpMemAddress16::RegisterIncrease(p) => Some(old(self).pair_value(p)),
                    OpMemAddress16::RegisterDecrease(p) => Some(old(self).pair_value(p)),
                    OpMemAddress16::Immediate => readable_word(old(bus), old(self).pc),
                };
                addr matches Some(a) ==> (readable(old(bus), a) matches Some(v) ==> final(self).register_value(t)
                    == v)
            }),
            old(self).opcode_latch matches Opcode::LdRMem(t, m) ==> (t == Register::A ==> (m matches OpMemAddress16::RegisterIncrease(
                p,
            ) ==> (p != RegisterPair::AF ==> final(self).pair_value(p) == (old(self).pair_value(p) + 1)
                % 0x10000))),
            old(self).opcode_latch matches Opcode::LdRMem(t, m) ==> (t == Register::A ==> (m matches OpMemAddress16::RegisterDecrease(
                p,
            ) ==> (p != RegisterPair::AF ==> final(self).pair_value(p) == (old(self).pair_value(p) - 1)
                % 0x10000))),
            old(self).opcode_latch matches Opcode::LdMemR(m, src) ==> ((m is Register || m is Immediate || (
            src == Register::A && !(m matches OpMemAddress16::RegisterIncrease(RegisterPair::AF)) && !(
            m matches OpMemAddress16::RegisterDecrease(RegisterPair::AF)))) ==> {
                let addr: Option<u16> = match m {
                    OpMemAddress16::Register(p) => Some(old(self).pair_value(p)),
                    OpMemAddress16::RegisterIncrease(p) => Some(old(self).pair_value(p)),
                    OpMemAddress16::RegisterDecrease(p) => Some(old(self).pair_value(p)),
                    OpMemAddress16::Immediate => readable_word(old(bus), old(self).pc),
                };
                addr matches Some(a) ==> (!old(bus).dma_active() && is_plain_memory(a as int) ==> final(bus).bus_held_byte(a) == Some(old(self).register_value(src)))
            }),
            old(self).opcode_latch matches Opcode::LdMemImm(p) ==> (readable(old(bus), old(self).pc) matches Some(v) ==> (
            !old(bus).dma_active() && is_plain_memory(old(self).pair_value(p) as int) ==> final(bus).bus_held_byte(old(self).pair_value(p)) == Some(v))),
            old(self).opcode_latch matches Opcode::LdhRead(t, m) ==> ({
                let low: Option<u8> = match m {
                    OpMemAddress8::Register(r) => Some(old(self).register_value(r)),
                    OpMemAddress8::Immediate => readable(old(bus), old(self).pc),
                };
                low matches Some(l) ==> (readable(old(bus), (0xFF00 + l) as u16) matches Some(v)
                    ==> final(self).register_value(t) == v)
            }),
            old(self).opcode_latch matches Opcode::LdhWrite(m, src) ==> ({
                let low: Option<u8> = match m {
                    OpMemAddress8::Register(r) => Some(old(self).register_value(r)),
                    OpMemAddress8::Immediate => readable(old(bus), old(self).pc),
                };
                low matches Some(l) ==> (!old(bus).dma_active() && is_plain_memory(0xFF00 + l) ==> final(bus).bus_held_byte((0xFF00 + l) as u16) == Some(old(self).register_value(src)))
            }),
            old(self).opcode_latch matches Opcode::Ld16RImm(p) ==> final(self).pc == (old(self).pc + 2) % 0x10000 && (
            readable_word(old(bus), old(self).pc) matches Some(w) ==> (p != RegisterPair::AF ==> final(self).pair_value(p)
                == w)),
            old(self).opcode_latch == Opcode::Ld16SpHL ==> final(self).sp == old(self).pair_value(RegisterPair::HL),
            old(self).opcode_latch == Opcode::Ld16MemSp ==> final(self).pc == (old(self).pc + 2) % 0x10000,
            old(self).opcode_latch matches Opcode::Pop(p) ==> p != RegisterPair::SP ==> final(self).sp == (old(self).sp + 2) % 0x10000 && (
            readable_word(old(bus), old(self).sp) matches Some(w) ==> (p != RegisterPair::AF ==> final(self).pair_value(p)
                == w) && (p == RegisterPair::AF ==> final(self).a == w / 256 && final(self).f == (w % 256) as u8 & 0xF0)),
            // Arithmetic and logic
            old(self).opcode_latch matches Opcode::AluR(op, r) ==> final(self).a == alu_result(
                op,
                old(self).a,
                old(self).register_value(r),
                old(self).f & FLAG_C != 0,
            ),
            old(self).opcode_latch matches Opcode::AluImm(op) ==> (readable(old(bus), old(self).pc) matches Some(v)
                ==> final(self).a == alu_result(op, old(self).a, v, old(self).f & FLAG_C != 0)),
            old(self).opcode_latch matches Opcode::AluMem(op) ==> (readable(
                old(bus),
                old(self).pair_value(RegisterPair::HL),
            ) matches Some(v) ==> final(self).a == alu_result(op, old(self).a, v, old(self).f & FLAG_C != 0)),
            old(self).opcode_latch matches Opcode::IncR(r) ==> {
                &&& final(self).register_value(r) == (old(self).register_value(r) + 1) % 256
                &&& (final(self).f & FLAG_Z != 0) == (final(self).register_value(r) == 0)
                &&& final(self).f & FLAG_N == 0
                &&& (final(self).f & FLAG_H != 0) == (old(self).register_value(r) % 16 == 15)
            },
            old(self).opcode_latch matches Opcode::DecR(r) ==> {
                &&& final(self).register_value(r) == (old(self).register_value(r) - 1) % 256
                &&& (final(self).f & FLAG_Z != 0) == (final(self).register_value(r) == 0)
                &&& final(self).f & FLAG_N != 0
                &&& (final(self).f & FLAG_H != 0) == (old(self).register_value(r) % 16 == 0)
            },
            old(self).opcode_latch == Opcode::IncMem ==> (readable(old(bus), old(self).pair_value(RegisterPair::HL)) matches Some(
                v,
            ) ==> (!old(bus).dma_active() && is_plain_memory(old(self).pair_value(RegisterPair::HL) as int)
                ==> final(bus).bus_held_byte(old(self).pair_value(RegisterPair::HL)) == Some(
                ((v + 1) % 256) as u8,
            ))),
            old(self).opcode_latch == Opcode::DecMem ==> (readable(old(bus), old(self).pair_value(RegisterPair::HL)) matches Some(
                v,
            ) ==> (!old(bus).dma_active() && is_plain_memory(old(self).pair_value(RegisterPair::HL) as int)
                ==> final(bus).bus_held_byte(old(self).pair_value(RegisterPair::HL)) == Some(
                ((v - 1) % 256) as u8,
            ))),
            old(self).opcode_latch == Opcode::Daa ==> (final(self).f & FLAG_Z != 0) == (final(self).a == 0) && final(self).f & FLAG_H
                == 0,
            old(self).opcode_latch == Opcode::Cpl ==> final(self).a == old(self).a ^ 0xFF && final(self).f & FLAG_N != 0 && final(self).f
                & FLAG_H != 0,
            old(self).opcode_latch matches Opcode::Add16HL(p) ==> {
                &&& final(self).pair_value(RegisterPair::HL) == (old(self).pair_value(RegisterPair::HL)
                    + old(self).pair_value(p)) % 0x10000
                &&& (final(self).f & FLAG_C != 0) == (old(self).pair_value(RegisterPair::HL) + old(self).pair_value(p)
                    > 0xFFFF)
                &&& final(self).f & FLAG_N == 0
            },
            old(self).opcode_latch == Opcode::Add16SPSigned ==> (readable(old(bus), old(self).pc) matches Some(o)
                ==> final(self).sp == (old(self).sp + sign_extend(o)) % 0x10000),
            old(self).opcode_latch == Opcode::Ld16HLSPSigned ==> (readable(old(bus), old(self).pc) matches Some(o)
                ==> final(self).pair_value(RegisterPair::HL) == (old(self).sp + sign_extend(o)) % 0x10000),
            old(self).opcode_latch matches Opcode::Inc16R(p) ==> (p != RegisterPair::AF ==> final(self).pair_value(p)
                == (old(self).pair_value(p) + 1) % 0x10000),
            old(self).opcode_latch matches Opcode::Dec16R(p) ==> (p != RegisterPair::AF ==> final(self).pair_value(p)
                == (old(self).pair_value(p) - 1) % 0x10000),
            // Rotates of A
            old(self).opcode_latch == Opcode::RlcA ==> final(self).a == rot_value(Rot::Rlc, old(self).a, old(self).f & FLAG_C != 0)
                && final(self).f & FLAG_Z == 0,
            old(self).opcode_latch == Opcode::RlA ==> final(self).a == rot_value(Rot::Rl, old(self).a, old(self).f & FLAG_C != 0)
                && final(self).f & FLAG_Z == 0,
            old(self).opcode_latch == Opcode::RrcA ==> final(self).a == rot_value(Rot::Rrc, old(self).a, old(self).f & FLAG_C != 0)
                && final(self).f & FLAG_Z == 0,
            old(self).opcode_latch == Opcode::RrA ==> final(self).a == rot_value(Rot::Rr, old(self).a, old(self).f & FLAG_C != 0)
                && final(self).f & FLAG_Z == 0,
            // Control flow and control
            old(self).opcode_latch == Opcode::JpRel ==> (readable(old(bus), old(self).pc) matches Some(o) ==> final(self).pc == (
            old(self).pc + 1 + sign_extend(o)) % 0x10000),
            old(self).opcode_latch == Opcode::Reti ==> final(self).interrupt_master_enable && final(self).sp == (old(self).sp + 2)
                % 0x10000 && (readable_word(old(bus), old(self).sp) matches Some(w) ==> final(self).pc == w),
            old(self).opcode_latch == Opcode::Ccf ==> (final(self).f & FLAG_C != 0) == (old(self).f & FLAG_C == 0),
            old(self).opcode_latch == Opcode::Stop ==> final(bus).timer_registers
                == old(bus).timer_registers.with_div(0),
            old(self).opcode_latch == Opcode::CBPrefix ==> final(self).pc == (old(self).pc + 1) % 0x10000 && (readable(
                old(bus),
                old(self).pc,
            ) matches Some(b) ==> final(self).cycles == old(self).cycles + cb_cycles(decode_cb(b))),
            old(self).opcode_latch == Opcode::Nop ==> *final(self) == *old(self),
            old(self).opcode_latch is Unknown || old(self).opcode_latch == Opcode::Nop
                ==> *final(bus) == *old(bus) && *final(self) == *old(self),
            old(self).opcode_latch matches Opcode::LdRR(t, s) ==> final(self).register_value(t)
                == old(self).register_value(s),
            old(self).opcode_latch == Opcode::JpHL ==> final(self).pc == old(self).pair_value(
                RegisterPair::HL,
            ),
            old(self).opcode_latch matches Opcode::Rst(a) ==> final(self).pc == a as u16,
            old(self).opcode_latch is Push ==> final(self).sp == (old(self).sp - 2) % 0x10000,
            old(self).opcode_latch == Opcode::Halt ==> final(self).halted
                || final(self).halt_bug_active,
            old(self).opcode_latch == Opcode::Scf ==> final(self).f & FLAG_C != 0,
            old(self).opcode_latch == Opcode::Di ==> !final(self).interrupt_master_enable,
            old(self).opcode_latch == Opcode::Ei ==> final(self).ime_pending == Some(true),
    {
        proof {
            lemma_flag_constants();
        }
        match self.opcode_latch {
            Opcode::Unknown | Opcode::Nop => {},
            Opcode::CBPrefix => {
                self.run_cb(bus);
            },
            Opcode::LdRR(..) | Opcode::LdRImm(..) | Opcode::LdRMem(..) | Opcode::LdMemR(..) | Opcode::LdMemImm(..) | Opcode::LdhRead(..) | Opcode::LdhWrite(..) => {
                self.execute_load8(bus);
            },
            Opcode::Ld16RImm(..) | Opcode::Ld16MemSp | Opcode::Ld16SpHL | Opcode::Push(..) | Opcode::Pop(..) => {
                self.execute_load16(bus);
            },
            Opcode::AluR(..) | Opcode::AluImm(..) | Opcode::AluMem(..) | Opcode::IncR(..) | Opcode::IncMem | Opcode::DecR(..) | Opcode::DecMem | Opcode::Daa | Opcode::Cpl => {
                self.execute_alu8(bus);
            },
            Opcode::Add16HL(..) | Opcode::Add16SPSigned | Opcode::Inc16R(..) | Opcode::Dec16R(..) | Opcode::Ld16HLSPSigned | Opcode::RlcA | Opcode::RlA | Opcode::RrcA | Opcode::RrA | Opcode::Ccf | Opcode::Scf => {
                self.execute_misc(bus);
            },
            Opcode::JpImm | Opcode::JpHL | Opcode::JpCond(..) | Opcode::JpRel | Opcode::JpRelCond(..) | Opcode::Call | Opcode::CallCond(..) | Opcode::Ret | Opcode::RetCond(..) | Opcode::Reti | Opcode::Rst(..) | Opcode::Halt | Opcode::Stop | Opcode::Di | Opcode::Ei => {
                self.execute_control(bus);
            },
        }
    }

    /// Runs a latched 8-bit load or store.
    #[verifier::spinoff_prover]
    #[verifier::rlimit(100)]
    pub fn execute_load8(&mut self, bus: &mut CpuBus)
        requires
            old(self).wf(),
            old(bus).wf(),
            old(self).opcode_latch is LdRR || old(self).opcode_latch is LdRImm || old(self).opcode_latch is LdRMem || old(self).opcode_latch is LdMemR || old(self).opcode_latch is LdMemImm || old(self).opcode_latch is LdhRead || old(self).opcode_latch is LdhWrite,
        ensures
            old(bus).ppu.timing_kept(final(bus).ppu),
            final(bus).wf(),
            final(self).cycles <= 10,
            final(self).cycles >= old(self).cycles,
            final(self).opcode_latch == old(self).opcode_latch,
            !(old(self).opcode_latch is JpCond || old(self).opcode_latch is JpRelCond
                || old(self).opcode_latch is CallCond || old(self).opcode_latch is RetCond
                || old(self).opcode_latch is CBPrefix) ==> final(self).cycles == old(self).cycles,
            old(self).opcode_latch matches Opcode::LdRImm(t) ==> final(self).pc == (old(self).pc + 1) % 0x10000 && (
            readable(old(bus), old(self).pc) matches Some(v) ==> final(self).register_value(t) == v),
            old(self).opcode_latch matches Opcode::LdRMem(t, m) ==> ({
                let addr: Option<u16> = match m {
                    OpMemAddress16::Register(p) => Some(old(self).pair_value(p)),
                    OpMemAddress16::RegisterIncrease(p) => Some(old(self).pair_value(p)),
                    OpMemAddress16::RegisterDecrease(p) => Some(old(self).pair_value(p)),
                    OpMemAddress16::Immediate => readable_word(old(bus), old(self).pc),
                };
                addr matches Some(a) ==> (readable(old(bus), a) matches Some(v) ==> final(self).register_value(t)
                    == v)
            }),
            old(self).opcode_latch matches Opcode::LdRMem(t, m) ==> (t == Register::A ==> (m matches OpMemAddress16::RegisterIncrease(
                p,
            ) ==> (p != RegisterPair::AF ==> final(self).pair_value(p) == (old(self).pair_value(p) + 1)
                % 0x10000))),
            old(self).opcode_latch matches Opcode::LdRMem(t, m) ==> (t == Register::A ==> (m matches OpMemAddress16::RegisterDecrease(
                p,
            ) ==> (p != RegisterPair::AF ==> final(self).pair_value(p) == (old(self).pair_value(p) - 1)
                % 0x10000))),
            old(self).opcode_latch matches Opcode::LdMemR(m, src) ==> ((m is Register || m is Immediate || (
            src == Register::A && !(m matches OpMemAddress16::RegisterIncrease(RegisterPair::AF)) && !(
            m matches OpMemAddress16::RegisterDecrease(RegisterPair::AF)))) ==> {
                let addr: Option<u16> = match m {
                    OpMemAddress16::Register(p) => Some(old(self).pair_value(p)),
                    OpMemAddress16::RegisterIncrease(p) => Some(old(self).pair_value(p)),
                    OpMemAddress16::RegisterDecrease(p) => Some(old(self).pair_value(p)),
                    OpMemAddress16::Immediate => readable_word(old(bus), old(self).pc),
                };
                addr matches Some(a) ==> (!old(bus).dma_active() && is_plain_memory(a as int) ==> final(bus).bus_held_byte(a) == Some(old(self).register_value(src)))
            }),
            old(self).opcode_latch matches Opcode::LdMemImm(p) ==> (readable(old(bus), old(self).pc) matches Some(v) ==> (
            !old(bus).dma_active() && is_plain_memory(old(self).pair_value(p) as int) ==> final(bus).bus_held_byte(old(self).pair_value(p)) == Some(v))),
            old(self).opcode_latch matches Opcode::LdhRead(t, m) ==> ({
                let low: Option<u8> = match m {
                    OpMemAddress8::Register(r) => Some(old(self).register_value(r)),
                    OpMemAddress8::Immediate => readable(old(bus), old(self).pc),
                };
                low matches Some(l) ==> (readable(old(bus), (0xFF00 + l) as u16) matches Some(v)
                    ==> final(self).register_value(t) == v)
            }),
            old(self).opcode_latch matches Opcode::LdhWrite(m, src) ==> ({
                let low: Option<u8> = match m {
                    OpMemAddress8::Register(r) => Some(old(self).register_value(r)),
                    OpMemAddress8::Immediate => readable(old(bus), old(self).pc),
                };
                low matches Some(l) ==> (!old(bus).dma_active() && is_plain_memory(0xFF00 + l) ==> final(bus).bus_held_byte((0xFF00 + l) as u16) == Some(old(self).register_value(src)))
            }),
            old(self).opcode_latch matches Opcode::LdRR(t, s) ==> final(self).register_value(t)
                == old(self).register_value(s),
    {
        proof {
            lemma_flag_constants();
        }
        match self.opcode_latch {
            Opcode::LdRR(target, source) => {
                let v = self.get_register(source);
                self.set_register(target, v);
            },
            Opcode::LdRImm(target) => {
                let immediate = self.read_immediate(bus);
                self.set_register(target, immediate);
            },
            Opcode::LdRMem(target, source) => {
                let val = match source {
                    OpMemAddress16::Register(pair) => {
                        let addr = self.get_register_pair(pair);
                        bus.read(addr)
                    },
                    OpMemAddress16::RegisterIncrease(pair) => {
                        let reg = self.get_register_pair(pair);
                        self.set_register_pair(pair, reg.wrapping_add(1));
                        bus.read(reg)
                    },
                    OpMemAddress16::RegisterDecrease(pair) => {
                        let reg = self.get_register_pair(pair);
                        self.set_register_pair(pair, reg.wrapping_sub(1));
                        bus.read(reg)
                    },
                    OpMemAddress16::Immediate => {
                        let addr = self.read_immediate16(bus);
                        bus.read(addr)
                    },
                };
                self.set_register(target, val);
            },
            Opcode::LdMemR(target, source) => {
                let addr = match target {
                    OpMemAddress16::Register(pair) => self.get_register_pair(pair),
                    OpMemAddress16::RegisterIncrease(pair) => {
                        let reg = self.get_register_pair(pair);
                        self.set_register_pair(pair, reg.wrapping_add(1));
                        reg
                    },
                    OpMemAddress16::RegisterDecrease(pair) => {
                        let reg = self.get_register_pair(pair);
                        self.set_register_pair(pair, reg.wrapping_sub(1));
                        reg
                    },
                    OpMemAddress16::Immediate => self.read_immediate16(bus),
                };
                let v = self.get_register(source);
                bus.write(addr, v);
            },
            Opcode::LdMemImm(target) => {
                let immediate = self.read_immediate(bus);
                let addr = self.get_register_pair(target);
                bus.write(addr, immediate);
            },
            Opcode::LdhRead(target, source) => {
                let low = match source {
                    OpMemAddress8::Register(r) => self.get_register(r),
                    OpMemAddress8::Immediate => self.read_immediate(bus),
                };
                let v = bus.read(0xFF00 + low as u16);
                self.set_register(target, v);
            },
            Opcode::LdhWrite(target, source) => {
                let low = match target {
                    OpMemAddress8::Register(r) => self.get_register(r),
                    OpMemAddress8::Immediate => self.read_immediate(bus),
                };
                let v = self.get_register(source);
                bus.write(0xFF00 + low as u16, v);
            },
            _ => {},
        }
    }
    /// Runs a latched 16-bit load or stack transfer.
    #[verifier::spinoff_prover]
    #[verifier::rlimit(100)]
    pub fn execute_load16(&mut self, bus: &mut CpuBus)
        requires
            old(self).wf(),
            old(bus).wf(),
            old(self).opcode_latch is Ld16RImm || old(self).opcode_latch is Ld16MemSp || old(self).opcode_latch is Ld16SpHL || old(self).opcode_latch is Push || old(self).opcode_latch is Pop,
        ensures
            old(bus).ppu.timing_kept(final(bus).ppu),
            final(bus).wf(),
            final(self).cycles <= 10,
            final(self).cycles >= old(self).cycles,
            final(self).opcode_latch == old(self).opcode_latch,
            !(old(self).opcode_latch is JpCond || old(self).opcode_latch is JpRelCond
                || old(self).opcode_latch is CallCond || old(self).opcode_latch is RetCond
                || old(self).opcode_latch is CBPrefix) ==> final(self).cycles == old(self).cycles,
            old(self).opcode_latch matches Opcode::Ld16RImm(p) ==> final(self).pc == (old(self).pc + 2) % 0x10000 && (
            readable_word(old(bus), old(self).pc) matches Some(w) ==> (p != RegisterPair::AF ==> final(self).pair_value(p)
                == w)),
            old(self).opcode_latch == Opcode::Ld16SpHL ==> final(self).sp == old(self).pair_value(RegisterPair::HL),
            old(self).opcode_latch == Opcode::Ld16MemSp ==> final(self).pc == (old(self).pc + 2) % 0x10000,
            old(self).opcode_latch matches Opcode::Pop(p) ==> p != RegisterPair::SP ==> final(self).sp == (old(self).sp + 2) % 0x10000 && (
            readable_word(old(bus), old(self).sp) matches Some(w) ==> (p != RegisterPair::AF ==> final(self).pair_value(p)
                == w) && (p == RegisterPair::AF ==> final(self).a == w / 256 && final(self).f == (w % 256) as u8 & 0xF0)),
            old(self).opcode_latch is Push ==> final(self).sp == (old(self).sp - 2) % 0x10000,
    {
        proof {
            lemma_flag_constants();
        }
        match self.opcode_latch {
            Opcode::Ld16RImm(target) => {
                let immediate = self.read_immediate16(bus);
                self.set_register_pair(target, immediate);
            },
            Opcode::Ld16MemSp => {
                let addr = self.read_immediate16(bus);
                bus.write(addr, (self.sp % 256) as u8);
                bus.write(addr.wrapping_add(1), (self.sp / 256) as u8);
            },
            Opcode::Ld16SpHL => {
                self.sp = self.get_register_pair(RegisterPair::HL);
            },
            Opcode::Push(source) => {
                let v = self.get_register_pair(source);
                self.push_stack(bus, v);
            },
            Opcode::Pop(target) => {
                let val = self.pop_stack(bus);
                self.set_register_pair(target, val);
            },
            _ => {},
        }
    }

    /// Runs a latched 8-bit arithmetic or logic instruction.
    #[verifier::spinoff_prover]
    #[verifier::rlimit(100)]
    pub fn execute_alu8(&mut self, bus: &mut CpuBus)
        requires
            old(self).wf(),
            old(bus).wf(),
            old(self).opcode_latch is AluR || old(self).opcode_latch is AluImm || old(self).opcode_latch is AluMem || old(self).opcode_latch is IncR || old(self).opcode_latch is IncMem || old(self).opcode_latch is DecR || old(self).opcode_latch is DecMem || old(self).opcode_latch is Daa || old(self).opcode_latch is Cpl,
        ensures
            old(bus).ppu.timing_kept(final(bus).ppu),
            final(bus).wf(),
            final(self).cycles <= 10,
            final(self).cycles >= old(self).cycles,
            final(self).opcode_latch == old(self).opcode_latch,
            !(old(self).opcode_latch is JpCond || old(self).opcode_latch is JpRelCond
                || old(self).opcode_latch is CallCond || old(self).opcode_latch is RetCond
                || old(self).opcode_latch is CBPrefix) ==> final(self).cycles == old(self).cycles,
            old(self).opcode_latch matches Opcode::AluR(op, r) ==> final(self).a == alu_result(
                op,
                old(self).a,
                old(self).register_value(r),
                old(self).f & FLAG_C != 0,
            ),
            old(self).opcode_latch matches Opcode::AluImm(op) ==> (readable(old(bus), old(self).pc) matches Some(v)
                ==> final(self).a == alu_result(op, old(self).a, v, old(self).f & FLAG_C != 0)),
            old(self).opcode_latch matches Opcode::AluMem(op) ==> (readable(
                old(bus),
                old(self).pair_value(RegisterPair::HL),
            ) matches Some(v) ==> final(self).a == alu_result(op, old(self).a, v, old(self).f & FLAG_C != 0)),
            old(self).opcode_latch matches Opcode::IncR(r) ==> {
                &&& final(self).register_value(r) == (old(self).register_value(r) + 1) % 256
                &&& (final(self).f & FLAG_Z != 0) == (final(self).register_value(r) == 0)
                &&& final(self).f & FLAG_N == 0
                &&& (final(self).f & FLAG_H != 0) == (old(self).register_value(r) % 16 == 15)
            },
            old(self).opcode_latch matches Opcode::DecR(r) ==> {
                &&& final(self).register_value(r) == (old(self).register_value(r) - 1) % 256
                &&& (final(self).f & FLAG_Z != 0) == (final(self).register_value(r) == 0)
                &&& final(self).f & FLAG_N != 0
                &&& (final(self).f & FLAG_H != 0) == (old(self).register_value(r) % 16 == 0)
            },
            old(self).opcode_latch == Opcode::IncMem ==> (readable(old(bus), old(self).pair_value(RegisterPair::HL)) matches Some(
                v,
            ) ==> (!old(bus).dma_active() && is_plain_memory(old(self).pair_value(RegisterPair::HL) as int)
                ==> final(bus).bus_held_byte(old(self).pair_value(RegisterPair::HL)) == Some(
                ((v + 1) % 256) as u8,
            ))),
            old(self).opcode_latch == Opcode::DecMem ==> (readable(old(bus), old(self).pair_value(RegisterPair::HL)) matches Some(
                v,
            ) ==> (!old(bus).dma_active() && is_plain_memory(old(self).pair_value(RegisterPair::HL) as int)
                ==> final(bus).bus_held_byte(old(self).pair_value(RegisterPair::HL)) == Some(
                ((v - 1) % 256) as u8,
            ))),
            old(self).opcode_latch == Opcode::Daa ==> (final(self).f & FLAG_Z != 0) == (final(self).a == 0) && final(self).f & FLAG_H
                == 0,
            old(self).opcode_latch == Opcode::Cpl ==> final(self).a == old(self).a ^ 0xFF && final(self).f & FLAG_N != 0 && final(self).f
                & FLAG_H != 0,
    {
        proof {
            lemma_flag_constants();
        }
        match self.opcode_latch {
            Opcode::AluR(alu_op, source) => {
                let val = self.get_register(source);
                self.run_alu(alu_op, val);
            },
            Opcode::AluImm(alu_op) => {
                let val = self.read_immediate(bus);
                self.run_alu(alu_op, val);
            },
            Opcode::AluMem(alu_op) => {
                let addr = self.get_register_pair(RegisterPair::HL);
                let val = bus.read(addr);
                self.run_alu(alu_op, val);
            },
            Opcode::IncR(source) => {
                let val = self.get_register(source);
                let result = val.wrapping_add(1);
                self.write_flags(result == 0, false, val % 16 == 15, self.f & FLAG_C != 0);
                self.set_register(source, result);
            },
            Opcode::IncMem => {
                let addr = self.get_register_pair(RegisterPair::HL);
                let val = bus.read(addr);
                let result = val.wrapping_add(1);
                self.write_flags(result == 0, false, val % 16 == 15, self.f & FLAG_C != 0);
                bus.write(addr, result);
            },
            Opcode::DecR(source) => {
                let val = self.get_register(source);
                let result = val.wrapping_sub(1);
                self.write_flags(result == 0, true, val % 16 == 0, self.f & FLAG_C != 0);
                self.set_register(source, result);
            },
            Opcode::DecMem => {
                let addr = self.get_register_pair(RegisterPair::HL);
                let val = bus.read(addr);
                let result = val.wrapping_sub(1);
                self.write_flags(result == 0, true, val % 16 == 0, self.f & FLAG_C != 0);
                bus.write(addr, result);
            },
            Opcode::Daa => {
                let mut adjustment: u8 = if self.f & FLAG_C != 0 {
                    0x60
                } else {
                    0
                };
                if self.f & FLAG_H != 0 {
                    adjustment = adjustment | 0x06;
                }
                if self.f & FLAG_N == 0 {
                    if self.a % 16 > 0x09 {
                        adjustment = adjustment | 0x06;
                    }
                    if self.a > 0x99 {
                        adjustment = adjustment | 0x60;
                    }
                    self.a = self.a.wrapping_add(adjustment);
                } else {
                    self.a = self.a.wrapping_sub(adjustment);
                }
                let z = self.a == 0;
                self.write_flags(z, self.f & FLAG_N != 0, false, adjustment >= 0x60);
            },
            Opcode::Cpl => {
                self.a = self.a ^ 0xFF;
                self.write_flags(self.f & FLAG_Z != 0, true, true, self.f & FLAG_C != 0);
            },
            _ => {},
        }
    }
    /// Runs a latched 16-bit arithmetic, A-rotate or carry-flag instruction.
    #[verifier::spinoff_prover]
    #[verifier::rlimit(100)]
    pub fn execute_misc(&mut self, bus: &mut CpuBus)
        requires
            old(self).wf(),
            old(bus).wf(),
            old(self).opcode_latch is Add16HL || old(self).opcode_latch is Add16SPSigned || old(self).opcode_latch is Inc16R || old(self).opcode_latch is Dec16R || old(self).opcode_latch is Ld16HLSPSigned || old(self).opcode_latch is RlcA || old(self).opcode_latch is RlA || old(self).opcode_latch is RrcA || old(self).opcode_latch is RrA || old(self).opcode_latch is Ccf || old(self).opcode_latch is Scf,
        ensures
            old(bus).ppu.timing_kept(final(bus).ppu),
            final(bus).wf(),
            final(self).cycles <= 10,
            final(self).cycles >= old(self).cycles,
            final(self).opcode_latch == old(self).opcode_latch,
            !(old(self).opcode_latch is JpCond || old(self).opcode_latch is JpRelCond
                || old(self).opcode_latch is CallCond || old(self).opcode_latch is RetCond
                || old(self).opcode_latch is CBPrefix) ==> final(self).cycles == old(self).cycles,
            old(self).opcode_latch matches Opcode::Add16HL(p) ==> {
                &&& final(self).pair_value(RegisterPair::HL) == (old(self).pair_value(RegisterPair::HL)
                    + old(self).pair_value(p)) % 0x10000
                &&& (final(self).f & FLAG_C != 0) == (old(self).pair_value(RegisterPair::HL) + old(self).pair_value(p)
                    > 0xFFFF)
                &&& final(self).f & FLAG_N == 0
            },
            old(self).opcode_latch == Opcode::Add16SPSigned ==> (readable(old(bus), old(self).pc) matches Some(o)
                ==> final(self).sp == (old(self).sp + sign_extend(o)) % 0x10000),
            old(self).opcode_latch == Opcode::Ld16HLSPSigned ==> (readable(old(bus), old(self).pc) matches Some(o)
                ==> final(self).pair_value(RegisterPair::HL) == (old(self).sp + sign_extend(o)) % 0x10000),
            old(self).opcode_latch matches Opcode::Inc16R(p) ==> (p != RegisterPair::AF ==> final(self).pair_value(p)
                == (old(self).pair_value(p) + 1) % 0x10000),
            old(self).opcode_latch matches Opcode::Dec16R(p) ==> (p != RegisterPair::AF ==> final(self).pair_value(p)
                == (old(self).pair_value(p) - 1) % 0x10000),
            old(self).opcode_latch == Opcode::RlcA ==> final(self).a == rot_value(Rot::Rlc, old(self).a, old(self).f & FLAG_C != 0)
                && final(self).f & FLAG_Z == 0,
            old(self).opcode_latch == Opcode::RlA ==> final(self).a == rot_value(Rot::Rl, old(self).a, old(self).f & FLAG_C != 0)
                && final(self).f & FLAG_Z == 0,
            old(self).opcode_latch == Opcode::RrcA ==> final(self).a == rot_value(Rot::Rrc, old(self).a, old(self).f & FLAG_C != 0)
                && final(self).f & FLAG_Z == 0,
            old(self).opcode_latch == Opcode::RrA ==> final(self).a == rot_value(Rot::Rr, old(self).a, old(self).f & FLAG_C != 0)
                && final(self).f & FLAG_Z == 0,
            old(self).opcode_latch == Opcode::Ccf ==> (final(self).f & FLAG_C != 0) == (old(self).f & FLAG_C == 0),
            old(self).opcode_latch == Opcode::Scf ==> final(self).f & FLAG_C != 0,
    {
        proof {
            lemma_flag_constants();
        }
        match self.opcode_latch {
            Opcode::Add16HL(source) => {
                let val = self.get_register_pair(RegisterPair::HL);
                let src = self.get_register_pair(source);
                let carry = val as u32 + src as u32 > 0xFFFF;
                let half_carry = val % 0x1000 + src % 0x1000 > 0x0FFF;
                self.set_register_pair(RegisterPair::HL, val.wrapping_add(src));
                self.write_flags(self.f & FLAG_Z != 0, false, half_carry, carry);
            },
            Opcode::Add16SPSigned => {
                let raw = self.read_immediate(bus);
                let immediate: u16 = if raw >= 0x80 {
                    0xFF00 + raw as u16
                } else {
                    raw as u16
                };
                let carry = self.sp % 256 + immediate % 256 > 0xFF;
                let half_carry = self.sp % 16 + immediate % 16 > 0x0F;
                self.sp = self.sp.wrapping_add(immediate);
                self.write_flags(false, false, half_carry, carry);
            },
            Opcode::Inc16R(source) => {
                let v = self.get_register_pair(source);
                self.set_register_pair(source, v.wrapping_add(1));
            },
            Opcode::Dec16R(source) => {
                let v = self.get_register_pair(source);
                self.set_register_pair(source, v.wrapping_sub(1));
            },
            Opcode::Ld16HLSPSigned => {
                let raw = self.read_immediate(bus);
                let immediate: u16 = if raw >= 0x80 {
                    0xFF00 + raw as u16
                } else {
                    raw as u16
                };
                let carry = self.sp % 256 + immediate % 256 > 0xFF;
                let half_carry = self.sp % 16 + immediate % 16 > 0x0F;
                let v = self.sp.wrapping_add(immediate);
                self.set_register_pair(RegisterPair::HL, v);
                self.write_flags(false, false, half_carry, carry);
            },
            Opcode::RlcA => {
                let val = self.a;
                self.a = self.run_rot(Rot::Rlc, val, true);
            },
            Opcode::RlA => {
                let val = self.a;
                self.a = self.run_rot(Rot::Rl, val, true);
            },
            Opcode::RrcA => {
                let val = self.a;
                self.a = self.run_rot(Rot::Rrc, val, true);
            },
            Opcode::RrA => {
                let val = self.a;
                self.a = self.run_rot(Rot::Rr, val, true);
            },
            Opcode::Ccf => {
                let carry = self.f & FLAG_C == 0;
                self.write_flags(self.f & FLAG_Z != 0, false, false, carry);
            },
            Opcode::Scf => {
                self.write_flags(self.f & FLAG_Z != 0, false, false, true);
            },
            _ => {},
        }
    }

    /// Runs a latched jump, call, return or processor-control instruction.
    #[verifier::spinoff_prover]
    #[verifier::rlimit(100)]
    pub fn execute_control(&mut self, bus: &mut CpuBus)
        requires
            old(self).wf(),
            old(bus).wf(),
            old(self).opcode_latch is Call || old(self).opcode_latch is CallCond || old(self).opcode_latch is Di || old(self).opcode_latch is Ei || old(self).opcode_latch is Halt || old(self).opcode_latch is JpCond || old(self).opcode_latch is JpHL || old(self).opcode_latch is JpImm || old(self).opcode_latch is JpRel || old(self).opcode_latch is JpRelCond || old(self).opcode_latch is Ret || old(self).opcode_latch is RetCond || old(self).opcode_latch is Reti || old(self).opcode_latch is Rst || old(self).opcode_latch is Stop,
        ensures
            old(bus).ppu.timing_kept(final(bus).ppu),
            final(bus).wf(),
            final(self).cycles <= 10,
            final(self).cycles >= old(self).cycles,
            final(self).opcode_latch == old(self).opcode_latch,
            old(self).opcode_latch matches Opcode::JpCond(c) ==> final(self).cycles == old(self).cycles
                + if condition_holds(old(self).f, c) {
                1int
            } else {
                0int
            },
            old(self).opcode_latch matches Opcode::JpRelCond(c) ==> final(self).cycles
                == old(self).cycles + if condition_holds(old(self).f, c) {
                1int
            } else {
                0int
            },
            old(self).opcode_latch matches Opcode::CallCond(c) ==> final(self).cycles
                == old(self).cycles + if condition_holds(old(self).f, c) {
                3int
            } else {
                0int
            },
            old(self).opcode_latch matches Opcode::RetCond(c) ==> final(self).cycles
                == old(self).cycles + if condition_holds(old(self).f, c) {
                3int
            } else {
                0int
            },
            !(old(self).opcode_latch is JpCond || old(self).opcode_latch is JpRelCond
                || old(self).opcode_latch is CallCond || old(self).opcode_latch is RetCond
                || old(self).opcode_latch is CBPrefix) ==> final(self).cycles == old(self).cycles,
            old(self).opcode_latch matches Opcode::JpCond(c) ==> final(self).sp == old(self).sp && (
            if condition_holds(old(self).f, c) {
                (readable_word(old(bus), old(self).pc) matches Some(w) ==> final(self).pc == w)
            } else {
                final(self).pc == (old(self).pc + 2) % 0x10000
            }),
            old(self).opcode_latch matches Opcode::JpRelCond(c) ==> final(self).sp == old(self).sp
                && (if condition_holds(old(self).f, c) {
                (readable(old(bus), old(self).pc) matches Some(o) ==> final(self).pc == (old(self).pc
                    + 1 + sign_extend(o)) % 0x10000)
            } else {
                final(self).pc == (old(self).pc + 1) % 0x10000
            }),
            old(self).opcode_latch matches Opcode::CallCond(c) ==> if condition_holds(old(self).f, c) {
                &&& final(self).sp == (old(self).sp - 2) % 0x10000
                &&& (readable_word(old(bus), old(self).pc) matches Some(w) ==> final(self).pc == w)
            } else {
                final(self).sp == old(self).sp && final(self).pc == (old(self).pc + 2) % 0x10000
            },
            old(self).opcode_latch matches Opcode::RetCond(c) ==> if condition_holds(old(self).f, c) {
                &&& final(self).sp == (old(self).sp + 2) % 0x10000
                &&& (readable_word(old(bus), old(self).sp) matches Some(w) ==> final(self).pc == w)
            } else {
                final(self).sp == old(self).sp && final(self).pc == old(self).pc
            },
            old(self).opcode_latch == Opcode::Call ==> {
                &&& final(self).sp == (old(self).sp - 2) % 0x10000
                &&& (readable_word(old(bus), old(self).pc) matches Some(w) ==> final(self).pc == w)
                &&& (!old(bus).dma_active() && is_plain_memory((old(self).sp - 1) % 0x10000)
                    && is_plain_memory((old(self).sp - 2) % 0x10000) ==> {
                    &&& final(bus).bus_held_byte(((old(self).sp - 1) % 0x10000) as u16) == Some(
                        (((old(self).pc + 2) % 0x10000) / 256) as u8,
                    )
                    &&& final(bus).bus_held_byte(((old(self).sp - 2) % 0x10000) as u16) == Some(
                        (((old(self).pc + 2) % 0x10000) % 256) as u8,
                    )
                })
            },
            old(self).opcode_latch == Opcode::Ret ==> final(self).sp == (old(self).sp + 2) % 0x10000
                && (readable_word(old(bus), old(self).sp) matches Some(w) ==> final(self).pc == w),
            old(self).opcode_latch == Opcode::JpImm ==> (readable_word(old(bus), old(self).pc) matches Some(
                w,
            ) ==> final(self).pc == w),
            old(self).opcode_latch == Opcode::JpRel ==> (readable(old(bus), old(self).pc) matches Some(o) ==> final(self).pc == (
            old(self).pc + 1 + sign_extend(o)) % 0x10000),
            old(self).opcode_latch == Opcode::Reti ==> final(self).interrupt_master_enable && final(self).sp == (old(self).sp + 2)
                % 0x10000 && (readable_word(old(bus), old(self).sp) matches Some(w) ==> final(self).pc == w),
            old(self).opcode_latch == Opcode::Stop ==> final(bus).timer_registers
                == old(bus).timer_registers.with_div(0),
            old(self).opcode_latch == Opcode::JpHL ==> final(self).pc == old(self).pair_value(
                RegisterPair::HL,
            ),
            old(self).opcode_latch matches Opcode::Rst(a) ==> final(self).pc == a as u16,
            old(self).opcode_latch == Opcode::Halt ==> final(self).halted
                || final(self).halt_bug_active,
            old(self).opcode_latch == Opcode::Di ==> !final(self).interrupt_master_enable,
            old(self).opcode_latch == Opcode::Ei ==> final(self).ime_pending == Some(true),
    {
        proof {
            lemma_flag_constants();
        }
        match self.opcode_latch {
            Opcode::JpImm => {
                self.pc = self.read_immediate16(bus);
            },
            Opcode::JpHL => {
                self.pc = self.get_register_pair(RegisterPair::HL);
            },
            Opcode::JpCond(condition) => {
                let addr = self.read_immediate16(bus);
                if self.check_conditional(condition) {
                    self.cycles = self.cycles + 1;
                    self.pc = addr;
                }
            },
            Opcode::JpRel => {
                let raw = self.read_immediate(bus);
                let offset: u16 = if raw >= 0x80 {
                    0xFF00 + raw as u16
                } else {
                    raw as u16
                };
                self.pc = self.pc.wrapping_add(offset);
            },
            Opcode::JpRelCond(condition) => {
                let raw = self.read_immediate(bus);
                let offset: u16 = if raw >= 0x80 {
                    0xFF00 + raw as u16
                } else {
                    raw as u16
                };
                if self.check_conditional(condition) {
                    self.cycles = self.cycles + 1;
                    self.pc = self.pc.wrapping_add(offset);
                }
            },
            Opcode::Call => {
                let addr = self.read_immediate16(bus);
                let pc = self.pc;
                self.push_stack(bus, pc);
                self.pc = addr;
            },
            Opcode::CallCond(condition) => {
                let addr = self.read_immediate16(bus);
                if self.check_conditional(condition) {
                    self.cycles = self.cycles + 3;
                    let pc = self.pc;
                    self.push_stack(bus, pc);
                    self.pc = addr;
                }
            },
            Opcode::Ret => {
                self.pc = self.pop_stack(bus);
            },
            Opcode::RetCond(condition) => {
                if self.check_conditional(condition) {
                    self.cycles = self.cycles + 3;
                    self.pc = self.pop_stack(bus);
                }
            },
            Opcode::Reti => {
                self.pc = self.pop_stack(bus);
                // Unlike EI, RETI enables interrupts at once
                self.interrupt_master_enable = true;
            },
            Opcode::Rst(addr) => {
                let pc = self.pc;
                self.push_stack(bus, pc);
                self.pc = addr as u16;
            },
            Opcode::Halt => {
                let interrupts_status = bus.read(0xFF0F);
                let interrupts_enable = bus.read(0xFFFF);
                let pending = interrupts_enable & interrupts_status & INT_MASK;
                // With IME clear and an interrupt already pending, HALT is skipped and the
                // next byte is read twice
                if !self.interrupt_master_enable && pending != 0 {
                    self.halt_bug_active = true;
                } else {
                    self.halted = true;
                }
            },
            Opcode::Stop => {
                bus.timer_registers.reset_div();
                bus.toggle_double_speed();
            },
            Opcode::Di => {
                self.interrupt_master_enable = false;
            },
            Opcode::Ei => {
                // Takes effect after the next instruction
                self.ime_pending = Some(true);
            },
            _ => {},
        }
    }

    /// Runs the `0xCB`-prefixed instruction that follows, adding its cost.
    pub fn run_cb(&mut self, bus: &mut CpuBus)
        requires
            old(self).cycles <= 6,
            old(bus).wf(),
        ensures
            old(bus).ppu.timing_kept(final(bus).ppu),
            final(bus).wf(),
            final(self).cycles <= 10,
            final(self).cycles >= old(self).cycles,
            final(self).opcode_latch == old(self).opcode_latch,
            final(self).pc == (old(self).pc + 1) % 0x10000,
            final(self).sp == old(self).sp,
            readable(old(bus), old(self).pc) matches Some(b) ==> {
                &&& final(self).cycles == old(self).cycles + cb_cycles(decode_cb(b))
                &&& (decode_cb(b) matches OpcodeCB::BitR(i, reg) ==> {
                    &&& (final(self).f & FLAG_Z != 0) == (old(self).register_value(reg) & (1u8 << (i
                        % 8)) == 0)
                    &&& final(self).f & FLAG_N == 0
                    &&& final(self).f & FLAG_H != 0
                })
                &&& (decode_cb(b) matches OpcodeCB::ResR(i, reg) ==> final(self).register_value(reg)
                    == old(self).register_value(reg) & !(1u8 << (i % 8)))
                &&& (decode_cb(b) matches OpcodeCB::SetR(i, reg) ==> final(self).register_value(reg)
                    == old(self).register_value(reg) | (1u8 << (i % 8)))
                &&& (decode_cb(b) matches OpcodeCB::RotateR(op, reg) ==> final(self).register_value(
                    reg,
                ) == rot_value(op, old(self).register_value(reg), old(self).f & FLAG_C != 0))
            },
    {
        proof {
            lemma_flag_constants();
        }
        let byte = self.read_immediate(bus);
        let op = OpcodeCB::from(byte);
        self.cycles = self.cycles + op.cycles();
        match op {
            OpcodeCB::RotateR(rot_op, source) => {
                let val = self.get_register(source);
                let result = self.run_rot(rot_op, val, false);
                self.set_register(source, result);
            },
            OpcodeCB::RotateMem(rot_op) => {
                let addr = self.get_register_pair(RegisterPair::HL);
                let val = bus.read(addr);
                let result = self.run_rot(rot_op, val, false);
                bus.write(addr, result);
            },
            OpcodeCB::BitR(index, source) => {
                let val = self.get_register(source);
                let mask = 1u8 << (index % 8);
                self.set_flag(FLAG_N, false);
                self.set_flag(FLAG_H, true);
                self.set_flag(FLAG_Z, val & mask == 0);
            },
            OpcodeCB::BitMem(index) => {
                let addr = self.get_register_pair(RegisterPair::HL);
                let val = bus.read(addr);
                let mask = 1u8 << (index % 8);
                self.set_flag(FLAG_N, false);
                self.set_flag(FLAG_H, true);
                self.set_flag(FLAG_Z, val & mask == 0);
            },
            OpcodeCB::ResR(index, source) => {
                let val = self.get_register(source);
                let mask = !(1u8 << (index % 8));
                self.set_register(source, val & mask);
            },
            OpcodeCB::ResMem(index) => {
                let addr = self.get_register_pair(RegisterPair::HL);
                let val = bus.read(addr);
                let mask = !(1u8 << (index % 8));
                bus.write(addr, val & mask);
            },
            OpcodeCB::SetR(index, source) => {
                let val = self.get_register(source);
                let mask = 1u8 << (index % 8);
                self.set_register(source, val | mask);
            },
            OpcodeCB::SetMem(index) => {
                let addr = self.get_register_pair(RegisterPair::HL);
                let val = bus.read(addr);
                let mask = 1u8 << (index % 8);
                bus.write(addr, val | mask);
            },
        }
    }

    /// An 8-bit ALU operation on A and `val`, setting the flags.
    #[verifier::spinoff_prover]
    #[verifier::rlimit(100)]
    pub fn run_alu(&mut self, alu_op: Alu, val: u8)
        ensures
            final(self).cycles == old(self).cycles,
            final(self).opcode_latch == old(self).opcode_latch,
            final(self).interrupt_master_enable == old(self).interrupt_master_enable,
            final(self).ime_pending == old(self).ime_pending,
            final(self).halted == old(self).halted,
            final(self).halt_bug_active == old(self).halt_bug_active,
            final(self).sp == old(self).sp && final(self).pc == old(self).pc,
            final(self).b == old(self).b && final(self).c == old(self).c,
            final(self).d == old(self).d && final(self).e == old(self).e,
            final(self).h == old(self).h && final(self).l == old(self).l,
            final(self).a == alu_result(alu_op, old(self).a, val, old(self).f & FLAG_C != 0),
            alu_op != Alu::Cp ==> (final(self).f & FLAG_Z != 0) == (final(self).a == 0),
            alu_op == Alu::Cp ==> (final(self).f & FLAG_Z != 0) == (old(self).a == val),
            (alu_op == Alu::Sub || alu_op == Alu::Sbc || alu_op == Alu::Cp) <==> final(self).f & FLAG_N
                != 0,
            alu_op == Alu::And ==> final(self).f & FLAG_H != 0 && final(self).f & FLAG_C == 0,
            alu_op == Alu::Xor || alu_op == Alu::Or ==> final(self).f & FLAG_H == 0 && final(self).f
                & FLAG_C == 0,
            alu_op == Alu::Cp ==> final(self).a == old(self).a,
            alu_op == Alu::Add || alu_op == Alu::Sub || alu_op == Alu::Cp ==> (final(self).f & FLAG_C != 0
                <==> if alu_op == Alu::Add {
                old(self).a + val > 0xFF
            } else {
                old(self).a < val
            }),
    {
        proof {
            lemma_flag_constants();
        }
        let carry_flag: u8 = if self.f & FLAG_C != 0 {
            1
        } else {
            0
        };
        match alu_op {
            Alu::Add => {
                let carry = self.a as u16 + val as u16 > 0xFF;
                let half_carry = self.a % 16 + val % 16 > 0x0F;
                let result = self.a.wrapping_add(val);
                self.write_flags(result == 0, false, half_carry, carry);
                self.a = result;
            },
            Alu::Adc => {
                let carry = self.a as u16 + val as u16 + carry_flag as u16 > 0xFF;
                let half_carry = self.a % 16 + val % 16 + carry_flag > 0x0F;
                let result = self.a.wrapping_add(val).wrapping_add(carry_flag);
                self.write_flags(result == 0, false, half_carry, carry);
                self.a = result;
            },
            Alu::Sub => {
                let carry = self.a < val;
                let half_carry = self.a % 16 < val % 16;
                let result = self.a.wrapping_sub(val);
                self.write_flags(result == 0, true, half_carry, carry);
                self.a = result;
            },
            Alu::Sbc => {
                let carry = (self.a as u16) < val as u16 + carry_flag as u16;
                let half_carry = self.a % 16 < val % 16 + carry_flag;
                let result = self.a.wrapping_sub(val).wrapping_sub(carry_flag);
                self.write_flags(result == 0, true, half_carry, carry);
                self.a = result;
            },
            Alu::And => {
                self.a = self.a & val;
                let z = self.a == 0;
                self.write_flags(z, false, true, false);
            },
            Alu::Xor => {
                self.a = self.a ^ val;
                let z = self.a == 0;
                self.write_flags(z, false, false, false);
            },
            Alu::Or => {
                self.a = self.a | val;
                let z = self.a == 0;
                self.write_flags(z, false, false, false);
            },
            Alu::Cp => {
                let carry = self.a < val;
                let half_carry = self.a % 16 < val % 16;
                let result = self.a.wrapping_sub(val);
                self.write_flags(result == 0, true, half_carry, carry);
            },
        }
    }

    /// A rotate/shift of `val`, setting the flags; `force_zero` (the A-register forms)
    /// always clears Z.
    pub fn run_rot(&mut self, rot_op: Rot, val: u8, force_zero: bool) -> (r: u8)
        ensures
            final(self).cycles == old(self).cycles,
            final(self).opcode_latch == old(self).opcode_latch,
            final(self).interrupt_master_enable == old(self).interrupt_master_enable,
            final(self).ime_pending == old(self).ime_pending,
            final(self).halted == old(self).halted,
            final(self).halt_bug_active == old(self).halt_bug_active,
            final(self).sp == old(self).sp && final(self).pc == old(self).pc,
            final(self).a == old(self).a,
            final(self).b == old(self).b && final(self).c == old(self).c,
            final(self).d == old(self).d && final(self).e == old(self).e,
            final(self).h == old(self).h && final(self).l == old(self).l,
            r == rot_value(rot_op, val, old(self).f & FLAG_C != 0),
            (final(self).f & FLAG_C != 0) == rot_carry(rot_op, val),
            final(self).f & FLAG_H == 0,
            final(self).f & FLAG_N == 0,
            (final(self).f & FLAG_Z != 0) == (!force_zero && r == 0),
            rot_op == Rot::Swap ==> r == (val % 16) * 16 + val / 16,
            rot_op == Rot::Srl ==> r == val / 2,
            rot_op == Rot::Sla ==> r == (val % 128) * 2,
            rot_op == Rot::Rlc ==> r == (val % 128) * 2 + val / 128,
            rot_op == Rot::Rrc ==> r == val / 2 + (val % 2) * 128,
    {
        proof {
            lemma_flag_constants();
        }
        let carry_in = self.f & FLAG_C != 0;
        let (result, carry): (u8, bool) = match rot_op {
            Rot::Rlc => ((val % 128) * 2 + val / 128, val >= 0x80),
            Rot::Rrc => (val / 2 + (val % 2) * 128, val % 2 == 1),
            Rot::Rl => ((val % 128) * 2 + if carry_in {
                1u8
            } else {
                0u8
            }, val >= 0x80),
            Rot::Rr => (val / 2 + if carry_in {
                0x80u8
            } else {
                0u8
            }, val % 2 == 1),
            Rot::Sla => ((val % 128) * 2, val >= 0x80),
            Rot::Sra => (val / 2 + if val >= 0x80 {
                0x80u8
            } else {
                0u8
            }, val % 2 == 1),
            Rot::Swap => ((val % 16) * 16 + val / 16, false),
            Rot::Srl => (val / 2, val % 2 == 1),
        };
        self.set_flag(FLAG_C, carry);
        self.set_flag(FLAG_H, false);
        self.set_flag(FLAG_N, false);
        if force_zero {
            self.set_flag(FLAG_Z, false);
        } else {
            self.set_flag(FLAG_Z, result == 0);
        }
        result
    }
}

} // verus!
