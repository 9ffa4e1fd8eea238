//! The processor.
//!
//! It holds no reference to the bus: every operation that reads or writes
//! memory takes the bus as a parameter. Each operation is held to its
//! specification in [`crate::semantics`].

use vstd::prelude::*;
use crate::bus::BUS;
use crate::instruction::{
    AddressingMode,
    Fault,
    Instruction,
    Operation,
    fault_of,
    instruction_set,
    is_instruction_set,
    lemma_base_cycles_bounds,
};
use crate::semantics::{
    IRQ_CYCLES,
    IRQ_VECTOR,
    NMI_CYCLES,
    NMI_VECTOR,
    RESET_CYCLES,
    RESET_STACK_POINTER,
    RESET_VECTOR,
    STACK_PAGE,
    honors_crossing,
    law_extra_cycle_needs_both,
};
use crate::state::{CpuState, Machine};
use crate::status::{
    FLAG_BREAK,
    FLAG_CARRY,
    FLAG_DECIMAL,
    FLAG_INTERRUPT,
    FLAG_NEGATIVE,
    FLAG_OVERFLOW,
    FLAG_UNUSED,
    FLAG_ZERO,
    flag,
    flag_set,
    high_byte_of,
    low_byte_of,
    make_word,
    pages_differ,
    sign_extend,
};

verus! {

/// The processor: its registers, what it keeps of the instruction in
/// flight, and the opcode table.
pub struct CPU {
    pub a: u8,
    pub x: u8,
    pub y: u8,
    pub pc: u16,
    pub sp: u8,
    /// The flags, from the top bit down: Negative, Overflow, unused, Break,
    /// Decimal, Interrupt disable, Zero, Carry.
    pub status_flags: u8,
    pub last_fetched: u8,
    pub absolute_addr: u16,
    pub relative_addr: u16,
    pub opcode: u8,
    pub cycles: u8,
    pub lookup: Vec<Instruction>,
}

impl View for CPU {
    type V = CpuState;

    open spec fn view(&self) -> CpuState {
        CpuState {
            a: self.a,
            x: self.x,
            y: self.y,
            pc: self.pc,
            sp: self.sp,
            status_flags: self.status_flags,
            last_fetched: self.last_fetched,
            absolute_addr: self.absolute_addr,
            relative_addr: self.relative_addr,
            opcode: self.opcode,
            cycles: self.cycles,
        }
    }
}

/// What a processor of this family does.
///
/// The operations named `ins_` carry out an instruction whose operand the
/// addressing mode has found, and answer 1 if the instruction pays for a
/// page that the addressing mode crossed. The operations named `addrmode_`
/// find the operand, and answer 1 if they crossed a page.
pub trait ICPU: View<V = CpuState> + Sized {
    /// The processor can decode every opcode.
    spec fn wf(&self) -> bool;

    /// Reads a byte from the bus, without effect on what is read.
    fn read(&self, bus: &BUS, addr: u16) -> (data: u8)
        requires
            bus.wf(),
        ensures
            data == bus@.peek(addr),
    ;

    /// Writes a byte to the bus.
    fn write(&mut self, bus: &mut BUS, addr: u16, data: u8)
        requires
            old(self).wf(),
            old(bus).wf(),
        ensures
            final(self).wf(),
            final(bus).wf(),
            final(self)@ == old(self)@,
            final(bus)@ == old(bus)@.poke(addr, data),
    ;

    /// Sets every flag of the mask.
    fn set_flag(&mut self, status_flag: u8)
        requires
            old(self).wf(),
        ensures
            final(self).wf(),
            final(self)@ == old(self)@.flagged(status_flag, true),
    ;

    /// Clears every flag of the mask.
    fn clear_flag(&mut self, status_flag: u8)
        requires
            old(self).wf(),
        ensures
            final(self).wf(),
            final(self)@ == old(self)@.flagged(status_flag, false),
    ;

    /// Fetches the operand of the instruction in flight.
    fn fetch(&mut self, bus: &BUS) -> (data: u8)
        requires
            old(self).wf(),
            bus.wf(),
        ensures
            final(self).wf(),
            final(self)@ == old(self)@.fetched(bus@),
            data == old(self)@.operand(bus@),
    ;

    /// One cycle of the processor. Reports the fault of an instruction that
    /// begins in it.
    fn clock(&mut self, bus: &mut BUS) -> (fault: Option<Fault>)
        requires
            old(self).wf(),
            old(bus).wf(),
        ensures
            final(self).wf(),
            final(bus).wf(),
            final(self)@ == old(self)@.clocked(old(bus)@).cpu,
            final(bus)@ == old(self)@.clocked(old(bus)@).bus,
            fault == old(self)@.clock_fault(old(bus)@),
    ;

    /// Resets the processor: the program starts again at the address that
    /// the reset vector holds.
    fn reset(&mut self, bus: &BUS)
        requires
            old(self).wf(),
            bus.wf(),
        ensures
            final(self).wf(),
            final(self)@ == old(self)@.reset(bus@),
    ;

    /// Requests an interrupt. The processor takes it unless interrupts are
    /// disabled.
    fn irq(&mut self, bus: &mut BUS)
        requires
            old(self).wf(),
            old(bus).wf(),
        ensures
            final(self).wf(),
            final(bus).wf(),
            final(self)@ == old(self)@.irq(old(bus)@).cpu,
            final(bus)@ == old(self)@.irq(old(bus)@).bus,
    ;

    /// Interrupts the processor, whether or not interrupts are disabled.
    fn nmi(&mut self, bus: &mut BUS)
        requires
            old(self).wf(),
            old(bus).wf(),
        ensures
            final(self).wf(),
            final(bus).wf(),
            final(self)@ == old(self)@.nmi(old(bus)@).cpu,
            final(bus)@ == old(self)@.nmi(old(bus)@).bus,
    ;

    /// Add with carry.
    fn ins_adc(&mut self, bus: &BUS) -> (honors: u8)
        requires
            old(self).wf(),
            bus.wf(),
        ensures
            final(self).wf(),
            final(self)@ == old(self)@.adc(bus@),
            honors == 1,
    ;

    /// Bitwise and with the accumulator.
    fn ins_and(&mut self, bus: &BUS) -> (honors: u8)
        requires
            old(self).wf(),
            bus.wf(),
        ensures
            final(self).wf(),
            final(self)@ == old(self)@.and(bus@),
            honors == 1,
    ;

    /// Shift left.
    fn ins_asl(&mut self, bus: &mut BUS) -> (honors: u8)
        requires
            old(self).wf(),
            old(bus).wf(),
        ensures
            final(self).wf(),
            final(bus).wf(),
            final(self)@ == old(self)@.asl(old(bus)@).cpu,
            final(bus)@ == old(self)@.asl(old(bus)@).bus,
            honors == 0,
    ;

    /// Branch if the carry is clear.
    fn ins_bcc(&mut self) -> (honors: u8)
        requires
            old(self).wf(),
        ensures
            final(self).wf(),
            final(self)@ == old(self)@.branched(!flag(old(self)@.status_flags, FLAG_CARRY)),
            honors == 0,
    ;

    /// Branch if the carry is set.
    fn ins_bcs(&mut self) -> (honors: u8)
        requires
            old(self).wf(),
        ensures
            final(self).wf(),
            final(self)@ == old(self)@.branched(flag(old(self)@.status_flags, FLAG_CARRY)),
            honors == 0,
    ;

    /// Branch if the last result was zero.
    fn ins_beq(&mut self) -> (honors: u8)
        requires
            old(self).wf(),
        ensures
            final(self).wf(),
            final(self)@ == old(self)@.branched(flag(old(self)@.status_flags, FLAG_ZERO)),
            honors == 0,
    ;

    /// Test bits of the operand against the accumulator.
    fn ins_bit(&mut self, bus: &BUS) -> (honors: u8)
        requires
            old(self).wf(),
            bus.wf(),
        ensures
            final(self).wf(),
            final(self)@ == old(self)@.bit(bus@),
            honors == 0,
    ;

    /// Branch if the last result was negative.
    fn ins_bmi(&mut self) -> (honors: u8)
        requires
            old(self).wf(),
        ensures
            final(self).wf(),
            final(self)@ == old(self)@.branched(flag(old(self)@.status_flags, FLAG_NEGATIVE)),
            honors == 0,
    ;

    /// Branch if the last result was not zero.
    fn ins_bne(&mut self) -> (honors: u8)
        requires
            old(self).wf(),
        ensures
            final(self).wf(),
            final(self)@ == old(self)@.branched(!flag(old(self)@.status_flags, FLAG_ZERO)),
            honors == 0,
    ;

    /// Branch if the last result was not negative.
    fn ins_bpl(&mut self) -> (honors: u8)
        requires
            old(self).wf(),
        ensures
            final(self).wf(),
            final(self)@ == old(self)@.branched(!flag(old(self)@.status_flags, FLAG_NEGATIVE)),
            honors == 0,
    ;

    /// Software interrupt.
    fn ins_brk(&mut self, bus: &mut BUS) -> (honors: u8)
        requires
            old(self).wf(),
            old(bus).wf(),
        ensures
            final(self).wf(),
            final(bus).wf(),
            final(self)@ == old(self)@.brk(old(bus)@).cpu,
            final(bus)@ == old(self)@.brk(old(bus)@).bus,
            honors == 0,
    ;

    /// Branch if Overflow is clear.
    fn ins_bvc(&mut self) -> (honors: u8)
        requires
            old(self).wf(),
        ensures
            final(self).wf(),
            final(self)@ == old(self)@.branched(!flag(old(self)@.status_flags, FLAG_OVERFLOW)),
            honors == 0,
    ;

    /// Branch if Overflow is set.
    fn ins_bvs(&mut self) -> (honors: u8)
        requires
            old(self).wf(),
        ensures
            final(self).wf(),
            final(self)@ == old(self)@.branched(flag(old(self)@.status_flags, FLAG_OVERFLOW)),
            honors == 0,
    ;

    /// Clear the carry.
    fn ins_clc(&mut self) -> (honors: u8)
        requires
            old(self).wf(),
        ensures
            final(self).wf(),
            final(self)@ == old(self)@.flagged(FLAG_CARRY, false),
            honors == 0,
    ;

    /// Clear decimal mode.
    fn ins_cld(&mut self) -> (honors: u8)
        requires
            old(self).wf(),
        ensures
            final(self).wf(),
            final(self)@ == old(self)@.flagged(FLAG_DECIMAL, false),
            honors == 0,
    ;

    /// Enable interrupts.
    fn ins_cli(&mut self) -> (honors: u8)
        requires
            old(self).wf(),
        ensures
            final(self).wf(),
            final(self)@ == old(self)@.flagged(FLAG_INTERRUPT, false),
            honors == 0,
    ;

    /// Clear Overflow.
    fn ins_clv(&mut self) -> (honors: u8)
        requires
            old(self).wf(),
        ensures
            final(self).wf(),
            final(self)@ == old(self)@.flagged(FLAG_OVERFLOW, false),
            honors == 0,
    ;

    /// Hold the accumulator against the operand.
    fn ins_cmp(&mut self, bus: &BUS) -> (honors: u8)
        requires
            old(self).wf(),
            bus.wf(),
        ensures
            final(self).wf(),
            final(self)@ == old(self)@.compare_a(bus@),
            honors == 1,
    ;

    /// Hold X against the operand.
    fn ins_cpx(&mut self, bus: &BUS) -> (honors: u8)
        requires
            old(self).wf(),
            bus.wf(),
        ensures
            final(self).wf(),
            final(self)@ == old(self)@.compare_x(bus@),
            honors == 0,
    ;

    /// Hold Y against the operand.
    fn ins_cpy(&mut self, bus: &BUS) -> (honors: u8)
        requires
            old(self).wf(),
            bus.wf(),
        ensures
            final(self).wf(),
            final(self)@ == old(self)@.compare_y(bus@),
            honors == 0,
    ;

    /// Count the operand down, in memory.
    fn ins_dec(&mut self, bus: &mut BUS) -> (honors: u8)
        requires
            old(self).wf(),
            old(bus).wf(),
        ensures
            final(self).wf(),
            final(bus).wf(),
            final(self)@ == old(self)@.dec(old(bus)@).cpu,
            final(bus)@ == old(self)@.dec(old(bus)@).bus,
            honors == 0,
    ;

    /// Count X down.
    fn ins_dex(&mut self) -> (honors: u8)
        requires
            old(self).wf(),
        ensures
            final(self).wf(),
            final(self)@ == old(self)@.dex(),
            honors == 0,
    ;

    /// Count Y down.
    fn ins_dey(&mut self) -> (honors: u8)
        requires
            old(self).wf(),
        ensures
            final(self).wf(),
            final(self)@ == old(self)@.dey(),
            honors == 0,
    ;

    /// Bitwise exclusive or with the accumulator.
    fn ins_eor(&mut self, bus: &BUS) -> (honors: u8)
        requires
            old(self).wf(),
            bus.wf(),
        ensures
            final(self).wf(),
            final(self)@ == old(self)@.eor(bus@),
            honors == 1,
    ;

    /// Count the operand up, in memory.
    fn ins_inc(&mut self, bus: &mut BUS) -> (honors: u8)
        requires
            old(self).wf(),
            old(bus).wf(),
        ensures
            final(self).wf(),
            final(bus).wf(),
            final(self)@ == old(self)@.inc(old(bus)@).cpu,
            final(bus)@ == old(self)@.inc(old(bus)@).bus,
            honors == 0,
    ;

    /// Count X up.
    fn ins_inx(&mut self) -> (honors: u8)
        requires
            old(self).wf(),
        ensures
            final(self).wf(),
            final(self)@ == old(self)@.inx(),
            honors == 0,
    ;

    /// Count Y up.
    fn ins_iny(&mut self) -> (honors: u8)
        requires
            old(self).wf(),
        ensures
            final(self).wf(),
            final(self)@ == old(self)@.iny(),
            honors == 0,
    ;

    /// Jump.
    fn ins_jmp(&mut self) -> (honors: u8)
        requires
            old(self).wf(),
        ensures
            final(self).wf(),
            final(self)@ == old(self)@.jmp(),
            honors == 0,
    ;

    /// Jump to a subroutine.
    fn ins_jsr(&mut self, bus: &mut BUS) -> (honors: u8)
        requires
            old(self).wf(),
            old(bus).wf(),
        ensures
            final(self).wf(),
            final(bus).wf(),
            final(self)@ == old(self)@.jsr(old(bus)@).cpu,
            final(bus)@ == old(self)@.jsr(old(bus)@).bus,
            honors == 0,
    ;

    /// Load the accumulator.
    fn ins_lda(&mut self, bus: &BUS) -> (honors: u8)
        requires
            old(self).wf(),
            bus.wf(),
        ensures
            final(self).wf(),
            final(self)@ == old(self)@.lda(bus@),
            honors == 1,
    ;

    /// Load X.
    fn ins_ldx(&mut self, bus: &BUS) -> (honors: u8)
        requires
            old(self).wf(),
            bus.wf(),
        ensures
            final(self).wf(),
            final(self)@ == old(self)@.ldx(bus@),
            honors == 1,
    ;

    /// Load Y.
    fn ins_ldy(&mut self, bus: &BUS) -> (honors: u8)
        requires
            old(self).wf(),
            bus.wf(),
        ensures
            final(self).wf(),
            final(self)@ == old(self)@.ldy(bus@),
            honors == 1,
    ;

    /// Shift right.
    fn ins_lsr(&mut self, bus: &mut BUS) -> (honors: u8)
        requires
            old(self).wf(),
            old(bus).wf(),
        ensures
            final(self).wf(),
            final(bus).wf(),
            final(self)@ == old(self)@.lsr(old(bus)@).cpu,
            final(bus)@ == old(self)@.lsr(old(bus)@).bus,
            honors == 0,
    ;

    /// Do nothing.
    fn ins_nop(&mut self) -> (honors: u8)
        requires
            old(self).wf(),
        ensures
            final(self).wf(),
            final(self)@ == old(self)@,
            honors == 0,
    ;

    /// Bitwise or with the accumulator.
    fn ins_ora(&mut self, bus: &BUS) -> (honors: u8)
        requires
            old(self).wf(),
            bus.wf(),
        ensures
            final(self).wf(),
            final(self)@ == old(self)@.ora(bus@),
            honors == 1,
    ;

    /// Push the accumulator.
    fn ins_pha(&mut self, bus: &mut BUS) -> (honors: u8)
        requires
            old(self).wf(),
            old(bus).wf(),
        ensures
            final(self).wf(),
            final(bus).wf(),
            final(self)@ == old(self)@.pha(old(bus)@).cpu,
            final(bus)@ == old(self)@.pha(old(bus)@).bus,
            honors == 0,
    ;

    /// Push the status.
    fn ins_php(&mut self, bus: &mut BUS) -> (honors: u8)
        requires
            old(self).wf(),
            old(bus).wf(),
        ensures
            final(self).wf(),
            final(bus).wf(),
            final(self)@ == old(self)@.php(old(bus)@).cpu,
            final(bus)@ == old(self)@.php(old(bus)@).bus,
            honors == 0,
    ;

    /// Pull the accumulator.
    fn ins_pla(&mut self, bus: &BUS) -> (honors: u8)
        requires
            old(self).wf(),
            bus.wf(),
        ensures
            final(self).wf(),
            final(self)@ == old(self)@.pla(bus@),
            honors == 0,
    ;

    /// Pull the status.
    fn ins_plp(&mut self, bus: &BUS) -> (honors: u8)
        requires
            old(self).wf(),
            bus.wf(),
        ensures
            final(self).wf(),
            final(self)@ == old(self)@.plp(bus@),
            honors == 0,
    ;

    /// Rotate left through the carry.
    fn ins_rol(&mut self, bus: &mut BUS) -> (honors: u8)
        requires
            old(self).wf(),
            old(bus).wf(),
        ensures
            final(self).wf(),
            final(bus).wf(),
            final(self)@ == old(self)@.rol(old(bus)@).cpu,
            final(bus)@ == old(self)@.rol(old(bus)@).bus,
            honors == 0,
    ;

    /// Rotate right through the carry.
    fn ins_ror(&mut self, bus: &mut BUS) -> (honors: u8)
        requires
            old(self).wf(),
            old(bus).wf(),
        ensures
            final(self).wf(),
            final(bus).wf(),
            final(self)@ == old(self)@.ror(old(bus)@).cpu,
            final(bus)@ == old(self)@.ror(old(bus)@).bus,
            honors == 0,
    ;

    /// Return from an interrupt.
    fn ins_rti(&mut self, bus: &BUS) -> (honors: u8)
        requires
            old(self).wf(),
            bus.wf(),
        ensures
            final(self).wf(),
            final(self)@ == old(self)@.rti(bus@),
            honors == 0,
    ;

    /// Return from a subroutine.
    fn ins_rts(&mut self, bus: &BUS) -> (honors: u8)
        requires
            old(self).wf(),
            bus.wf(),
        ensures
            final(self).wf(),
            final(self)@ == old(self)@.rts(bus@),
            honors == 0,
    ;

    /// Subtract with borrow.
    fn ins_sbc(&mut self, bus: &BUS) -> (honors: u8)
        requires
            old(self).wf(),
            bus.wf(),
        ensures
            final(self).wf(),
            final(self)@ == old(self)@.sbc(bus@),
            honors == 1,
    ;

    /// Set the carry.
    fn ins_sec(&mut self) -> (honors: u8)
        requires
            old(self).wf(),
        ensures
            final(self).wf(),
            final(self)@ == old(self)@.flagged(FLAG_CARRY, true),
            honors == 0,
    ;

    /// Set decimal mode.
    fn ins_sed(&mut self) -> (honors: u8)
        requires
            old(self).wf(),
        ensures
            final(self).wf(),
            final(self)@ == old(self)@.flagged(FLAG_DECIMAL, true),
            honors == 0,
    ;

    /// Disable interrupts.
    fn ins_sei(&mut self) -> (honors: u8)
        requires
            old(self).wf(),
        ensures
            final(self).wf(),
            final(self)@ == old(self)@.flagged(FLAG_INTERRUPT, true),
            honors == 0,
    ;

    /// Store the accumulator.
    fn ins_sta(&mut self, bus: &mut BUS) -> (honors: u8)
        requires
            old(self).wf(),
            old(bus).wf(),
        ensures
            final(self).wf(),
            final(bus).wf(),
            final(self)@ == old(self)@,
            final(bus)@ == old(self)@.sta(old(bus)@),
            honors == 0,
    ;

    /// Store X.
    fn ins_stx(&mut self, bus: &mut BUS) -> (honors: u8)
        requires
            old(self).wf(),
            old(bus).wf(),
        ensures
            final(self).wf(),
            final(bus).wf(),
            final(self)@ == old(self)@,
            final(bus)@ == old(self)@.stx(old(bus)@),
            honors == 0,
    ;

    /// Store Y.
    fn ins_sty(&mut self, bus: &mut BUS) -> (honors: u8)
        requires
            old(self).wf(),
            old(bus).wf(),
        ensures
            final(self).wf(),
            final(bus).wf(),
            final(self)@ == old(self)@,
            final(bus)@ == old(self)@.sty(old(bus)@),
            honors == 0,
    ;

    /// Copy the accumulator to X.
    fn ins_tax(&mut self) -> (honors: u8)
        requires
            old(self).wf(),
        ensures
            final(self).wf(),
            final(self)@ == old(self)@.tax(),
            honors == 0,
    ;

    /// Copy the accumulator to Y.
    fn ins_tay(&mut self) -> (honors: u8)
        requires
            old(self).wf(),
        ensures
            final(self).wf(),
            final(self)@ == old(self)@.tay(),
            honors == 0,
    ;

    /// Copy the stack pointer to X.
    fn ins_tsx(&mut self) -> (honors: u8)
        requires
            old(self).wf(),
        ensures
            final(self).wf(),
            final(self)@ == old(self)@.tsx(),
            honors == 0,
    ;

    /// Copy X to the accumulator.
    fn ins_txa(&mut self) -> (honors: u8)
        requires
            old(self).wf(),
        ensures
            final(self).wf(),
            final(self)@ == old(self)@.txa(),
            honors == 0,
    ;

    /// Copy X to the stack pointer.
    fn ins_txs(&mut self) -> (honors: u8)
        requires
            old(self).wf(),
        ensures
            final(self).wf(),
            final(self)@ == old(self)@.txs(),
            honors == 0,
    ;

    /// Copy Y to the accumulator.
    fn ins_tya(&mut self) -> (honors: u8)
        requires
            old(self).wf(),
        ensures
            final(self).wf(),
            final(self)@ == old(self)@.tya(),
            honors == 0,
    ;

    /// The step of an unassigned opcode: nothing changes.
    fn ins_xxx(&mut self) -> (honors: u8)
        requires
            old(self).wf(),
        ensures
            final(self).wf(),
            final(self)@ == old(self)@,
            honors == 0,
    ;

    /// Implied.
    fn addrmode_imp(&mut self) -> (crossing: u8)
        requires
            old(self).wf(),
        ensures
            final(self).wf(),
            final(self)@ == old(self)@.imp(),
            crossing == 0,
    ;

    /// Zero page.
    fn addrmode_zp0(&mut self, bus: &BUS) -> (crossing: u8)
        requires
            old(self).wf(),
            bus.wf(),
        ensures
            final(self).wf(),
            final(self)@ == old(self)@.zp0(bus@),
            crossing == 0,
    ;

    /// Zero page, indexed by Y.
    fn addrmode_zpy(&mut self, bus: &BUS) -> (crossing: u8)
        requires
            old(self).wf(),
            bus.wf(),
        ensures
            final(self).wf(),
            final(self)@ == old(self)@.zp_indexed(bus@, old(self)@.y),
            crossing == 0,
    ;

    /// Absolute.
    fn addrmode_abs(&mut self, bus: &BUS) -> (crossing: u8)
        requires
            old(self).wf(),
            bus.wf(),
        ensures
            final(self).wf(),
            final(self)@ == old(self)@.abs(bus@),
            crossing == 0,
    ;

    /// Absolute, indexed by Y.
    fn addrmode_aby(&mut self, bus: &BUS) -> (crossing: u8)
        requires
            old(self).wf(),
            bus.wf(),
        ensures
            final(self).wf(),
            final(self)@ == old(self)@.abs_indexed(bus@, old(self)@.y),
            crossing == old(self)@.abs_indexed_crossing(bus@, old(self)@.y),
    ;

    /// Indexed indirect.
    fn addrmode_izx(&mut self, bus: &BUS) -> (crossing: u8)
        requires
            old(self).wf(),
            bus.wf(),
        ensures
            final(self).wf(),
            final(self)@ == old(self)@.izx(bus@),
            crossing == 0,
    ;

    /// Immediate.
    fn addrmode_imm(&mut self) -> (crossing: u8)
        requires
            old(self).wf(),
        ensures
            final(self).wf(),
            final(self)@ == old(self)@.imm(),
            crossing == 0,
    ;

    /// Zero page, indexed by X.
    fn addrmode_zpx(&mut self, bus: &BUS) -> (crossing: u8)
        requires
            old(self).wf(),
            bus.wf(),
        ensures
            final(self).wf(),
            final(self)@ == old(self)@.zp_indexed(bus@, old(self)@.x),
            crossing == 0,
    ;

    /// Relative.
    fn addrmode_rel(&mut self, bus: &BUS) -> (crossing: u8)
        requires
            old(self).wf(),
            bus.wf(),
        ensures
            final(self).wf(),
            final(self)@ == old(self)@.rel(bus@),
            crossing == 0,
    ;

    /// Absolute, indexed by X.
    fn addrmode_abx(&mut self, bus: &BUS) -> (crossing: u8)
        requires
            old(self).wf(),
            bus.wf(),
        ensures
            final(self).wf(),
            final(self)@ == old(self)@.abs_indexed(bus@, old(self)@.x),
            crossing == old(self)@.abs_indexed_crossing(bus@, old(self)@.x),
    ;

    /// Indirect.
    fn addrmode_ind(&mut self, bus: &BUS) -> (crossing: u8)
        requires
            old(self).wf(),
            bus.wf(),
        ensures
            final(self).wf(),
            final(self)@ == old(self)@.ind(bus@),
            crossing == 0,
    ;

    /// Indirect indexed.
    fn addrmode_izy(&mut self, bus: &BUS) -> (crossing: u8)
        requires
            old(self).wf(),
            bus.wf(),
        ensures
            final(self).wf(),
            final(self)@ == old(self)@.izy(bus@),
            crossing == old(self)@.izy_crossing(bus@),
    ;

    /// The step of a descriptor without addressing mode: nothing changes.
    fn addrmode_xxx(&mut self) -> (crossing: u8)
        requires
            old(self).wf(),
        ensures
            final(self).wf(),
            final(self)@ == old(self)@,
            crossing == 0,
    ;
}

/// A byte shifted or rotated left, as arithmetic.
proof fn lemma_shift_left(value: u8, carry: u8)
    by (bit_vector)
    requires
        carry <= 1,
    ensures
        value << 1 == (value * 2) % 0x100,
        (value << 1) | carry == (value * 2) % 0x100 + carry,
{
}

/// A byte shifted or rotated right, as arithmetic.
proof fn lemma_shift_right(value: u8, carry: u8)
    by (bit_vector)
    requires
        carry <= 1,
    ensures
        value >> 1 == value / 2,
        (value & 0x01 != 0) == (value % 2 == 1),
        (value >> 1) | (carry << 7) == value / 2 + carry * 0x80,
{
}

/// Turning every bit of a byte round gives what is missing to 255.
proof fn lemma_complement(value: u8)
    by (bit_vector)
    ensures
        value ^ 0xFF == 255 - value,
{
}

/// The top bit of a sum differs from the top bits of both summands exactly
/// when the summands agree in it and the sum does not.
proof fn lemma_sign_bits(a: u8, value: u8, result: u8)
    by (bit_vector)
    ensures
        ((a ^ result) & (value ^ result) & 0x80 != 0) == ((a >= 0x80) == (value >= 0x80) && (result
            >= 0x80) != (a >= 0x80)),
{
}

impl CPU {
    /// The opcode table is the instruction set.
    pub open spec fn has_instruction_set(&self) -> bool {
        is_instruction_set(self.lookup@)
    }

    /// A processor at power-on: every register zero, and the opcode table
    /// filled.
    pub fn new() -> (cpu: CPU)
        ensures
            cpu.has_instruction_set(),
            cpu@ == CpuState::power_on(),
    {
        CPU {
            a: 0,
            x: 0,
            y: 0,
            pc: 0,
            sp: 0,
            status_flags: 0,
            last_fetched: 0,
            absolute_addr: 0,
            relative_addr: 0,
            opcode: 0,
            cycles: 0,
            lookup: instruction_set(),
        }
    }

    /// Whether the opcode table is the instruction set. A processor whose
    /// table was changed by hand can be held to this before it is clocked.
    pub fn holds_instruction_set(&self) -> (ok: bool)
        ensures
            ok == self.has_instruction_set(),
    {
        if self.lookup.len() != 256 {
            return false;
        }
        let reference = instruction_set();
        let mut opcode: usize = 0;
        while opcode < 256
            invariant
                opcode <= 256,
                self.lookup@.len() == 256,
                is_instruction_set(reference@),
                forall|k: u8| k < opcode ==> #[trigger] self.lookup@[k as int].describes(k),
            decreases 256 - opcode,
        {
            let entry = &self.lookup[opcode];
            let expected = &reference[opcode];
            assert(expected.describes(opcode as u8));
            if !(entry.name == expected.name && entry.cycles == expected.cycles && entry.operation
                == expected.operation && entry.mode == expected.mode) {
                assert(!self.lookup@[opcode as u8 as int].describes(opcode as u8));
                return false;
            }
            opcode += 1;
        }
        true
    }

    /// The registers and what is kept of the instruction in flight.
    pub fn state(&self) -> (state: CpuState)
        ensures
            state == self@,
    {
        CpuState {
            a: self.a,
            x: self.x,
            y: self.y,
            pc: self.pc,
            sp: self.sp,
            status_flags: self.status_flags,
            last_fetched: self.last_fetched,
            absolute_addr: self.absolute_addr,
            relative_addr: self.relative_addr,
            opcode: self.opcode,
            cycles: self.cycles,
        }
    }

    /// The table's entry for the opcode in flight.
    pub fn entry(&self) -> (entry: &Instruction)
        requires
            self.has_instruction_set(),
        ensures
            *entry == self.lookup@[self.opcode as int],
            entry.describes(self.opcode),
    {
        assert(self.lookup@[self.opcode as int].describes(self.opcode));
        &self.lookup[self.opcode as usize]
    }

    /// Sets or clears the flags of a mask.
    fn assign_flag(&mut self, mask: u8, on: bool)
        requires
            old(self).has_instruction_set(),
        ensures
            final(self).has_instruction_set(),
            final(self)@ == old(self)@.flagged(mask, on),
    {
        if on {
            self.set_flag(mask);
        } else {
            self.clear_flag(mask);
        }
    }

    /// Sets Zero and Negative by a result.
    fn update_zn(&mut self, value: u8)
        requires
            old(self).has_instruction_set(),
        ensures
            final(self).has_instruction_set(),
            final(self)@ == old(self)@.zn(value),
    {
        self.assign_flag(FLAG_ZERO, value == 0);
        self.assign_flag(FLAG_NEGATIVE, value >= 0x80);
    }

    /// Reads a word, low byte first.
    fn read_word(&self, bus: &BUS, addr: u16) -> (value: u16)
        requires
            bus.wf(),
        ensures
            value == bus@.peek_word(addr),
    {
        let lo = self.read(bus, addr);
        let hi = self.read(bus, addr.wrapping_add(1));
        make_word(lo, hi)
    }

    /// Pushes a byte on the stack.
    fn push(&mut self, bus: &mut BUS, value: u8)
        requires
            old(self).has_instruction_set(),
            old(bus).wf(),
        ensures
            final(self).has_instruction_set(),
            final(bus).wf(),
            (Machine { cpu: final(self)@, bus: final(bus)@ }) == (Machine {
                cpu: old(self)@,
                bus: old(bus)@,
            }).push(value),
    {
        self.write(bus, STACK_PAGE + self.sp as u16, value);
        self.sp = self.sp.wrapping_sub(1);
    }

    /// Pushes a word on the stack, high byte first.
    fn push_word(&mut self, bus: &mut BUS, value: u16)
        requires
            old(self).has_instruction_set(),
            old(bus).wf(),
        ensures
            final(self).has_instruction_set(),
            final(bus).wf(),
            (Machine { cpu: final(self)@, bus: final(bus)@ }) == (Machine {
                cpu: old(self)@,
                bus: old(bus)@,
            }).push_word(value),
    {
        self.push(bus, high_byte_of(value));
        self.push(bus, low_byte_of(value));
    }

    /// Pulls a byte off the stack.
    fn pull(&mut self, bus: &BUS) -> (value: u8)
        requires
            old(self).has_instruction_set(),
            bus.wf(),
        ensures
            final(self).has_instruction_set(),
            final(self)@ == old(self)@.pulled(),
            value == bus@.peek(old(self)@.pulled().stack_slot()),
    {
        self.sp = self.sp.wrapping_add(1);
        self.read(bus, STACK_PAGE + self.sp as u16)
    }

    /// Adds a value and the carry to the accumulator.
    fn add(&mut self, value: u8)
        requires
            old(self).has_instruction_set(),
        ensures
            final(self).has_instruction_set(),
            final(self)@ == old(self)@.added(value),
    {
        let carry_in: u16 = if flag_set(self.status_flags, FLAG_CARRY) {
            1
        } else {
            0
        };
        let sum: u16 = self.a as u16 + value as u16 + carry_in;
        let result = low_byte_of(sum);
        proof {
            lemma_sign_bits(self.a, value, result);
        }
        let overflow = (self.a ^ result) & (value ^ result) & 0x80 != 0;
        self.a = result;
        self.assign_flag(FLAG_CARRY, sum > 0xFF);
        self.assign_flag(FLAG_OVERFLOW, overflow);
        self.update_zn(result);
    }

    /// Holds a register against a value.
    fn compare(&mut self, register: u8, value: u8)
        requires
            old(self).has_instruction_set(),
        ensures
            final(self).has_instruction_set(),
            final(self)@ == old(self)@.compared(register, value),
    {
        self.assign_flag(FLAG_CARRY, register >= value);
        self.update_zn(register.wrapping_sub(value));
    }

    /// Moves the program counter by the displacement, if the branch is taken.
    fn branch(&mut self, taken: bool)
        requires
            old(self).has_instruction_set(),
        ensures
            final(self).has_instruction_set(),
            final(self)@ == old(self)@.branched(taken),
    {
        if taken {
            self.pc = self.pc.wrapping_add(self.relative_addr);
        }
    }

    /// Puts the result of a shift where the operand came from.
    fn store_shifted(&mut self, bus: &mut BUS, result: u8, carry_out: bool)
        requires
            old(self).has_instruction_set(),
            old(bus).wf(),
        ensures
            final(self).has_instruction_set(),
            final(bus).wf(),
            final(self)@ == old(self)@.shift_stored(old(bus)@, result, carry_out).cpu,
            final(bus)@ == old(self)@.shift_stored(old(bus)@, result, carry_out).bus,
    {
        self.assign_flag(FLAG_CARRY, carry_out);
        self.update_zn(result);
        if self.entry().mode == AddressingMode::Imp {
            self.a = result;
        } else {
            self.write(bus, self.absolute_addr, result);
        }
    }

    /// Enters the handler that a vector names.
    fn interrupt(&mut self, bus: &mut BUS, vector: u16, cycles: u8)
        requires
            old(self).has_instruction_set(),
            old(bus).wf(),
        ensures
            final(self).has_instruction_set(),
            final(bus).wf(),
            final(self)@ == old(self)@.interrupted(old(bus)@, vector, cycles).cpu,
            final(bus)@ == old(self)@.interrupted(old(bus)@, vector, cycles).bus,
    {
        self.clear_flag(FLAG_BREAK);
        self.set_flag(FLAG_UNUSED);
        self.set_flag(FLAG_INTERRUPT);
        self.push_word(bus, self.pc);
        self.push(bus, self.status_flags);
        self.absolute_addr = vector;
        self.pc = self.read_word(bus, vector);
        self.cycles = cycles;
    }

    /// Finds the operand in the given addressing mode.
    pub fn resolve(&mut self, mode: AddressingMode, bus: &BUS) -> (crossing: u8)
        requires
            old(self).has_instruction_set(),
            bus.wf(),
        ensures
            final(self).has_instruction_set(),
            final(self)@ == old(self)@.addressed(mode, bus@),
            crossing == old(self)@.crossing(mode, bus@),
            crossing <= 1,
            final(self)@.cycles == old(self)@.cycles,
            final(self)@.opcode == old(self)@.opcode,
    {
        match mode {
            AddressingMode::Imp => self.addrmode_imp(),
            AddressingMode::Imm => self.addrmode_imm(),
            AddressingMode::Zp0 => self.addrmode_zp0(bus),
            AddressingMode::Zpx => self.addrmode_zpx(bus),
            AddressingMode::Zpy => self.addrmode_zpy(bus),
            AddressingMode::Rel => self.addrmode_rel(bus),
            AddressingMode::Abs => self.addrmode_abs(bus),
            AddressingMode::Abx => self.addrmode_abx(bus),
            AddressingMode::Aby => self.addrmode_aby(bus),
            AddressingMode::Ind => self.addrmode_ind(bus),
            AddressingMode::Izx => self.addrmode_izx(bus),
            AddressingMode::Izy => self.addrmode_izy(bus),
            AddressingMode::Xxx => self.addrmode_xxx(),
        }
    }

    /// Carries out the given operation on the operand found.
    pub fn execute(&mut self, operation: Operation, bus: &mut BUS) -> (honors: u8)
        requires
            old(self).has_instruction_set(),
            old(bus).wf(),
        ensures
            final(self).has_instruction_set(),
            final(bus).wf(),
            final(self)@ == old(self)@.executed(operation, old(bus)@).cpu,
            final(bus)@ == old(self)@.executed(operation, old(bus)@).bus,
            honors == honors_crossing(operation),
            final(self)@.cycles == old(self)@.cycles,
            final(self)@.opcode == old(self)@.opcode,
    {
        proof {
            reveal(CpuState::executed);
        }
        match operation {
            Operation::Adc => self.ins_adc(bus),
            Operation::And => self.ins_and(bus),
            Operation::Asl => self.ins_asl(bus),
            Operation::Bcc => self.ins_bcc(),
            Operation::Bcs => self.ins_bcs(),
            Operation::Beq => self.ins_beq(),
            Operation::Bit => self.ins_bit(bus),
            Operation::Bmi => self.ins_bmi(),
            Operation::Bne => self.ins_bne(),
            Operation::Bpl => self.ins_bpl(),
            Operation::Brk => self.ins_brk(bus),
            Operation::Bvc => self.ins_bvc(),
            Operation::Bvs => self.ins_bvs(),
            Operation::Clc => self.ins_clc(),
            Operation::Cld => self.ins_cld(),
            Operation::Cli => self.ins_cli(),
            Operation::Clv => self.ins_clv(),
            Operation::Cmp => self.ins_cmp(bus),
            Operation::Cpx => self.ins_cpx(bus),
            Operation::Cpy => self.ins_cpy(bus),
            Operation::Dec => self.ins_dec(bus),
            Operation::Dex => self.ins_dex(),
            Operation::Dey => self.ins_dey(),
            Operation::Eor => self.ins_eor(bus),
            Operation::Inc => self.ins_inc(bus),
            Operation::Inx => self.ins_inx(),
            Operation::Iny => self.ins_iny(),
            Operation::Jmp => self.ins_jmp(),
            Operation::Jsr => self.ins_jsr(bus),
            Operation::Lda => self.ins_lda(bus),
            Operation::Ldx => self.ins_ldx(bus),
            Operation::Ldy => self.ins_ldy(bus),
            Operation::Lsr => self.ins_lsr(bus),
            Operation::Nop => self.ins_nop(),
            Operation::Ora => self.ins_ora(bus),
            Operation::Pha => self.ins_pha(bus),
            Operation::Php => self.ins_php(bus),
            Operation::Pla => self.ins_pla(bus),
            Operation::Plp => self.ins_plp(bus),
            Operation::Rol => self.ins_rol(bus),
            Operation::Ror => self.ins_ror(bus),
            Operation::Rti => self.ins_rti(bus),
            Operation::Rts => self.ins_rts(bus),
            Operation::Sbc => self.ins_sbc(bus),
            Operation::Sec => self.ins_sec(),
            Operation::Sed => self.ins_sed(),
            Operation::Sei => self.ins_sei(),
            Operation::Sta => self.ins_sta(bus),
            Operation::Stx => self.ins_stx(bus),
            Operation::Sty => self.ins_sty(bus),
            Operation::Tax => self.ins_tax(),
            Operation::Tay => self.ins_tay(),
            Operation::Tsx => self.ins_tsx(),
            Operation::Txa => self.ins_txa(),
            Operation::Txs => self.ins_txs(),
            Operation::Tya => self.ins_tya(),
            Operation::Xxx => self.ins_xxx(),
        }
    }

    /// Carries out the instruction whose opcode was fetched, and reports
    /// its fault if it has one.
    pub fn dispatch(&mut self, bus: &mut BUS) -> (fault: Option<Fault>)
        requires
            old(self).has_instruction_set(),
            old(bus).wf(),
        ensures
            final(self).has_instruction_set(),
            final(bus).wf(),
            final(self)@ == old(self)@.dispatched(old(bus)@).cpu,
            final(bus)@ == old(self)@.dispatched(old(bus)@).bus,
            fault == fault_of(old(self)@.opcode),
            2 <= final(self)@.cycles <= 9,
    {
        proof {
            lemma_base_cycles_bounds(self.opcode);
        }
        let mode = self.entry().mode;
        let operation = self.entry().operation;
        self.cycles = self.entry().cycles;
        let crossing = self.resolve(mode, bus);
        let honors = self.execute(operation, bus);
        proof {
            law_extra_cycle_needs_both(crossing, honors);
        }
        self.cycles += crossing & honors;
        if mode == AddressingMode::Xxx {
            Some(Fault::IllegalAddressingMode(self.opcode))
        } else if operation == Operation::Xxx {
            Some(Fault::IllegalOpcode(self.opcode))
        } else {
            None
        }
    }
}

impl ICPU for CPU {
    open spec fn wf(&self) -> bool {
        self.has_instruction_set()
    }

    fn read(&self, bus: &BUS, addr: u16) -> (data: u8) {
        bus.read(addr, true)
    }

    fn write(&mut self, bus: &mut BUS, addr: u16, data: u8) {
        bus.write(addr, data);
    }

    fn set_flag(&mut self, status_flag: u8) {
        self.status_flags |= status_flag;
    }

    fn clear_flag(&mut self, status_flag: u8) {
        self.status_flags &= !status_flag;
    }

    fn fetch(&mut self, bus: &BUS) -> (data: u8) {
        if self.entry().mode != AddressingMode::Imp {
            self.last_fetched = self.read(bus, self.absolute_addr);
        }
        self.last_fetched
    }

    fn clock(&mut self, bus: &mut BUS) -> (fault: Option<Fault>) {
        proof {
            reveal(CpuState::clocked);
        }
        let mut fault: Option<Fault> = None;
        if self.cycles == 0 {
            self.opcode = self.read(bus, self.pc);
            self.pc = self.pc.wrapping_add(1);
            fault = self.dispatch(bus);
        }
        self.cycles -= 1;
        fault
    }

    fn reset(&mut self, bus: &BUS) {
        self.pc = self.read_word(bus, RESET_VECTOR);
        self.a = 0;
        self.x = 0;
        self.y = 0;
        self.sp = RESET_STACK_POINTER;
        self.status_flags = FLAG_UNUSED;
        self.last_fetched = 0;
        self.absolute_addr = 0;
        self.relative_addr = 0;
        self.opcode = 0;
        self.cycles = RESET_CYCLES;
    }

    fn irq(&mut self, bus: &mut BUS) {
        if !flag_set(self.status_flags, FLAG_INTERRUPT) {
            self.interrupt(bus, IRQ_VECTOR, IRQ_CYCLES);
        }
    }

    fn nmi(&mut self, bus: &mut BUS) {
        self.interrupt(bus, NMI_VECTOR, NMI_CYCLES);
    }

    fn ins_adc(&mut self, bus: &BUS) -> (honors: u8) {
        let value = self.fetch(bus);
        self.add(value);
        1
    }

    fn ins_and(&mut self, bus: &BUS) -> (honors: u8) {
        let value = self.fetch(bus);
        self.a = self.a & value;
        self.update_zn(self.a);
        1
    }

    fn ins_asl(&mut self, bus: &mut BUS) -> (honors: u8) {
        let value = self.fetch(bus);
        proof {
            lemma_shift_left(value, 0);
        }
        self.store_shifted(bus, value << 1, value >= 0x80);
        0
    }

    fn ins_bcc(&mut self) -> (honors: u8) {
        self.branch(!flag_set(self.status_flags, FLAG_CARRY));
        0
    }

    fn ins_bcs(&mut self) -> (honors: u8) {
        self.branch(flag_set(self.status_flags, FLAG_CARRY));
        0
    }

    fn ins_beq(&mut self) -> (honors: u8) {
        self.branch(flag_set(self.status_flags, FLAG_ZERO));
        0
    }

    fn ins_bit(&mut self, bus: &BUS) -> (honors: u8) {
        let value = self.fetch(bus);
        self.assign_flag(FLAG_ZERO, self.a & value == 0);
        self.assign_flag(FLAG_NEGATIVE, flag_set(value, FLAG_NEGATIVE));
        self.assign_flag(FLAG_OVERFLOW, flag_set(value, FLAG_OVERFLOW));
        0
    }

    fn ins_bmi(&mut self) -> (honors: u8) {
        self.branch(flag_set(self.status_flags, FLAG_NEGATIVE));
        0
    }

    fn ins_bne(&mut self) -> (honors: u8) {
        self.branch(!flag_set(self.status_flags, FLAG_ZERO));
        0
    }

    fn ins_bpl(&mut self) -> (honors: u8) {
        self.branch(!flag_set(self.status_flags, FLAG_NEGATIVE));
        0
    }

    fn ins_brk(&mut self, bus: &mut BUS) -> (honors: u8) {
        let return_to = self.pc.wrapping_add(1);
        self.set_flag(FLAG_INTERRUPT);
        self.push_word(bus, return_to);
        self.push(bus, (self.status_flags | FLAG_BREAK) | FLAG_UNUSED);
        self.clear_flag(FLAG_BREAK);
        self.pc = self.read_word(bus, IRQ_VECTOR);
        0
    }

    fn ins_bvc(&mut self) -> (honors: u8) {
        self.branch(!flag_set(self.status_flags, FLAG_OVERFLOW));
        0
    }

    fn ins_bvs(&mut self) -> (honors: u8) {
        self.branch(flag_set(self.status_flags, FLAG_OVERFLOW));
        0
    }

    fn ins_clc(&mut self) -> (honors: u8) {
        self.clear_flag(FLAG_CARRY);
        0
    }

    fn ins_cld(&mut self) -> (honors: u8) {
        self.clear_flag(FLAG_DECIMAL);
        0
    }

    fn ins_cli(&mut self) -> (honors: u8) {
        self.clear_flag(FLAG_INTERRUPT);
        0
    }

    fn ins_clv(&mut self) -> (honors: u8) {
        self.clear_flag(FLAG_OVERFLOW);
        0
    }

    fn ins_cmp(&mut self, bus: &BUS) -> (honors: u8) {
        let value = self.fetch(bus);
        self.compare(self.a, value);
        1
    }

    fn ins_cpx(&mut self, bus: &BUS) -> (honors: u8) {
        let value = self.fetch(bus);
        self.compare(self.x, value);
        0
    }

    fn ins_cpy(&mut self, bus: &BUS) -> (honors: u8) {
        let value = self.fetch(bus);
        self.compare(self.y, value);
        0
    }

    fn ins_dec(&mut self, bus: &mut BUS) -> (honors: u8) {
        let result = self.fetch(bus).wrapping_sub(1);
        self.write(bus, self.absolute_addr, result);
        self.update_zn(result);
        0
    }

    fn ins_dex(&mut self) -> (honors: u8) {
        self.x = self.x.wrapping_sub(1);
        self.update_zn(self.x);
        0
    }

    fn ins_dey(&mut self) -> (honors: u8) {
        self.y = self.y.wrapping_sub(1);
        self.update_zn(self.y);
        0
    }

    fn ins_eor(&mut self, bus: &BUS) -> (honors: u8) {
        let value = self.fetch(bus);
        self.a = self.a ^ value;
        self.update_zn(self.a);
        1
    }

    fn ins_inc(&mut self, bus: &mut BUS) -> (honors: u8) {
        let result = self.fetch(bus).wrapping_add(1);
        self.write(bus, self.absolute_addr, result);
        self.update_zn(result);
        0
    }

    fn ins_inx(&mut self) -> (honors: u8) {
        self.x = self.x.wrapping_add(1);
        self.update_zn(self.x);
        0
    }

    fn ins_iny(&mut self) -> (honors: u8) {
        self.y = self.y.wrapping_add(1);
        self.update_zn(self.y);
        0
    }

    fn ins_jmp(&mut self) -> (honors: u8) {
        self.pc = self.absolute_addr;
        0
    }

    fn ins_jsr(&mut self, bus: &mut BUS) -> (honors: u8) {
        let return_to = self.pc.wrapping_sub(1);
        self.push_word(bus, return_to);
        self.pc = self.absolute_addr;
        0
    }

    fn ins_lda(&mut self, bus: &BUS) -> (honors: u8) {
        self.a = self.fetch(bus);
        self.update_zn(self.a);
        1
    }

    fn ins_ldx(&mut self, bus: &BUS) -> (honors: u8) {
        self.x = self.fetch(bus);
        self.update_zn(self.x);
        1
    }

    fn ins_ldy(&mut self, bus: &BUS) -> (honors: u8) {
        self.y = self.fetch(bus);
        self.update_zn(self.y);
        1
    }

    fn ins_lsr(&mut self, bus: &mut BUS) -> (honors: u8) {
        let value = self.fetch(bus);
        proof {
            lemma_shift_right(value, 0);
        }
        self.store_shifted(bus, value >> 1, value & 0x01 != 0);
        0
    }

    fn ins_nop(&mut self) -> (honors: u8) {
        0
    }

    fn ins_ora(&mut self, bus: &BUS) -> (honors: u8) {
        let value = self.fetch(bus);
        self.a = self.a | value;
        self.update_zn(self.a);
        1
    }

    fn ins_pha(&mut self, bus: &mut BUS) -> (honors: u8) {
        self.push(bus, self.a);
        0
    }

    fn ins_php(&mut self, bus: &mut BUS) -> (honors: u8) {
        let pushed = (self.status_flags | FLAG_BREAK) | FLAG_UNUSED;
        self.clear_flag(FLAG_BREAK);
        self.clear_flag(FLAG_UNUSED);
        self.push(bus, pushed);
        0
    }

    fn ins_pla(&mut self, bus: &BUS) -> (honors: u8) {
        self.a = self.pull(bus);
        self.update_zn(self.a);
        0
    }

    fn ins_plp(&mut self, bus: &BUS) -> (honors: u8) {
        self.status_flags = self.pull(bus);
        self.set_flag(FLAG_UNUSED);
        0
    }

    fn ins_rol(&mut self, bus: &mut BUS) -> (honors: u8) {
        let value = self.fetch(bus);
        let carry_in: u8 = if flag_set(self.status_flags, FLAG_CARRY) {
            1
        } else {
            0
        };
        proof {
            lemma_shift_left(value, carry_in);
        }
        self.store_shifted(bus, (value << 1) | carry_in, value >= 0x80);
        0
    }

    fn ins_ror(&mut self, bus: &mut BUS) -> (honors: u8) {
        let value = self.fetch(bus);
        let carry_in: u8 = if flag_set(self.status_flags, FLAG_CARRY) {
            1
        } else {
            0
        };
        proof {
            lemma_shift_right(value, carry_in);
        }
        self.store_shifted(bus, (value >> 1) | (carry_in << 7), value & 0x01 != 0);
        0
    }

    fn ins_rti(&mut self, bus: &BUS) -> (honors: u8) {
        self.status_flags = self.pull(bus);
        self.clear_flag(FLAG_BREAK);
        self.clear_flag(FLAG_UNUSED);
        let lo = self.pull(bus);
        let hi = self.pull(bus);
        self.pc = make_word(lo, hi);
        0
    }

    fn ins_rts(&mut self, bus: &BUS) -> (honors: u8) {
        let lo = self.pull(bus);
        let hi = self.pull(bus);
        self.pc = make_word(lo, hi).wrapping_add(1);
        0
    }

    fn ins_sbc(&mut self, bus: &BUS) -> (honors: u8) {
        let value = self.fetch(bus);
        proof {
            lemma_complement(value);
        }
        self.add(value ^ 0xFF);
        1
    }

    fn ins_sec(&mut self) -> (honors: u8) {
        self.set_flag(FLAG_CARRY);
        0
    }

    fn ins_sed(&mut self) -> (honors: u8) {
        self.set_flag(FLAG_DECIMAL);
        0
    }

    fn ins_sei(&mut self) -> (honors: u8) {
        self.set_flag(FLAG_INTERRUPT);
        0
    }

    fn ins_sta(&mut self, bus: &mut BUS) -> (honors: u8) {
        self.write(bus, self.absolute_addr, self.a);
        0
    }

    fn ins_stx(&mut self, bus: &mut BUS) -> (honors: u8) {
        self.write(bus, self.absolute_addr, self.x);
        0
    }

    fn ins_sty(&mut self, bus: &mut BUS) -> (honors: u8) {
        self.write(bus, self.absolute_addr, self.y);
        0
    }

    fn ins_tax(&mut self) -> (honors: u8) {
        self.x = self.a;
        self.update_zn(self.x);
        0
    }

    fn ins_tay(&mut self) -> (honors: u8) {
        self.y = self.a;
        self.update_zn(self.y);
        0
    }

    fn ins_tsx(&mut self) -> (honors: u8) {
        self.x = self.sp;
        self.update_zn(self.x);
        0
    }

    fn ins_txa(&mut self) -> (honors: u8) {
        self.a = self.x;
        self.update_zn(self.a);
        0
    }

    fn ins_txs(&mut self) -> (honors: u8) {
        self.sp = self.x;
        0
    }

    fn ins_tya(&mut self) -> (honors: u8) {
        self.a = self.y;
        self.update_zn(self.a);
        0
    }

    fn ins_xxx(&mut self) -> (honors: u8) {
        0
    }

    fn addrmode_imp(&mut self) -> (crossing: u8) {
        self.last_fetched = self.a;
        0
    }

    fn addrmode_zp0(&mut self, bus: &BUS) -> (crossing: u8) {
        self.absolute_addr = self.read(bus, self.pc) as u16;
        self.pc = self.pc.wrapping_add(1);
        0
    }

    fn addrmode_zpy(&mut self, bus: &BUS) -> (crossing: u8) {
        self.absolute_addr = self.read(bus, self.pc).wrapping_add(self.y) as u16;
        self.pc = self.pc.wrapping_add(1);
        0
    }

    fn addrmode_abs(&mut self, bus: &BUS) -> (crossing: u8) {
        self.absolute_addr = self.read_word(bus, self.pc);
        self.pc = self.pc.wrapping_add(2);
        0
    }

    fn addrmode_aby(&mut self, bus: &BUS) -> (crossing: u8) {
        let base = self.read_word(bus, self.pc);
        self.pc = self.pc.wrapping_add(2);
        self.absolute_addr = base.wrapping_add(self.y as u16);
        if pages_differ(self.absolute_addr, base) {
            1
        } else {
            0
        }
    }

    fn addrmode_izx(&mut self, bus: &BUS) -> (crossing: u8) {
        let pointer = self.read(bus, self.pc).wrapping_add(self.x);
        self.pc = self.pc.wrapping_add(1);
        let lo = self.read(bus, pointer as u16);
        let hi = self.read(bus, pointer.wrapping_add(1) as u16);
        self.absolute_addr = make_word(lo, hi);
        0
    }

    fn addrmode_imm(&mut self) -> (crossing: u8) {
        self.absolute_addr = self.pc;
        self.pc = self.pc.wrapping_add(1);
        0
    }

    fn addrmode_zpx(&mut self, bus: &BUS) -> (crossing: u8) {
        self.absolute_addr = self.read(bus, self.pc).wrapping_add(self.x) as u16;
        self.pc = self.pc.wrapping_add(1);
        0
    }

    fn addrmode_rel(&mut self, bus: &BUS) -> (crossing: u8) {
        self.relative_addr = sign_extend(self.read(bus, self.pc));
        self.pc = self.pc.wrapping_add(1);
        0
    }

    fn addrmode_abx(&mut self, bus: &BUS) -> (crossing: u8) {
        let base = self.read_word(bus, self.pc);
        self.pc = self.pc.wrapping_add(2);
        self.absolute_addr = base.wrapping_add(self.x as u16);
        if pages_differ(self.absolute_addr, base) {
            1
        } else {
            0
        }
    }

    fn addrmode_ind(&mut self, bus: &BUS) -> (crossing: u8) {
        let pointer = self.read_word(bus, self.pc);
        self.pc = self.pc.wrapping_add(2);
        let lo = self.read(bus, pointer);
        let hi = if low_byte_of(pointer) == 0xFF {
            self.read(bus, pointer - 0x00FF)
        } else {
            self.read(bus, pointer + 1)
        };
        self.absolute_addr = make_word(lo, hi);
        0
    }

    fn addrmode_izy(&mut self, bus: &BUS) -> (crossing: u8) {
        let pointer = self.read(bus, self.pc);
        self.pc = self.pc.wrapping_add(1);
        let lo = self.read(bus, pointer as u16);
        let hi = self.read(bus, pointer.wrapping_add(1) as u16);
        let base = make_word(lo, hi);
        self.absolute_addr = base.wrapping_add(self.y as u16);
        if pages_differ(self.absolute_addr, base) {
            1
        } else {
            0
        }
    }

    fn addrmode_xxx(&mut self) -> (crossing: u8) {
        0
    }
}

} // verus!
