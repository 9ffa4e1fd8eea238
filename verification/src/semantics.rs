//! What the processor does, as functions from state to state.
//!
//! Every function here is a specification: the processor's operations are
//! held to them one by one.

use vstd::prelude::*;
use crate::instruction::{
    AddressingMode,
    Fault,
    Operation,
    base_cycles,
    fault_of,
    lemma_base_cycles_bounds,
    mode_of,
    operation_of,
};
use crate::state::{BusState, CpuState, Machine, lemma_poke_keeps};
use crate::status::{
    FLAG_BREAK,
    FLAG_CARRY,
    FLAG_DECIMAL,
    FLAG_INTERRUPT,
    FLAG_NEGATIVE,
    FLAG_OVERFLOW,
    FLAG_UNUSED,
    FLAG_ZERO,
    flag,
    high_byte,
    low_byte,
    sign_extended,
    signed,
    is_flag,
    law_flag_leaves_others,
    law_flag_reads_back,
    law_zn_tells_the_result,
    with_flag,
    with_zn,
    word,
};

verus! {

/// The page that holds the stack.
pub const STACK_PAGE: u16 = 0x0100;

/// Where the address of the non-maskable interrupt's handler is kept.
pub const NMI_VECTOR: u16 = 0xFFFA;

/// Where the address of the program's start is kept.
pub const RESET_VECTOR: u16 = 0xFFFC;

/// Where the address of the interrupt handler is kept.
pub const IRQ_VECTOR: u16 = 0xFFFE;

/// The stack pointer after a reset.
pub const RESET_STACK_POINTER: u8 = 0xFD;

/// The cycles a reset takes.
pub const RESET_CYCLES: u8 = 8;

/// The cycles an interrupt request takes.
pub const IRQ_CYCLES: u8 = 7;

/// The cycles a non-maskable interrupt takes.
pub const NMI_CYCLES: u8 = 8;

/// Whether an operation pays for a page that its addressing mode crossed.
pub open spec fn honors_crossing(operation: Operation) -> u8 {
    match operation {
        Operation::Adc
        | Operation::And
        | Operation::Cmp
        | Operation::Eor
        | Operation::Lda
        | Operation::Ldx
        | Operation::Ldy
        | Operation::Ora
        | Operation::Sbc => 1,
        _ => 0,
    }
}

/// The extra cycle of an instruction: one where the addressing mode reports
/// a page crossed and the operation pays for it.
pub open spec fn extra_cycle(crossing: u8, honors: u8) -> u8 {
    crossing & honors
}

impl CpuState {
    /// The state at power-on: everything zero.
    pub open spec fn power_on() -> CpuState {
        CpuState {
            a: 0,
            x: 0,
            y: 0,
            pc: 0,
            sp: 0,
            status_flags: 0,
            last_fetched: 0,
            absolute_addr: 0,
            relative_addr: 0,
            opcode: 0,
            cycles: 0,
        }
    }

    /// The state with one flag set or cleared.
    pub open spec fn flagged(self, mask: u8, on: bool) -> CpuState {
        CpuState { status_flags: with_flag(self.status_flags, mask, on), ..self }
    }

    /// The state with Zero and Negative set by a result.
    pub open spec fn zn(self, value: u8) -> CpuState {
        CpuState { status_flags: with_zn(self.status_flags, value), ..self }
    }

    /// The carry flag as a number.
    pub open spec fn carry(self) -> int {
        if flag(self.status_flags, FLAG_CARRY) {
            1
        } else {
            0
        }
    }

    /// The address that the stack pointer names.
    pub open spec fn stack_slot(self) -> u16 {
        (STACK_PAGE + self.sp) as u16
    }

    /// The state after a pull: the stack pointer one up, within its page.
    /// What was pulled is the byte in the slot that it then names.
    pub open spec fn pulled(self) -> CpuState {
        CpuState { sp: self.sp.wrapping_add(1), ..self }
    }

    // Addressing modes.

    /// Implied: the operand is the accumulator.
    pub open spec fn imp(self) -> CpuState {
        CpuState { last_fetched: self.a, ..self }
    }

    /// Immediate: the operand is the byte at the program counter.
    pub open spec fn imm(self) -> CpuState {
        CpuState { absolute_addr: self.pc, pc: self.pc.wrapping_add(1), ..self }
    }

    /// Zero page: the byte at the program counter is the address.
    pub open spec fn zp0(self, bus: BusState) -> CpuState {
        CpuState {
            absolute_addr: bus.peek(self.pc) as u16,
            pc: self.pc.wrapping_add(1),
            ..self
        }
    }

    /// Zero page indexed: the byte at the program counter plus an index,
    /// kept within the zero page.
    pub open spec fn zp_indexed(self, bus: BusState, index: u8) -> CpuState {
        CpuState {
            absolute_addr: ((bus.peek(self.pc) + index) % 0x100) as u16,
            pc: self.pc.wrapping_add(1),
            ..self
        }
    }

    /// Relative: the byte at the program counter is a signed displacement.
    pub open spec fn rel(self, bus: BusState) -> CpuState {
        CpuState {
            relative_addr: sign_extended(bus.peek(self.pc)),
            pc: self.pc.wrapping_add(1),
            ..self
        }
    }

    /// Absolute: the word at the program counter is the address.
    pub open spec fn abs(self, bus: BusState) -> CpuState {
        CpuState {
            absolute_addr: bus.peek_word(self.pc),
            pc: self.pc.wrapping_add(2),
            ..self
        }
    }

    /// Absolute indexed: the word at the program counter plus an index.
    pub open spec fn abs_indexed(self, bus: BusState, index: u8) -> CpuState {
        CpuState {
            absolute_addr: bus.peek_word(self.pc).wrapping_add(index as u16),
            pc: self.pc.wrapping_add(2),
            ..self
        }
    }

    /// Whether adding an index to the word at the program counter leaves
    /// that word's page.
    pub open spec fn abs_indexed_crossing(self, bus: BusState, index: u8) -> u8 {
        if high_byte(bus.peek_word(self.pc).wrapping_add(index as u16)) != high_byte(
            bus.peek_word(self.pc),
        ) {
            1
        } else {
            0
        }
    }

    /// Where the indirect mode reads the high byte of the address: behind
    /// the low byte, but never in the next page. A pointer at the end of a
    /// page has its high byte at the start of the same page, as the
    /// hardware has it.
    pub open spec fn ind_high_slot(pointer: u16) -> u16 {
        if low_byte(pointer) == 0xFF {
            (pointer - 0xFF) as u16
        } else {
            (pointer + 1) as u16
        }
    }

    /// Indirect: the word at the program counter points at the address.
    pub open spec fn ind(self, bus: BusState) -> CpuState {
        let pointer = bus.peek_word(self.pc);
        CpuState {
            absolute_addr: word(bus.peek(pointer), bus.peek(Self::ind_high_slot(pointer))),
            pc: self.pc.wrapping_add(2),
            ..self
        }
    }

    /// Indexed indirect: the byte at the program counter plus X points,
    /// within the zero page, at the address.
    pub open spec fn izx(self, bus: BusState) -> CpuState {
        let base = bus.peek(self.pc);
        CpuState {
            absolute_addr: word(
                bus.peek(((base + self.x) % 0x100) as u16),
                bus.peek(((base + self.x + 1) % 0x100) as u16),
            ),
            pc: self.pc.wrapping_add(1),
            ..self
        }
    }

    /// The word that the byte at the program counter points at, within the
    /// zero page.
    pub open spec fn izy_base(self, bus: BusState) -> u16 {
        let pointer = bus.peek(self.pc);
        word(bus.peek(pointer as u16), bus.peek(((pointer + 1) % 0x100) as u16))
    }

    /// Indirect indexed: the address is Y behind the word that the byte at
    /// the program counter points at.
    pub open spec fn izy(self, bus: BusState) -> CpuState {
        CpuState {
            absolute_addr: self.izy_base(bus).wrapping_add(self.y as u16),
            pc: self.pc.wrapping_add(1),
            ..self
        }
    }

    /// Whether adding Y in the indirect indexed mode leaves the page.
    pub open spec fn izy_crossing(self, bus: BusState) -> u8 {
        if high_byte(self.izy_base(bus).wrapping_add(self.y as u16)) != high_byte(
            self.izy_base(bus),
        ) {
            1
        } else {
            0
        }
    }

    /// The state after an addressing mode has found the operand.
    pub open spec fn addressed(self, mode: AddressingMode, bus: BusState) -> CpuState {
        match mode {
            AddressingMode::Imp => self.imp(),
            AddressingMode::Imm => self.imm(),
            AddressingMode::Zp0 => self.zp0(bus),
            AddressingMode::Zpx => self.zp_indexed(bus, self.x),
            AddressingMode::Zpy => self.zp_indexed(bus, self.y),
            AddressingMode::Rel => self.rel(bus),
            AddressingMode::Abs => self.abs(bus),
            AddressingMode::Abx => self.abs_indexed(bus, self.x),
            AddressingMode::Aby => self.abs_indexed(bus, self.y),
            AddressingMode::Ind => self.ind(bus),
            AddressingMode::Izx => self.izx(bus),
            AddressingMode::Izy => self.izy(bus),
            AddressingMode::Xxx => self,
        }
    }

    /// What an addressing mode reports: 1 where adding the index changed
    /// the high byte of the address, 0 otherwise and in every mode without
    /// a 16-bit index.
    pub open spec fn crossing(self, mode: AddressingMode, bus: BusState) -> u8 {
        match mode {
            AddressingMode::Abx => self.abs_indexed_crossing(bus, self.x),
            AddressingMode::Aby => self.abs_indexed_crossing(bus, self.y),
            AddressingMode::Izy => self.izy_crossing(bus),
            _ => 0,
        }
    }

    // Operands.

    /// The operand of the instruction in flight: the accumulator as the
    /// implied mode left it, or the byte at the address found.
    pub open spec fn operand(self, bus: BusState) -> u8 {
        if mode_of(self.opcode) == AddressingMode::Imp {
            self.last_fetched
        } else {
            bus.peek(self.absolute_addr)
        }
    }

    /// The state with the operand fetched.
    pub open spec fn fetched(self, bus: BusState) -> CpuState {
        CpuState { last_fetched: self.operand(bus), ..self }
    }

    // Arithmetic.

    /// The accumulator plus a value plus the carry. Carry says that the sum
    /// does not fit a byte, Overflow that the sum of the signed numbers does
    /// not fit a signed byte.
    pub open spec fn added(self, value: u8) -> CpuState {
        let sum = self.a + value + self.carry();
        let signed_sum = signed(self.a) + signed(value) + self.carry();
        let result = (sum % 0x100) as u8;
        CpuState { a: result, ..self }.flagged(FLAG_CARRY, sum > 0xFF).flagged(
            FLAG_OVERFLOW,
            !(-128 <= signed_sum <= 127),
        ).zn(result)
    }

    /// The operand is added to the accumulator, with the carry.
    pub open spec fn adc(self, bus: BusState) -> CpuState {
        self.fetched(bus).added(self.operand(bus))
    }

    /// The accumulator minus the operand minus the borrow, which is the
    /// carry turned round. Carry says that nothing was borrowed, Overflow
    /// that the difference of the signed numbers does not fit a signed byte.
    pub open spec fn sbc(self, bus: BusState) -> CpuState {
        let value = self.operand(bus);
        let difference = self.a - value - (1 - self.carry());
        let signed_difference = signed(self.a) - signed(value) - (1 - self.carry());
        let result = (difference % 0x100) as u8;
        CpuState { a: result, ..self.fetched(bus) }.flagged(FLAG_CARRY, difference >= 0).flagged(
            FLAG_OVERFLOW,
            !(-128 <= signed_difference <= 127),
        ).zn(result)
    }

    /// A register held against a value: Carry says the register is at least
    /// the value, Zero that they are equal, Negative is the top bit of the
    /// difference.
    pub open spec fn compared(self, register: u8, value: u8) -> CpuState {
        self.flagged(FLAG_CARRY, register >= value).zn(register.wrapping_sub(value))
    }

    /// The accumulator held against the operand.
    pub open spec fn compare_a(self, bus: BusState) -> CpuState {
        self.fetched(bus).compared(self.a, self.operand(bus))
    }

    /// X held against the operand.
    pub open spec fn compare_x(self, bus: BusState) -> CpuState {
        self.fetched(bus).compared(self.x, self.operand(bus))
    }

    /// Y held against the operand.
    pub open spec fn compare_y(self, bus: BusState) -> CpuState {
        self.fetched(bus).compared(self.y, self.operand(bus))
    }

    // Logic.

    /// The accumulator keeps the bits that the operand has too.
    pub open spec fn and(self, bus: BusState) -> CpuState {
        let result = self.a & self.operand(bus);
        CpuState { a: result, ..self.fetched(bus) }.zn(result)
    }

    /// The accumulator gains the bits of the operand.
    pub open spec fn ora(self, bus: BusState) -> CpuState {
        let result = self.a | self.operand(bus);
        CpuState { a: result, ..self.fetched(bus) }.zn(result)
    }

    /// The accumulator keeps the bits in which it differs from the operand.
    pub open spec fn eor(self, bus: BusState) -> CpuState {
        let result = self.a ^ self.operand(bus);
        CpuState { a: result, ..self.fetched(bus) }.zn(result)
    }

    /// Zero says that the accumulator and the operand share no bit;
    /// Negative and Overflow are the operand's two top bits.
    pub open spec fn bit(self, bus: BusState) -> CpuState {
        let value = self.operand(bus);
        self.fetched(bus).flagged(FLAG_ZERO, self.a & value == 0).flagged(
            FLAG_NEGATIVE,
            flag(value, FLAG_NEGATIVE),
        ).flagged(FLAG_OVERFLOW, flag(value, FLAG_OVERFLOW))
    }

    // Loads, transfers, counting.

    /// The operand goes to the accumulator.
    pub open spec fn lda(self, bus: BusState) -> CpuState {
        CpuState { a: self.operand(bus), ..self.fetched(bus) }.zn(self.operand(bus))
    }

    /// The operand goes to X.
    pub open spec fn ldx(self, bus: BusState) -> CpuState {
        CpuState { x: self.operand(bus), ..self.fetched(bus) }.zn(self.operand(bus))
    }

    /// The operand goes to Y.
    pub open spec fn ldy(self, bus: BusState) -> CpuState {
        CpuState { y: self.operand(bus), ..self.fetched(bus) }.zn(self.operand(bus))
    }

    /// The accumulator goes to X.
    pub open spec fn tax(self) -> CpuState {
        CpuState { x: self.a, ..self }.zn(self.a)
    }

    /// The accumulator goes to Y.
    pub open spec fn tay(self) -> CpuState {
        CpuState { y: self.a, ..self }.zn(self.a)
    }

    /// The stack pointer goes to X.
    pub open spec fn tsx(self) -> CpuState {
        CpuState { x: self.sp, ..self }.zn(self.sp)
    }

    /// X goes to the accumulator.
    pub open spec fn txa(self) -> CpuState {
        CpuState { a: self.x, ..self }.zn(self.x)
    }

    /// The one transfer that leaves the flags alone.
    pub open spec fn txs(self) -> CpuState {
        CpuState { sp: self.x, ..self }
    }

    /// Y goes to the accumulator.
    pub open spec fn tya(self) -> CpuState {
        CpuState { a: self.y, ..self }.zn(self.y)
    }

    /// X counts up, round the byte.
    pub open spec fn inx(self) -> CpuState {
        CpuState { x: self.x.wrapping_add(1), ..self }.zn(self.x.wrapping_add(1))
    }

    /// Y counts up, round the byte.
    pub open spec fn iny(self) -> CpuState {
        CpuState { y: self.y.wrapping_add(1), ..self }.zn(self.y.wrapping_add(1))
    }

    /// X counts down, round the byte.
    pub open spec fn dex(self) -> CpuState {
        CpuState { x: self.x.wrapping_sub(1), ..self }.zn(self.x.wrapping_sub(1))
    }

    /// Y counts down, round the byte.
    pub open spec fn dey(self) -> CpuState {
        CpuState { y: self.y.wrapping_sub(1), ..self }.zn(self.y.wrapping_sub(1))
    }

    // Memory.

    /// A new value for the operand: Zero and Negative say what it is, and
    /// it goes where the operand came from.
    pub open spec fn rewritten(self, bus: BusState, result: u8) -> Machine {
        Machine { cpu: self.fetched(bus).zn(result), bus: bus.poke(self.absolute_addr, result) }
    }

    /// The operand counts up in memory, round the byte.
    pub open spec fn inc(self, bus: BusState) -> Machine {
        self.rewritten(bus, self.operand(bus).wrapping_add(1))
    }

    /// The operand counts down in memory, round the byte.
    pub open spec fn dec(self, bus: BusState) -> Machine {
        self.rewritten(bus, self.operand(bus).wrapping_sub(1))
    }

    /// The result of a shift put away, the operand fetched: the bit that
    /// fell out is the carry, Zero and Negative say what the result is, and
    /// it goes to the accumulator in the implied mode and to memory in
    /// every other.
    pub open spec fn shift_stored(self, bus: BusState, result: u8, carry_out: bool) -> Machine {
        let flags = self.flagged(FLAG_CARRY, carry_out).zn(result);
        if mode_of(self.opcode) == AddressingMode::Imp {
            Machine { cpu: CpuState { a: result, ..flags }, bus }
        } else {
            Machine { cpu: flags, bus: bus.poke(self.absolute_addr, result) }
        }
    }

    /// A shift of the operand with the given result and carry.
    pub open spec fn shifted(self, bus: BusState, result: u8, carry_out: bool) -> Machine {
        self.fetched(bus).shift_stored(bus, result, carry_out)
    }

    /// Every bit moves one place up, and a zero comes in.
    pub open spec fn asl(self, bus: BusState) -> Machine {
        let value = self.operand(bus);
        self.shifted(bus, ((value * 2) % 0x100) as u8, value >= 0x80)
    }

    /// Every bit moves one place down, and a zero comes in.
    pub open spec fn lsr(self, bus: BusState) -> Machine {
        let value = self.operand(bus);
        self.shifted(bus, value / 2, value % 2 == 1)
    }

    /// Every bit moves one place up, and the carry comes in.
    pub open spec fn rol(self, bus: BusState) -> Machine {
        let value = self.operand(bus);
        self.shifted(bus, ((value * 2) % 0x100 + self.carry()) as u8, value >= 0x80)
    }

    /// Every bit moves one place down, and the carry comes in.
    pub open spec fn ror(self, bus: BusState) -> Machine {
        let value = self.operand(bus);
        self.shifted(bus, (value / 2 + self.carry() * 0x80) as u8, value % 2 == 1)
    }

    /// The bus after the accumulator was stored at the address found.
    pub open spec fn sta(self, bus: BusState) -> BusState {
        bus.poke(self.absolute_addr, self.a)
    }

    /// The bus after X was stored at the address found.
    pub open spec fn stx(self, bus: BusState) -> BusState {
        bus.poke(self.absolute_addr, self.x)
    }

    /// The bus after Y was stored at the address found.
    pub open spec fn sty(self, bus: BusState) -> BusState {
        bus.poke(self.absolute_addr, self.y)
    }

    // Control.

    /// A branch: where it is taken, the program counter moves by the
    /// displacement; nothing else changes, and no cycle is charged for it.
    pub open spec fn branched(self, taken: bool) -> CpuState {
        if taken {
            CpuState { pc: self.pc.wrapping_add(self.relative_addr), ..self }
        } else {
            self
        }
    }

    /// The program goes on at the address found.
    pub open spec fn jmp(self) -> CpuState {
        CpuState { pc: self.absolute_addr, ..self }
    }

    /// The return address goes on the stack, high byte first: the address
    /// of the last byte of this instruction.
    pub open spec fn jsr(self, bus: BusState) -> Machine {
        let stacked = Machine { cpu: self, bus }.push_word(self.pc.wrapping_sub(1));
        Machine { cpu: CpuState { pc: self.absolute_addr, ..stacked.cpu }, bus: stacked.bus }
    }

    /// The program counter comes off the stack, low byte first, and moves
    /// on by one.
    pub open spec fn rts(self, bus: BusState) -> CpuState {
        let lo = self.pulled();
        let hi = lo.pulled();
        CpuState {
            pc: word(bus.peek(lo.stack_slot()), bus.peek(hi.stack_slot())).wrapping_add(1),
            ..hi
        }
    }

    /// The status comes off the stack, without Break and the unused bit,
    /// and the program counter behind it.
    pub open spec fn rti(self, bus: BusState) -> CpuState {
        let status = self.pulled();
        let lo = status.pulled();
        let hi = lo.pulled();
        CpuState {
            status_flags: with_flag(
                with_flag(bus.peek(status.stack_slot()), FLAG_BREAK, false),
                FLAG_UNUSED,
                false,
            ),
            pc: word(bus.peek(lo.stack_slot()), bus.peek(hi.stack_slot())),
            ..hi
        }
    }

    /// A software interrupt: the byte behind the opcode is skipped, the
    /// program counter and the status go on the stack, the status with
    /// Break and the unused bit set, and the program goes on at the
    /// interrupt handler with interrupts disabled.
    pub open spec fn brk(self, bus: BusState) -> Machine {
        let disabled = self.flagged(FLAG_INTERRUPT, true);
        let stacked = Machine { cpu: disabled, bus }.push_word(self.pc.wrapping_add(1)).push(
            with_flag(with_flag(disabled.status_flags, FLAG_BREAK, true), FLAG_UNUSED, true),
        );
        Machine {
            cpu: CpuState {
                pc: stacked.bus.peek_word(IRQ_VECTOR),
                ..stacked.cpu.flagged(FLAG_BREAK, false)
            },
            bus: stacked.bus,
        }
    }

    // The stack.

    /// The accumulator goes on the stack.
    pub open spec fn pha(self, bus: BusState) -> Machine {
        Machine { cpu: self, bus }.push(self.a)
    }

    /// The status goes on the stack with Break and the unused bit set, and
    /// stays behind with both cleared.
    pub open spec fn php(self, bus: BusState) -> Machine {
        Machine {
            cpu: self.flagged(FLAG_BREAK, false).flagged(FLAG_UNUSED, false),
            bus,
        }.push(with_flag(with_flag(self.status_flags, FLAG_BREAK, true), FLAG_UNUSED, true))
    }

    /// The accumulator comes off the stack.
    pub open spec fn pla(self, bus: BusState) -> CpuState {
        let value = bus.peek(self.pulled().stack_slot());
        CpuState { a: value, ..self.pulled() }.zn(value)
    }

    /// The status comes off the stack, with the unused bit set.
    pub open spec fn plp(self, bus: BusState) -> CpuState {
        CpuState {
            status_flags: with_flag(bus.peek(self.pulled().stack_slot()), FLAG_UNUSED, true),
            ..self.pulled()
        }
    }

    // Interrupts and reset.

    /// The state after a reset: registers cleared, the stack pointer at its
    /// start, the program counter from the reset vector, nothing left of an
    /// instruction in flight, and eight cycles to go.
    pub open spec fn reset(self, bus: BusState) -> CpuState {
        CpuState {
            a: 0,
            x: 0,
            y: 0,
            pc: bus.peek_word(RESET_VECTOR),
            sp: RESET_STACK_POINTER,
            status_flags: FLAG_UNUSED,
            last_fetched: 0,
            absolute_addr: 0,
            relative_addr: 0,
            opcode: 0,
            cycles: RESET_CYCLES,
        }
    }

    /// An interrupt taken: the program counter and the status go on the
    /// stack, the status without Break and with the unused bit and
    /// interrupts disabled, and the program goes on at the handler that
    /// the vector names.
    pub open spec fn interrupted(self, bus: BusState, vector: u16, cycles: u8) -> Machine {
        let entered = self.flagged(FLAG_BREAK, false).flagged(FLAG_UNUSED, true).flagged(
            FLAG_INTERRUPT,
            true,
        );
        let stacked = Machine { cpu: entered, bus }.push_word(self.pc).push(entered.status_flags);
        Machine {
            cpu: CpuState {
                pc: stacked.bus.peek_word(vector),
                absolute_addr: vector,
                cycles,
                ..stacked.cpu
            },
            bus: stacked.bus,
        }
    }

    /// An interrupt request: taken unless interrupts are disabled.
    pub open spec fn irq(self, bus: BusState) -> Machine {
        if flag(self.status_flags, FLAG_INTERRUPT) {
            Machine { cpu: self, bus }
        } else {
            self.interrupted(bus, IRQ_VECTOR, IRQ_CYCLES)
        }
    }

    /// A non-maskable interrupt: always taken.
    pub open spec fn nmi(self, bus: BusState) -> Machine {
        self.interrupted(bus, NMI_VECTOR, NMI_CYCLES)
    }

    // The instruction cycle.

    /// The machine after an operation, the operand found.
    #[verifier::opaque]
    pub open spec fn executed(self, operation: Operation, bus: BusState) -> Machine {
        match operation {
            Operation::Adc => Machine { cpu: self.adc(bus), bus },
            Operation::And => Machine { cpu: self.and(bus), bus },
            Operation::Asl => self.asl(bus),
            Operation::Bcc => Machine {
                cpu: self.branched(!flag(self.status_flags, FLAG_CARRY)),
                bus,
            },
            Operation::Bcs => Machine {
                cpu: self.branched(flag(self.status_flags, FLAG_CARRY)),
                bus,
            },
            Operation::Beq => Machine {
                cpu: self.branched(flag(self.status_flags, FLAG_ZERO)),
                bus,
            },
            Operation::Bit => Machine { cpu: self.bit(bus), bus },
            Operation::Bmi => Machine {
                cpu: self.branched(flag(self.status_flags, FLAG_NEGATIVE)),
                bus,
            },
            Operation::Bne => Machine {
                cpu: self.branched(!flag(self.status_flags, FLAG_ZERO)),
                bus,
            },
            Operation::Bpl => Machine {
                cpu: self.branched(!flag(self.status_flags, FLAG_NEGATIVE)),
                bus,
            },
            Operation::Brk => self.brk(bus),
            Operation::Bvc => Machine {
                cpu: self.branched(!flag(self.status_flags, FLAG_OVERFLOW)),
                bus,
            },
            Operation::Bvs => Machine {
                cpu: self.branched(flag(self.status_flags, FLAG_OVERFLOW)),
                bus,
            },
            Operation::Clc => Machine { cpu: self.flagged(FLAG_CARRY, false), bus },
            Operation::Cld => Machine { cpu: self.flagged(FLAG_DECIMAL, false), bus },
            Operation::Cli => Machine { cpu: self.flagged(FLAG_INTERRUPT, false), bus },
            Operation::Clv => Machine { cpu: self.flagged(FLAG_OVERFLOW, false), bus },
            Operation::Cmp => Machine { cpu: self.compare_a(bus), bus },
            Operation::Cpx => Machine { cpu: self.compare_x(bus), bus },
            Operation::Cpy => Machine { cpu: self.compare_y(bus), bus },
            Operation::Dec => self.dec(bus),
            Operation::Dex => Machine { cpu: self.dex(), bus },
            Operation::Dey => Machine { cpu: self.dey(), bus },
            Operation::Eor => Machine { cpu: self.eor(bus), bus },
            Operation::Inc => self.inc(bus),
            Operation::Inx => Machine { cpu: self.inx(), bus },
            Operation::Iny => Machine { cpu: self.iny(), bus },
            Operation::Jmp => Machine { cpu: self.jmp(), bus },
            Operation::Jsr => self.jsr(bus),
            Operation::Lda => Machine { cpu: self.lda(bus), bus },
            Operation::Ldx => Machine { cpu: self.ldx(bus), bus },
            Operation::Ldy => Machine { cpu: self.ldy(bus), bus },
            Operation::Lsr => self.lsr(bus),
            Operation::Nop => Machine { cpu: self, bus },
            Operation::Ora => Machine { cpu: self.ora(bus), bus },
            Operation::Pha => self.pha(bus),
            Operation::Php => self.php(bus),
            Operation::Pla => Machine { cpu: self.pla(bus), bus },
            Operation::Plp => Machine { cpu: self.plp(bus), bus },
            Operation::Rol => self.rol(bus),
            Operation::Ror => self.ror(bus),
            Operation::Rti => Machine { cpu: self.rti(bus), bus },
            Operation::Rts => Machine { cpu: self.rts(bus), bus },
            Operation::Sbc => Machine { cpu: self.sbc(bus), bus },
            Operation::Sec => Machine { cpu: self.flagged(FLAG_CARRY, true), bus },
            Operation::Sed => Machine { cpu: self.flagged(FLAG_DECIMAL, true), bus },
            Operation::Sei => Machine { cpu: self.flagged(FLAG_INTERRUPT, true), bus },
            Operation::Sta => Machine { cpu: self, bus: self.sta(bus) },
            Operation::Stx => Machine { cpu: self, bus: self.stx(bus) },
            Operation::Sty => Machine { cpu: self, bus: self.sty(bus) },
            Operation::Tax => Machine { cpu: self.tax(), bus },
            Operation::Tay => Machine { cpu: self.tay(), bus },
            Operation::Tsx => Machine { cpu: self.tsx(), bus },
            Operation::Txa => Machine { cpu: self.txa(), bus },
            Operation::Txs => Machine { cpu: self.txs(), bus },
            Operation::Tya => Machine { cpu: self.tya(), bus },
            Operation::Xxx => Machine { cpu: self, bus },
        }
    }

    /// The machine after the instruction whose opcode was fetched: its
    /// cycles are set, its addressing mode finds the operand, its operation
    /// works on it, and one cycle is added where both ask for it.
    pub open spec fn dispatched(self, bus: BusState) -> Machine {
        let mode = mode_of(self.opcode);
        let operation = operation_of(self.opcode);
        let started = CpuState { cycles: base_cycles(self.opcode), ..self };
        let done = started.addressed(mode, bus).executed(operation, bus);
        Machine {
            cpu: CpuState {
                cycles: (done.cpu.cycles + extra_cycle(
                    started.crossing(mode, bus),
                    honors_crossing(operation),
                )) as u8,
                ..done.cpu
            },
            bus: done.bus,
        }
    }

    /// The machine after the opcode at the program counter was fetched and
    /// its instruction carried out.
    pub open spec fn begun(self, bus: BusState) -> Machine {
        CpuState { opcode: bus.peek(self.pc), pc: self.pc.wrapping_add(1), ..self }.dispatched(bus)
    }

    /// The machine after one cycle of the processor: with no cycle left of
    /// the last instruction the next one begins; either way one cycle
    /// passes.
    #[verifier::opaque]
    pub open spec fn clocked(self, bus: BusState) -> Machine {
        let now = if self.cycles == 0 {
            self.begun(bus)
        } else {
            Machine { cpu: self, bus }
        };
        Machine { cpu: CpuState { cycles: (now.cpu.cycles - 1) as u8, ..now.cpu }, bus: now.bus }
    }

    /// What a cycle of the processor reports: the fault of the instruction
    /// that begins in it, if one begins and has one.
    pub open spec fn clock_fault(self, bus: BusState) -> Option<Fault> {
        if self.cycles == 0 {
            fault_of(bus.peek(self.pc))
        } else {
            None
        }
    }
}

impl Machine {
    /// The machine after a push: the value is in the slot that the stack
    /// pointer named, and the stack pointer is one down, within its page.
    pub open spec fn push(self, value: u8) -> Machine {
        Machine {
            cpu: CpuState { sp: self.cpu.sp.wrapping_sub(1), ..self.cpu },
            bus: self.bus.poke(self.cpu.stack_slot(), value),
        }
    }

    /// The machine after a word was pushed, high byte first.
    pub open spec fn push_word(self, value: u16) -> Machine {
        self.push(high_byte(value)).push(low_byte(value))
    }
}

/// The extra cycle is the logical and of the two reports: it is there
/// exactly when a page was crossed and the operation pays for it.
pub proof fn law_extra_cycle_needs_both(crossing: u8, honors: u8)
    by (bit_vector)
    requires
        crossing <= 1,
        honors <= 1,
    ensures
        crossing & honors == (if crossing == 1 && honors == 1 {
            1u8
        } else {
            0u8
        }),
{
}

/// A push keeps the bus well formed and touches nothing on it but memory.
proof fn lemma_push_keeps(machine: Machine, value: u8)
    requires
        machine.bus.wf(),
    ensures
        machine.push(value).bus.wf(),
        machine.push(value).bus.cpu == machine.bus.cpu,
        machine.push(value).bus.ppu == machine.bus.ppu,
        machine.push(value).bus.cartridge == machine.bus.cartridge,
        machine.push(value).bus.clock == machine.bus.clock,
        machine.push(value).cpu.cycles == machine.cpu.cycles,
{
    lemma_poke_keeps(machine.bus, machine.cpu.stack_slot(), value);
}

/// No operation touches the cycles that are left or the opcode in flight.
pub proof fn lemma_executed_keeps_count(cpu: CpuState, operation: Operation, bus: BusState)
    ensures
        cpu.executed(operation, bus).cpu.cycles == cpu.cycles,
        cpu.executed(operation, bus).cpu.opcode == cpu.opcode,
{
    reveal(CpuState::executed);
}

/// An operation keeps the bus well formed and touches nothing on it but
/// memory.
pub proof fn lemma_executed_keeps(cpu: CpuState, operation: Operation, bus: BusState)
    requires
        bus.wf(),
    ensures
        cpu.executed(operation, bus).bus.wf(),
        cpu.executed(operation, bus).bus.cpu == bus.cpu,
        cpu.executed(operation, bus).bus.ppu == bus.ppu,
        cpu.executed(operation, bus).bus.cartridge == bus.cartridge,
        cpu.executed(operation, bus).bus.clock == bus.clock,
{
    reveal(CpuState::executed);
    let start = Machine { cpu, bus };
    match operation {
        Operation::Asl | Operation::Lsr | Operation::Rol | Operation::Ror | Operation::Inc
        | Operation::Dec | Operation::Sta | Operation::Stx | Operation::Sty => {
            assert forall|value: u8| #[trigger] bus.poke(cpu.absolute_addr, value).wf() by {
                lemma_poke_keeps(bus, cpu.absolute_addr, value);
            }
            assert forall|value: u8|
                {
                    let after = #[trigger] bus.poke(cpu.absolute_addr, value);
                    after.cpu == bus.cpu && after.ppu == bus.ppu && after.cartridge
                        == bus.cartridge && after.clock == bus.clock
                } by {
                lemma_poke_keeps(bus, cpu.absolute_addr, value);
            }
        },
        Operation::Pha => {
            lemma_push_keeps(start, cpu.a);
        },
        Operation::Php => {
            let cleared = Machine {
                cpu: cpu.flagged(FLAG_BREAK, false).flagged(FLAG_UNUSED, false),
                bus,
            };
            lemma_push_keeps(
                cleared,
                with_flag(with_flag(cpu.status_flags, FLAG_BREAK, true), FLAG_UNUSED, true),
            );
        },
        Operation::Jsr => {
            let word = cpu.pc.wrapping_sub(1);
            lemma_push_keeps(start, high_byte(word));
            lemma_push_keeps(start.push(high_byte(word)), low_byte(word));
        },
        Operation::Brk => {
            let disabled = Machine { cpu: cpu.flagged(FLAG_INTERRUPT, true), bus };
            let word = cpu.pc.wrapping_add(1);
            lemma_push_keeps(disabled, high_byte(word));
            lemma_push_keeps(disabled.push(high_byte(word)), low_byte(word));
            lemma_push_keeps(
                disabled.push_word(word),
                with_flag(
                    with_flag(disabled.cpu.status_flags, FLAG_BREAK, true),
                    FLAG_UNUSED,
                    true,
                ),
            );
        },
        _ => {},
    }
}

/// An instruction keeps the bus well formed, touches nothing on it but
/// memory, and leaves its opcode in flight with between two and nine
/// cycles to go.
pub proof fn lemma_dispatched_keeps(cpu: CpuState, bus: BusState)
    requires
        bus.wf(),
    ensures
        cpu.dispatched(bus).bus.wf(),
        cpu.dispatched(bus).bus.cpu == bus.cpu,
        cpu.dispatched(bus).bus.ppu == bus.ppu,
        cpu.dispatched(bus).bus.cartridge == bus.cartridge,
        cpu.dispatched(bus).bus.clock == bus.clock,
        2 <= cpu.dispatched(bus).cpu.cycles <= 9,
        cpu.dispatched(bus).cpu.opcode == cpu.opcode,
{
    let mode = mode_of(cpu.opcode);
    let operation = operation_of(cpu.opcode);
    let started = CpuState { cycles: base_cycles(cpu.opcode), ..cpu };
    lemma_base_cycles_bounds(cpu.opcode);
    lemma_executed_keeps(started.addressed(mode, bus), operation, bus);
    lemma_executed_keeps_count(started.addressed(mode, bus), operation, bus);
    law_extra_cycle_needs_both(started.crossing(mode, bus), honors_crossing(operation));
}

/// A cycle of the processor keeps the bus well formed and touches nothing
/// on it but memory.
pub proof fn lemma_clocked_keeps(cpu: CpuState, bus: BusState)
    requires
        bus.wf(),
    ensures
        cpu.clocked(bus).bus.wf(),
        cpu.clocked(bus).bus.cpu == bus.cpu,
        cpu.clocked(bus).bus.ppu == bus.ppu,
        cpu.clocked(bus).bus.cartridge == bus.cartridge,
        cpu.clocked(bus).bus.clock == bus.clock,
{
    reveal(CpuState::clocked);
    if cpu.cycles == 0 {
        lemma_dispatched_keeps(
            CpuState { opcode: bus.peek(cpu.pc), pc: cpu.pc.wrapping_add(1), ..cpu },
            bus,
        );
    }
}

/// The cycles to go never fall below zero. While an instruction is in
/// flight a cycle only counts down: nothing is fetched and nothing else
/// changes. With none to go, the next instruction begins, and its first
/// cycle passes.
pub proof fn law_cycles_count_down(cpu: CpuState, bus: BusState)
    requires
        bus.wf(),
    ensures
        cpu.cycles > 0 ==> cpu.clocked(bus) == (Machine {
            cpu: CpuState { cycles: (cpu.cycles - 1) as u8, ..cpu },
            bus,
        }),
        cpu.cycles > 0 ==> cpu.clock_fault(bus) is None,
        cpu.cycles == 0 ==> cpu.clocked(bus).cpu.cycles == cpu.begun(bus).cpu.cycles - 1,
        cpu.cycles == 0 ==> cpu.clocked(bus).cpu.opcode == bus.peek(cpu.pc),
        cpu.cycles == 0 ==> 1 <= cpu.clocked(bus).cpu.cycles <= 8,
{
    reveal(CpuState::clocked);
    if cpu.cycles == 0 {
        lemma_dispatched_keeps(
            CpuState { opcode: bus.peek(cpu.pc), pc: cpu.pc.wrapping_add(1), ..cpu },
            bus,
        );
    }
}

/// Every instruction, a branch too, leaves the cycles of its descriptor to
/// go, and one more exactly where its addressing mode reports a page
/// crossed and its operation pays for that. Nothing else is charged.
pub proof fn law_instruction_costs_base_and_extra(cpu: CpuState, bus: BusState)
    ensures
        cpu.dispatched(bus).cpu.cycles == base_cycles(cpu.opcode) + extra_cycle(
            cpu.crossing(mode_of(cpu.opcode), bus),
            honors_crossing(operation_of(cpu.opcode)),
        ),
        cpu.dispatched(bus).cpu.cycles == base_cycles(cpu.opcode) + (if cpu.crossing(
            mode_of(cpu.opcode),
            bus,
        ) == 1 && honors_crossing(operation_of(cpu.opcode)) == 1 {
            1int
        } else {
            0int
        }),
        cpu.cycles == 0 ==> cpu.clocked(bus).cpu.cycles == cpu.begun(bus).cpu.cycles - 1,
{
    reveal(CpuState::clocked);
    let mode = mode_of(cpu.opcode);
    let operation = operation_of(cpu.opcode);
    let started = CpuState { cycles: base_cycles(cpu.opcode), ..cpu };
    lemma_base_cycles_bounds(cpu.opcode);
    lemma_executed_keeps_count(started.addressed(mode, bus), operation, bus);
    law_extra_cycle_needs_both(started.crossing(mode, bus), honors_crossing(operation));
    let fetched = CpuState { opcode: bus.peek(cpu.pc), pc: cpu.pc.wrapping_add(1), ..cpu };
    let first = CpuState { cycles: base_cycles(fetched.opcode), ..fetched };
    lemma_base_cycles_bounds(fetched.opcode);
    lemma_executed_keeps_count(
        first.addressed(mode_of(fetched.opcode), bus),
        operation_of(fetched.opcode),
        bus,
    );
    law_extra_cycle_needs_both(
        first.crossing(mode_of(fetched.opcode), bus),
        honors_crossing(operation_of(fetched.opcode)),
    );
}

/// A branch moves the program counter by the signed displacement where it
/// is taken, and costs what it costs where it is not: the cycles of its
/// descriptor.
pub proof fn law_branch_costs_its_base(cpu: CpuState, bus: BusState, taken: bool)
    ensures
        cpu.branched(taken).cycles == cpu.cycles,
        cpu.branched(true).pc == cpu.pc.wrapping_add(cpu.relative_addr),
        cpu.branched(false) == cpu,
        mode_of(cpu.opcode) == AddressingMode::Rel ==> cpu.dispatched(bus).cpu.cycles
            == base_cycles(cpu.opcode),
{
    law_instruction_costs_base_and_extra(cpu, bus);
    law_extra_cycle_needs_both(
        cpu.crossing(mode_of(cpu.opcode), bus),
        honors_crossing(operation_of(cpu.opcode)),
    );
}

/// The immediate mode never reports a page crossed, so loading the
/// accumulator with an immediate value, opcode `0xA9`, takes two cycles
/// whatever the machine holds: the accumulator is the byte behind the
/// opcode, and the program counter is past it.
pub proof fn law_immediate_load_takes_two_cycles(cpu: CpuState, bus: BusState)
    requires
        cpu.opcode == 0xA9,
    ensures
        operation_of(0xA9) == Operation::Lda,
        mode_of(0xA9) == AddressingMode::Imm,
        cpu.crossing(AddressingMode::Imm, bus) == 0,
        cpu.dispatched(bus).cpu.cycles == 2,
        cpu.dispatched(bus).cpu.a == bus.peek(cpu.pc),
        cpu.dispatched(bus).cpu.pc == cpu.pc.wrapping_add(1),
        cpu.dispatched(bus).bus == bus,
{
    reveal(CpuState::executed);
    law_extra_cycle_needs_both(0, honors_crossing(Operation::Lda));
}

/// An opcode byte without an instruction changes no register and nothing
/// on the bus. It costs the cycles of its descriptor, which are two for
/// opcode `0x02`, and is reported.
pub proof fn law_unassigned_opcode_changes_nothing(cpu: CpuState, bus: BusState)
    requires
        operation_of(cpu.opcode) == Operation::Xxx,
    ensures
        mode_of(cpu.opcode) == AddressingMode::Imp,
        cpu.dispatched(bus).cpu == (CpuState {
            cycles: base_cycles(cpu.opcode),
            last_fetched: cpu.a,
            ..cpu
        }),
        cpu.dispatched(bus).bus == bus,
        fault_of(cpu.opcode) == Some(Fault::IllegalOpcode(cpu.opcode)),
        operation_of(0x02) == Operation::Xxx,
        base_cycles(0x02) == 2,
{
    reveal(CpuState::executed);
    law_extra_cycle_needs_both(0, honors_crossing(Operation::Xxx));
}

/// A reset starts the program at the address kept at `0xFFFC` and
/// `0xFFFD`, low byte first.
pub proof fn law_reset_follows_vector(cpu: CpuState, bus: BusState)
    ensures
        cpu.reset(bus).pc == bus.peek(0xFFFC) + 0x100 * bus.peek(0xFFFD),
        cpu.reset(bus).cycles == RESET_CYCLES,
{
}

/// An index crosses a page exactly when it carries out of the low byte
/// of the address it is added to.
pub proof fn law_crossing_is_a_carry(cpu: CpuState, bus: BusState, index: u8)
    ensures
        cpu.abs_indexed_crossing(bus, index) == (if low_byte(bus.peek_word(cpu.pc)) + index
            > 0xFF {
            1u8
        } else {
            0u8
        }),
        cpu.izy_crossing(bus) == (if low_byte(cpu.izy_base(bus)) + cpu.y > 0xFF {
            1u8
        } else {
            0u8
        }),
{
}

/// The two zero-page pointers and the indexed zero-page address stay in
/// the zero page, and the indirect mode reads both bytes of the address
/// from the page of its pointer.
pub proof fn law_modes_stay_in_their_page(cpu: CpuState, bus: BusState, index: u8, pointer: u16)
    ensures
        cpu.zp0(bus).absolute_addr <= 0x00FF,
        cpu.zp_indexed(bus, index).absolute_addr <= 0x00FF,
        high_byte(CpuState::ind_high_slot(pointer)) == high_byte(pointer),
        low_byte(CpuState::ind_high_slot(pointer)) == (low_byte(pointer) + 1) % 0x100,
{
}

/// The status never goes on the stack without the unused bit: not with a
/// push of the status, not with a software interrupt, and not with an
/// interrupt taken. A push of the status and a software interrupt set
/// Break in what they push, an interrupt clears it.
pub proof fn law_status_is_pushed_with_the_unused_bit(
    cpu: CpuState,
    bus: BusState,
    vector: u16,
    cycles: u8,
)
    requires
        bus.wf(),
    ensures
        ({
            let pushed = cpu.php(bus).bus.peek(cpu.stack_slot());
            flag(pushed, FLAG_UNUSED) && flag(pushed, FLAG_BREAK)
        }),
        ({
            let pushed = cpu.brk(bus).bus.peek(cpu.brk(bus).cpu.pulled().stack_slot());
            flag(pushed, FLAG_UNUSED) && flag(pushed, FLAG_BREAK) && flag(pushed, FLAG_INTERRUPT)
        }),
        ({
            let taken = cpu.interrupted(bus, vector, cycles);
            let pushed = taken.bus.peek(taken.cpu.pulled().stack_slot());
            flag(pushed, FLAG_UNUSED) && !flag(pushed, FLAG_BREAK) && flag(pushed, FLAG_INTERRUPT)
        }),
{
    let status = cpu.status_flags;
    law_flag_reads_back(with_flag(status, FLAG_BREAK, true), FLAG_UNUSED, true);
    law_flag_reads_back(status, FLAG_BREAK, true);
    law_flag_leaves_others(with_flag(status, FLAG_BREAK, true), FLAG_UNUSED, true, FLAG_BREAK);
    law_pull_undoes_push(
        Machine { cpu: cpu.flagged(FLAG_BREAK, false).flagged(FLAG_UNUSED, false), bus },
        with_flag(with_flag(status, FLAG_BREAK, true), FLAG_UNUSED, true),
    );

    let disabled = cpu.flagged(FLAG_INTERRUPT, true);
    let with_break = with_flag(disabled.status_flags, FLAG_BREAK, true);
    let software = with_flag(with_break, FLAG_UNUSED, true);
    law_flag_reads_back(status, FLAG_INTERRUPT, true);
    law_flag_reads_back(disabled.status_flags, FLAG_BREAK, true);
    law_flag_reads_back(with_break, FLAG_UNUSED, true);
    law_flag_leaves_others(disabled.status_flags, FLAG_BREAK, true, FLAG_INTERRUPT);
    law_flag_leaves_others(with_break, FLAG_UNUSED, true, FLAG_INTERRUPT);
    law_flag_leaves_others(with_break, FLAG_UNUSED, true, FLAG_BREAK);
    let return_to = cpu.pc.wrapping_add(1);
    let first = Machine { cpu: disabled, bus };
    lemma_push_keeps(first, high_byte(return_to));
    lemma_push_keeps(first.push(high_byte(return_to)), low_byte(return_to));
    law_pull_undoes_push(first.push_word(return_to), software);

    let cleared = with_flag(status, FLAG_BREAK, false);
    let unused = with_flag(cleared, FLAG_UNUSED, true);
    let entered = cpu.flagged(FLAG_BREAK, false).flagged(FLAG_UNUSED, true).flagged(
        FLAG_INTERRUPT,
        true,
    );
    law_flag_reads_back(status, FLAG_BREAK, false);
    law_flag_reads_back(cleared, FLAG_UNUSED, true);
    law_flag_reads_back(unused, FLAG_INTERRUPT, true);
    law_flag_leaves_others(cleared, FLAG_UNUSED, true, FLAG_BREAK);
    law_flag_leaves_others(unused, FLAG_INTERRUPT, true, FLAG_BREAK);
    law_flag_leaves_others(unused, FLAG_INTERRUPT, true, FLAG_UNUSED);
    let hardware = Machine { cpu: entered, bus };
    lemma_push_keeps(hardware, high_byte(cpu.pc));
    lemma_push_keeps(hardware.push(high_byte(cpu.pc)), low_byte(cpu.pc));
    law_pull_undoes_push(hardware.push_word(cpu.pc), entered.status_flags);
}

/// What was pushed last is pulled first: after a push, a pull finds the
/// value and leaves the stack pointer where it was before the push, also
/// where the stack pointer wraps round its page.
pub proof fn law_pull_undoes_push(machine: Machine, value: u8)
    requires
        machine.bus.wf(),
    ensures
        0x0100 <= machine.cpu.stack_slot() <= 0x01FF,
        machine.push(value).cpu.pulled() == machine.cpu,
        machine.push(value).bus.peek(machine.cpu.stack_slot()) == value,
        machine.push(value).bus.peek(machine.push(value).cpu.pulled().stack_slot()) == value,
{
}

/// A return undoes a call: after a jump to a subroutine, a return goes on
/// behind the jump, with the stack pointer where it was.
pub proof fn law_return_undoes_call(cpu: CpuState, bus: BusState)
    requires
        bus.wf(),
    ensures
        cpu.jsr(bus).cpu.pc == cpu.absolute_addr,
        cpu.jsr(bus).cpu.rts(cpu.jsr(bus).bus).pc == cpu.pc,
        cpu.jsr(bus).cpu.rts(cpu.jsr(bus).bus).sp == cpu.sp,
{
    let first = Machine { cpu, bus };
    let word = cpu.pc.wrapping_sub(1);
    let second = first.push(high_byte(word));
    lemma_push_keeps(first, high_byte(word));
    law_pull_undoes_push(first, high_byte(word));
    law_pull_undoes_push(second, low_byte(word));
}

/// The flags after an addition say what the sum is: Carry that it does not
/// fit a byte, Overflow that it does not fit a signed byte, Zero and
/// Negative what the byte is that was kept. The other flags stay.
pub proof fn law_addition_tells_the_sum(cpu: CpuState, value: u8, other: u8)
    requires
        is_flag(other),
        other != FLAG_CARRY,
        other != FLAG_OVERFLOW,
        other != FLAG_ZERO,
        other != FLAG_NEGATIVE,
    ensures
        cpu.added(value).a == (cpu.a + value + cpu.carry()) % 0x100,
        flag(cpu.added(value).status_flags, FLAG_CARRY) == (cpu.a + value + cpu.carry() > 0xFF),
        flag(cpu.added(value).status_flags, FLAG_OVERFLOW) == !(-128 <= signed(cpu.a) + signed(
            value,
        ) + cpu.carry() <= 127),
        flag(cpu.added(value).status_flags, FLAG_ZERO) == (cpu.added(value).a == 0),
        flag(cpu.added(value).status_flags, FLAG_NEGATIVE) == (cpu.added(value).a >= 0x80),
        flag(cpu.added(value).status_flags, other) == flag(cpu.status_flags, other),
{
    let sum = cpu.a + value + cpu.carry();
    let overflow = !(-128 <= signed(cpu.a) + signed(value) + cpu.carry() <= 127);
    let result = (sum % 0x100) as u8;
    let carried = with_flag(cpu.status_flags, FLAG_CARRY, sum > 0xFF);
    let overflowed = with_flag(carried, FLAG_OVERFLOW, overflow);
    law_flag_reads_back(cpu.status_flags, FLAG_CARRY, sum > 0xFF);
    law_flag_reads_back(carried, FLAG_OVERFLOW, overflow);
    law_flag_leaves_others(carried, FLAG_OVERFLOW, overflow, FLAG_CARRY);
    law_flag_leaves_others(cpu.status_flags, FLAG_CARRY, sum > 0xFF, other);
    law_flag_leaves_others(carried, FLAG_OVERFLOW, overflow, other);
    law_zn_tells_the_result(overflowed, result, FLAG_CARRY);
    law_zn_tells_the_result(overflowed, result, FLAG_OVERFLOW);
    law_zn_tells_the_result(overflowed, result, other);
}

/// A register held against a value: Carry says that the register is not
/// below the value, Zero that the two are equal.
pub proof fn law_comparison_orders(cpu: CpuState, register: u8, value: u8)
    ensures
        flag(cpu.compared(register, value).status_flags, FLAG_CARRY) == (register >= value),
        flag(cpu.compared(register, value).status_flags, FLAG_ZERO) == (register == value),
        cpu.compared(register, value).a == cpu.a,
        cpu.compared(register, value).x == cpu.x,
        cpu.compared(register, value).y == cpu.y,
{
    let carried = with_flag(cpu.status_flags, FLAG_CARRY, register >= value);
    law_flag_reads_back(cpu.status_flags, FLAG_CARRY, register >= value);
    law_zn_tells_the_result(carried, register.wrapping_sub(value), FLAG_CARRY);
}

} // verus!
