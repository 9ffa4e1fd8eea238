//! The instruction set as data: what each of the 256 opcode bytes stands for.

use vstd::prelude::*;

verus! {

/// What an instruction does once its operand is found.
#[derive(Clone, Copy, Debug, PartialEq, Eq, Structural)]
pub enum Operation {
    Adc,
    And,
    Asl,
    Bcc,
    Bcs,
    Beq,
    Bit,
    Bmi,
    Bne,
    Bpl,
    Brk,
    Bvc,
    Bvs,
    Clc,
    Cld,
    Cli,
    Clv,
    Cmp,
    Cpx,
    Cpy,
    Dec,
    Dex,
    Dey,
    Eor,
    Inc,
    Inx,
    Iny,
    Jmp,
    Jsr,
    Lda,
    Ldx,
    Ldy,
    Lsr,
    Nop,
    Ora,
    Pha,
    Php,
    Pla,
    Plp,
    Rol,
    Ror,
    Rti,
    Rts,
    Sbc,
    Sec,
    Sed,
    Sei,
    Sta,
    Stx,
    Sty,
    Tax,
    Tay,
    Tsx,
    Txa,
    Txs,
    Tya,
    /// No instruction: the opcode byte is not assigned.
    Xxx,
}

/// How an instruction finds its operand.
#[derive(Clone, Copy, Debug, PartialEq, Eq, Structural)]
pub enum AddressingMode {
    /// Implied: no operand, or the accumulator.
    Imp,
    /// Immediate: the byte behind the opcode.
    Imm,
    /// Zero page.
    Zp0,
    /// Zero page, indexed by X.
    Zpx,
    /// Zero page, indexed by Y.
    Zpy,
    /// Relative: a signed displacement for a branch.
    Rel,
    /// Absolute.
    Abs,
    /// Absolute, indexed by X.
    Abx,
    /// Absolute, indexed by Y.
    Aby,
    /// Indirect: the address is read through a pointer.
    Ind,
    /// Indexed indirect: the pointer is in the zero page, at the operand plus X.
    Izx,
    /// Indirect indexed: the pointer is in the zero page, and Y is added to
    /// what it holds.
    Izy,
    /// No addressing mode.
    Xxx,
}

/// What the processor found that it could not carry out. Neither stops it:
/// the step costs its cycles and changes nothing else.
#[derive(Clone, Copy, Debug, PartialEq, Eq, Structural)]
pub enum Fault {
    /// The opcode byte is not assigned to an instruction.
    IllegalOpcode(u8),
    /// The opcode's descriptor names no addressing mode.
    IllegalAddressingMode(u8),
}

/// The operation behind an opcode byte. The bytes are listed by instruction,
/// as a reference card lists them; a byte that is not listed is unassigned.
pub open spec fn operation_of(opcode: u8) -> Operation {
    match opcode {
        0x61 | 0x65 | 0x69 | 0x6D | 0x71 | 0x75 | 0x79 | 0x7D => Operation::Adc,
        0x21 | 0x25 | 0x29 | 0x2D | 0x31 | 0x35 | 0x39 | 0x3D => Operation::And,
        0x06 | 0x0A | 0x0E | 0x16 | 0x1E => Operation::Asl,
        0x90 => Operation::Bcc,
        0xB0 => Operation::Bcs,
        0xF0 => Operation::Beq,
        0x24 | 0x2C => Operation::Bit,
        0x30 => Operation::Bmi,
        0xD0 => Operation::Bne,
        0x10 => Operation::Bpl,
        0x00 => Operation::Brk,
        0x50 => Operation::Bvc,
        0x70 => Operation::Bvs,
        0x18 => Operation::Clc,
        0xD8 => Operation::Cld,
        0x58 => Operation::Cli,
        0xB8 => Operation::Clv,
        0xC1 | 0xC5 | 0xC9 | 0xCD | 0xD1 | 0xD5 | 0xD9 | 0xDD => Operation::Cmp,
        0xE0 | 0xE4 | 0xEC => Operation::Cpx,
        0xC0 | 0xC4 | 0xCC => Operation::Cpy,
        0xC6 | 0xCE | 0xD6 | 0xDE => Operation::Dec,
        0xCA => Operation::Dex,
        0x88 => Operation::Dey,
        0x41 | 0x45 | 0x49 | 0x4D | 0x51 | 0x55 | 0x59 | 0x5D => Operation::Eor,
        0xE6 | 0xEE | 0xF6 | 0xFE => Operation::Inc,
        0xE8 => Operation::Inx,
        0xC8 => Operation::Iny,
        0x4C | 0x6C => Operation::Jmp,
        0x20 => Operation::Jsr,
        0xA1 | 0xA5 | 0xA9 | 0xAD | 0xB1 | 0xB5 | 0xB9 | 0xBD => Operation::Lda,
        0xA2 | 0xA6 | 0xAE | 0xB6 | 0xBE => Operation::Ldx,
        0xA0 | 0xA4 | 0xAC | 0xB4 | 0xBC => Operation::Ldy,
        0x46 | 0x4A | 0x4E | 0x56 | 0x5E => Operation::Lsr,
        0x04 | 0x0C | 0x14 | 0x1A | 0x1C | 0x34 | 0x3A | 0x3C | 0xEA => Operation::Nop,
        0x01 | 0x05 | 0x09 | 0x0D | 0x11 | 0x15 | 0x19 | 0x1D => Operation::Ora,
        0x48 => Operation::Pha,
        0x08 => Operation::Php,
        0x68 => Operation::Pla,
        0x28 => Operation::Plp,
        0x26 | 0x2A | 0x2E | 0x36 | 0x3E => Operation::Rol,
        0x66 | 0x6A | 0x6E | 0x76 | 0x7E => Operation::Ror,
        0x40 => Operation::Rti,
        0x60 => Operation::Rts,
        0xE1 | 0xE5 | 0xE9 | 0xED | 0xF1 | 0xF5 | 0xF9 | 0xFD => Operation::Sbc,
        0x38 => Operation::Sec,
        0xF8 => Operation::Sed,
        0x78 => Operation::Sei,
        0x81 | 0x85 | 0x8D | 0x91 | 0x95 | 0x99 | 0x9D => Operation::Sta,
        0x86 | 0x8E | 0x96 => Operation::Stx,
        0x84 | 0x8C | 0x94 => Operation::Sty,
        0xAA => Operation::Tax,
        0xA8 => Operation::Tay,
        0xBA => Operation::Tsx,
        0x8A => Operation::Txa,
        0x9A => Operation::Txs,
        0x98 => Operation::Tya,
        _ => Operation::Xxx,
    }
}

/// The addressing mode behind an opcode byte. What is not listed is implied.
pub open spec fn mode_of(opcode: u8) -> AddressingMode {
    match opcode {
        0x09 | 0x29 | 0x49 | 0x69 | 0xA0 | 0xA2 | 0xA9 | 0xC0 | 0xC9 | 0xE0 | 0xE9 => AddressingMode::Imm,
        0x05 | 0x06 | 0x24 | 0x25 | 0x26 | 0x45 | 0x46 | 0x65 | 0x66 | 0x84 | 0x85 | 0x86
        | 0xA4 | 0xA5 | 0xA6 | 0xC4 | 0xC5 | 0xC6 | 0xE4 | 0xE5 | 0xE6 => AddressingMode::Zp0,
        0x15 | 0x16 | 0x35 | 0x36 | 0x55 | 0x56 | 0x75 | 0x76 | 0x94 | 0x95 | 0xB4 | 0xB5
        | 0xD5 | 0xD6 | 0xF5 | 0xF6 => AddressingMode::Zpx,
        0x96 | 0xB6 => AddressingMode::Zpy,
        0x10 | 0x30 | 0x50 | 0x70 | 0x90 | 0xB0 | 0xD0 | 0xF0 => AddressingMode::Rel,
        0x0D | 0x0E | 0x20 | 0x2C | 0x2D | 0x2E | 0x4C | 0x4D | 0x4E | 0x6D | 0x6E | 0x8C
        | 0x8D | 0x8E | 0xAC | 0xAD | 0xAE | 0xCC | 0xCD | 0xCE | 0xEC | 0xED | 0xEE => AddressingMode::Abs,
        0x1D | 0x1E | 0x3D | 0x3E | 0x5D | 0x5E | 0x7D | 0x7E | 0x9D | 0xBC | 0xBD | 0xDD
        | 0xDE | 0xFD | 0xFE => AddressingMode::Abx,
        0x19 | 0x39 | 0x59 | 0x79 | 0x99 | 0xB9 | 0xBE | 0xD9 | 0xF9 => AddressingMode::Aby,
        0x6C => AddressingMode::Ind,
        0x01 | 0x21 | 0x41 | 0x61 | 0x81 | 0xA1 | 0xC1 | 0xE1 => AddressingMode::Izx,
        0x11 | 0x31 | 0x51 | 0x71 | 0x91 | 0xB1 | 0xD1 | 0xF1 => AddressingMode::Izy,
        _ => AddressingMode::Imp,
    }
}

/// The cycles an opcode costs before any penalty. What is not listed costs 2.
pub open spec fn base_cycles(opcode: u8) -> u8 {
    match opcode {
        0x04 | 0x05 | 0x08 | 0x24 | 0x25 | 0x45 | 0x48 | 0x4C | 0x65 | 0x84 | 0x85 | 0x86
        | 0xA4 | 0xA5 | 0xA6 | 0xC4 | 0xC5 | 0xE4 | 0xE5 => 3,
        0x0C | 0x0D | 0x14 | 0x15 | 0x19 | 0x1C | 0x1D | 0x28 | 0x2C | 0x2D | 0x34 | 0x35
        | 0x39 | 0x3C | 0x3D | 0x4D | 0x55 | 0x59 | 0x5D | 0x68 | 0x6D | 0x75 | 0x79 | 0x7D
        | 0x8C | 0x8D | 0x8E | 0x94 | 0x95 | 0x96 | 0xAC | 0xAD | 0xAE | 0xB4 | 0xB5 | 0xB6
        | 0xB9 | 0xBC | 0xBD | 0xBE | 0xCC | 0xCD | 0xD5 | 0xD9 | 0xDD | 0xEC | 0xED | 0xF5
        | 0xF9 | 0xFD => 4,
        0x06 | 0x07 | 0x11 | 0x26 | 0x27 | 0x31 | 0x46 | 0x51 | 0x66 | 0x6C | 0x71 | 0x99
        | 0x9D | 0xB1 | 0xC6 | 0xD1 | 0xE6 | 0xF1 => 5,
        0x01 | 0x0E | 0x0F | 0x16 | 0x17 | 0x20 | 0x21 | 0x2E | 0x2F | 0x36 | 0x37 | 0x40
        | 0x41 | 0x4E | 0x56 | 0x60 | 0x61 | 0x6E | 0x76 | 0x81 | 0x91 | 0xA1 | 0xC1 | 0xCE
        | 0xD6 | 0xE1 | 0xEE | 0xF6 => 6,
        0x1B | 0x1E | 0x1F | 0x3B | 0x3E | 0x3F | 0x5E | 0x7E | 0xDE | 0xFE => 7,
        0x03 | 0x13 | 0x23 | 0x33 => 8,
        _ => 2,
    }
}

/// The three letters of an operation.
pub open spec fn mnemonic(operation: Operation) -> Seq<char> {
    match operation {
        Operation::Adc => "ADC"@,
        Operation::And => "AND"@,
        Operation::Asl => "ASL"@,
        Operation::Bcc => "BCC"@,
        Operation::Bcs => "BCS"@,
        Operation::Beq => "BEQ"@,
        Operation::Bit => "BIT"@,
        Operation::Bmi => "BMI"@,
        Operation::Bne => "BNE"@,
        Operation::Bpl => "BPL"@,
        Operation::Brk => "BRK"@,
        Operation::Bvc => "BVC"@,
        Operation::Bvs => "BVS"@,
        Operation::Clc => "CLC"@,
        Operation::Cld => "CLD"@,
        Operation::Cli => "CLI"@,
        Operation::Clv => "CLV"@,
        Operation::Cmp => "CMP"@,
        Operation::Cpx => "CPX"@,
        Operation::Cpy => "CPY"@,
        Operation::Dec => "DEC"@,
        Operation::Dex => "DEX"@,
        Operation::Dey => "DEY"@,
        Operation::Eor => "EOR"@,
        Operation::Inc => "INC"@,
        Operation::Inx => "INX"@,
        Operation::Iny => "INY"@,
        Operation::Jmp => "JMP"@,
        Operation::Jsr => "JSR"@,
        Operation::Lda => "LDA"@,
        Operation::Ldx => "LDX"@,
        Operation::Ldy => "LDY"@,
        Operation::Lsr => "LSR"@,
        Operation::Nop => "NOP"@,
        Operation::Ora => "ORA"@,
        Operation::Pha => "PHA"@,
        Operation::Php => "PHP"@,
        Operation::Pla => "PLA"@,
        Operation::Plp => "PLP"@,
        Operation::Rol => "ROL"@,
        Operation::Ror => "ROR"@,
        Operation::Rti => "RTI"@,
        Operation::Rts => "RTS"@,
        Operation::Sbc => "SBC"@,
        Operation::Sec => "SEC"@,
        Operation::Sed => "SED"@,
        Operation::Sei => "SEI"@,
        Operation::Sta => "STA"@,
        Operation::Stx => "STX"@,
        Operation::Sty => "STY"@,
        Operation::Tax => "TAX"@,
        Operation::Tay => "TAY"@,
        Operation::Tsx => "TSX"@,
        Operation::Txa => "TXA"@,
        Operation::Txs => "TXS"@,
        Operation::Tya => "TYA"@,
        Operation::Xxx => "XXX"@,
    }
}

/// The opcodes in the first quarter of the table whose descriptor carries
/// question marks for a name.
pub open spec fn is_unnamed(opcode: u8) -> bool {
    match opcode {
        0x02 | 0x03 | 0x04 | 0x07 | 0x0B | 0x0C | 0x0F | 0x12 | 0x13 | 0x14 | 0x17 | 0x1A
        | 0x1B | 0x1C | 0x1F | 0x22 | 0x23 | 0x27 | 0x2B | 0x2F | 0x32 | 0x33 | 0x34 | 0x37
        | 0x3A | 0x3B | 0x3F => true,
        _ => false,
    }
}

/// The name in an opcode's descriptor. It serves diagnostics only.
pub open spec fn name_of(opcode: u8) -> Seq<char> {
    if is_unnamed(opcode) {
        "???"@
    } else {
        mnemonic(operation_of(opcode))
    }
}

/// What stops the processor from carrying out an opcode, if anything does.
pub open spec fn fault_of(opcode: u8) -> Option<Fault> {
    if mode_of(opcode) == AddressingMode::Xxx {
        Some(Fault::IllegalAddressingMode(opcode))
    } else if operation_of(opcode) == Operation::Xxx {
        Some(Fault::IllegalOpcode(opcode))
    } else {
        None
    }
}

/// One entry of the opcode table.
pub struct Instruction {
    pub name: String,
    pub cycles: u8,
    pub operation: Operation,
    pub mode: AddressingMode,
}

impl Instruction {
    /// This entry is the one that belongs to `opcode`.
    pub open spec fn describes(&self, opcode: u8) -> bool {
        &&& self.name@ == name_of(opcode)
        &&& self.cycles == base_cycles(opcode)
        &&& self.operation == operation_of(opcode)
        &&& self.mode == mode_of(opcode)
    }

    /// An entry with the given name, cost, operation and addressing mode.
    pub fn new(name: &str, cycles: u8, operation: Operation, mode: AddressingMode) -> (entry:
        Instruction)
        ensures
            entry.name@ == name@,
            entry.cycles == cycles,
            entry.operation == operation,
            entry.mode == mode,
    {
        Instruction { name: name.to_owned(), cycles, operation, mode }
    }

    /// The entry of an opcode byte that is not assigned: two cycles, and
    /// nothing done.
    pub fn new_empty() -> (entry: Instruction)
        ensures
            entry.name@ == "XXX"@,
            entry.cycles == 2,
            entry.operation == Operation::Xxx,
            entry.mode == AddressingMode::Imp,
    {
        Instruction {
            name: "XXX".to_owned(),
            cycles: 2,
            operation: Operation::Xxx,
            mode: AddressingMode::Imp,
        }
    }
}

/// No opcode costs fewer than two cycles or more than eight.
pub proof fn lemma_base_cycles_bounds(opcode: u8)
    ensures
        2 <= base_cycles(opcode) <= 8,
{
}

/// Every opcode has an addressing mode: the only fault of an opcode is to
/// have no instruction.
pub proof fn law_every_opcode_has_a_mode(opcode: u8)
    ensures
        mode_of(opcode) != AddressingMode::Xxx,
        fault_of(opcode) == (if operation_of(opcode) == Operation::Xxx {
            Some(Fault::IllegalOpcode(opcode))
        } else {
            None
        }),
        operation_of(opcode) == Operation::Xxx ==> mode_of(opcode) == AddressingMode::Imp,
{
}

/// A table holds the instruction set: 256 entries, each the one that belongs
/// to its index.
pub open spec fn is_instruction_set(table: Seq<Instruction>) -> bool {
    &&& table.len() == 256
    &&& forall|opcode: u8| #[trigger] table[opcode as int].describes(opcode)
}

/// The first `len` entries of a table are the ones that belong there.
pub open spec fn is_instruction_set_prefix(table: Seq<Instruction>, len: int) -> bool {
    &&& table.len() == len
    &&& forall|opcode: u8| opcode < len ==> #[trigger] table[opcode as int].describes(opcode)
}

/// Appends the entries of the opcodes `0x00..=0x0F`.
fn push_row_0(table: &mut Vec<Instruction>)
    requires
        is_instruction_set_prefix(old(table)@, 0x00),
    ensures
        is_instruction_set_prefix(final(table)@, 0x10),
{
    table.push(Instruction::new("BRK", 2, Operation::Brk, AddressingMode::Imp));
    table.push(Instruction::new("ORA", 6, Operation::Ora, AddressingMode::Izx));
    table.push(Instruction::new("???", 2, Operation::Xxx, AddressingMode::Imp));
    table.push(Instruction::new("???", 8, Operation::Xxx, AddressingMode::Imp));
    table.push(Instruction::new("???", 3, Operation::Nop, AddressingMode::Imp));
    table.push(Instruction::new("ORA", 3, Operation::Ora, AddressingMode::Zp0));
    table.push(Instruction::new("ASL", 5, Operation::Asl, AddressingMode::Zp0));
    table.push(Instruction::new("???", 5, Operation::Xxx, AddressingMode::Imp));
    table.push(Instruction::new("PHP", 3, Operation::Php, AddressingMode::Imp));
    table.push(Instruction::new("ORA", 2, Operation::Ora, AddressingMode::Imm));
    table.push(Instruction::new("ASL", 2, Operation::Asl, AddressingMode::Imp));
    table.push(Instruction::new("???", 2, Operation::Xxx, AddressingMode::Imp));
    table.push(Instruction::new("???", 4, Operation::Nop, AddressingMode::Imp));
    table.push(Instruction::new("ORA", 4, Operation::Ora, AddressingMode::Abs));
    table.push(Instruction::new("ASL", 6, Operation::Asl, AddressingMode::Abs));
    table.push(Instruction::new("???", 6, Operation::Xxx, AddressingMode::Imp));
}

/// Appends the entries of the opcodes `0x10..=0x1F`.
fn push_row_1(table: &mut Vec<Instruction>)
    requires
        is_instruction_set_prefix(old(table)@, 0x10),
    ensures
        is_instruction_set_prefix(final(table)@, 0x20),
{
    table.push(Instruction::new("BPL", 2, Operation::Bpl, AddressingMode::Rel));
    table.push(Instruction::new("ORA", 5, Operation::Ora, AddressingMode::Izy));
    table.push(Instruction::new("???", 2, Operation::Xxx, AddressingMode::Imp));
    table.push(Instruction::new("???", 8, Operation::Xxx, AddressingMode::Imp));
    table.push(Instruction::new("???", 4, Operation::Nop, AddressingMode::Imp));
    table.push(Instruction::new("ORA", 4, Operation::Ora, AddressingMode::Zpx));
    table.push(Instruction::new("ASL", 6, Operation::Asl, AddressingMode::Zpx));
    table.push(Instruction::new("???", 6, Operation::Xxx, AddressingMode::Imp));
    table.push(Instruction::new("CLC", 2, Operation::Clc, AddressingMode::Imp));
    table.push(Instruction::new("ORA", 4, Operation::Ora, AddressingMode::Aby));
    table.push(Instruction::new("???", 2, Operation::Nop, AddressingMode::Imp));
    table.push(Instruction::new("???", 7, Operation::Xxx, AddressingMode::Imp));
    table.push(Instruction::new("???", 4, Operation::Nop, AddressingMode::Imp));
    table.push(Instruction::new("ORA", 4, Operation::Ora, AddressingMode::Abx));
    table.push(Instruction::new("ASL", 7, Operation::Asl, AddressingMode::Abx));
    table.push(Instruction::new("???", 7, Operation::Xxx, AddressingMode::Imp));
}

/// Appends the entries of the opcodes `0x20..=0x2F`.
fn push_row_2(table: &mut Vec<Instruction>)
    requires
        is_instruction_set_prefix(old(table)@, 0x20),
    ensures
        is_instruction_set_prefix(final(table)@, 0x30),
{
    table.push(Instruction::new("JSR", 6, Operation::Jsr, AddressingMode::Abs));
    table.push(Instruction::new("AND", 6, Operation::And, AddressingMode::Izx));
    table.push(Instruction::new("???", 2, Operation::Xxx, AddressingMode::Imp));
    table.push(Instruction::new("???", 8, Operation::Xxx, AddressingMode::Imp));
    table.push(Instruction::new("BIT", 3, Operation::Bit, AddressingMode::Zp0));
    table.push(Instruction::new("AND", 3, Operation::And, AddressingMode::Zp0));
    table.push(Instruction::new("ROL", 5, Operation::Rol, AddressingMode::Zp0));
    table.push(Instruction::new("???", 5, Operation::Xxx, AddressingMode::Imp));
    table.push(Instruction::new("PLP", 4, Operation::Plp, AddressingMode::Imp));
    table.push(Instruction::new("AND", 2, Operation::And, AddressingMode::Imm));
    table.push(Instruction::new("ROL", 2, Operation::Rol, AddressingMode::Imp));
    table.push(Instruction::new("???", 2, Operation::Xxx, AddressingMode::Imp));
    table.push(Instruction::new("BIT", 4, Operation::Bit, AddressingMode::Abs));
    table.push(Instruction::new("AND", 4, Operation::And, AddressingMode::Abs));
    table.push(Instruction::new("ROL", 6, Operation::Rol, AddressingMode::Abs));
    table.push(Instruction::new("???", 6, Operation::Xxx, AddressingMode::Imp));
}

/// Appends the entries of the opcodes `0x30..=0x3F`.
fn push_row_3(table: &mut Vec<Instruction>)
    requires
        is_instruction_set_prefix(old(table)@, 0x30),
    ensures
        is_instruction_set_prefix(final(table)@, 0x40),
{
    table.push(Instruction::new("BMI", 2, Operation::Bmi, AddressingMode::Rel));
    table.push(Instruction::new("AND", 5, Operation::And, AddressingMode::Izy));
    table.push(Instruction::new("???", 2, Operation::Xxx, AddressingMode::Imp));
    table.push(Instruction::new("???", 8, Operation::Xxx, AddressingMode::Imp));
    table.push(Instruction::new("???", 4, Operation::Nop, AddressingMode::Imp));
    table.push(Instruction::new("AND", 4, Operation::And, AddressingMode::Zpx));
    table.push(Instruction::new("ROL", 6, Operation::Rol, AddressingMode::Zpx));
    table.push(Instruction::new("???", 6, Operation::Xxx, AddressingMode::Imp));
    table.push(Instruction::new("SEC", 2, Operation::Sec, AddressingMode::Imp));
    table.push(Instruction::new("AND", 4, Operation::And, AddressingMode::Aby));
    table.push(Instruction::new("???", 2, Operation::Nop, AddressingMode::Imp));
    table.push(Instruction::new("???", 7, Operation::Xxx, AddressingMode::Imp));
    table.push(Instruction::new("NOP", 4, Operation::Nop, AddressingMode::Imp));
    table.push(Instruction::new("AND", 4, Operation::And, AddressingMode::Abx));
    table.push(Instruction::new("ROL", 7, Operation::Rol, AddressingMode::Abx));
    table.push(Instruction::new("???", 7, Operation::Xxx, AddressingMode::Imp));
}

/// Appends the entries of the opcodes `0x40..=0x4F`.
fn push_row_4(table: &mut Vec<Instruction>)
    requires
        is_instruction_set_prefix(old(table)@, 0x40),
    ensures
        is_instruction_set_prefix(final(table)@, 0x50),
{
    table.push(Instruction::new("RTI", 6, Operation::Rti, AddressingMode::Imp));
    table.push(Instruction::new("EOR", 6, Operation::Eor, AddressingMode::Izx));
    table.push(Instruction::new_empty());
    table.push(Instruction::new_empty());
    table.push(Instruction::new_empty());
    table.push(Instruction::new("EOR", 3, Operation::Eor, AddressingMode::Zp0));
    table.push(Instruction::new("LSR", 5, Operation::Lsr, AddressingMode::Zp0));
    table.push(Instruction::new_empty());
    table.push(Instruction::new("PHA", 3, Operation::Pha, AddressingMode::Imp));
    table.push(Instruction::new("EOR", 2, Operation::Eor, AddressingMode::Imm));
    table.push(Instruction::new("LSR", 2, Operation::Lsr, AddressingMode::Imp));
    table.push(Instruction::new_empty());
    table.push(Instruction::new("JMP", 3, Operation::Jmp, AddressingMode::Abs));
    table.push(Instruction::new("EOR", 4, Operation::Eor, AddressingMode::Abs));
    table.push(Instruction::new("LSR", 6, Operation::Lsr, AddressingMode::Abs));
    table.push(Instruction::new_empty());
}

/// Appends the entries of the opcodes `0x50..=0x5F`.
fn push_row_5(table: &mut Vec<Instruction>)
    requires
        is_instruction_set_prefix(old(table)@, 0x50),
    ensures
        is_instruction_set_prefix(final(table)@, 0x60),
{
    table.push(Instruction::new("BVC", 2, Operation::Bvc, AddressingMode::Rel));
    table.push(Instruction::new("EOR", 5, Operation::Eor, AddressingMode::Izy));
    table.push(Instruction::new_empty());
    table.push(Instruction::new_empty());
    table.push(Instruction::new_empty());
    table.push(Instruction::new("EOR", 4, Operation::Eor, AddressingMode::Zpx));
    table.push(Instruction::new("LSR", 6, Operation::Lsr, AddressingMode::Zpx));
    table.push(Instruction::new_empty());
    table.push(Instruction::new("CLI", 2, Operation::Cli, AddressingMode::Imp));
    table.push(Instruction::new("EOR", 4, Operation::Eor, AddressingMode::Aby));
    table.push(Instruction::new_empty());
    table.push(Instruction::new_empty());
    table.push(Instruction::new_empty());
    table.push(Instruction::new("EOR", 4, Operation::Eor, AddressingMode::Abx));
    table.push(Instruction::new("LSR", 7, Operation::Lsr, AddressingMode::Abx));
    table.push(Instruction::new_empty());
}

/// Appends the entries of the opcodes `0x60..=0x6F`.
fn push_row_6(table: &mut Vec<Instruction>)
    requires
        is_instruction_set_prefix(old(table)@, 0x60),
    ensures
        is_instruction_set_prefix(final(table)@, 0x70),
{
    table.push(Instruction::new("RTS", 6, Operation::Rts, AddressingMode::Imp));
    table.push(Instruction::new("ADC", 6, Operation::Adc, AddressingMode::Izx));
    table.push(Instruction::new_empty());
    table.push(Instruction::new_empty());
    table.push(Instruction::new_empty());
    table.push(Instruction::new("ADC", 3, Operation::Adc, AddressingMode::Zp0));
    table.push(Instruction::new("ROR", 5, Operation::Ror, AddressingMode::Zp0));
    table.push(Instruction::new_empty());
    table.push(Instruction::new("PLA", 4, Operation::Pla, AddressingMode::Imp));
    table.push(Instruction::new("ADC", 2, Operation::Adc, AddressingMode::Imm));
    table.push(Instruction::new("ROR", 2, Operation::Ror, AddressingMode::Imp));
    table.push(Instruction::new_empty());
    table.push(Instruction::new("JMP", 5, Operation::Jmp, AddressingMode::Ind));
    table.push(Instruction::new("ADC", 4, Operation::Adc, AddressingMode::Abs));
    table.push(Instruction::new("ROR", 6, Operation::Ror, AddressingMode::Abs));
    table.push(Instruction::new_empty());
}

/// Appends the entries of the opcodes `0x70..=0x7F`.
fn push_row_7(table: &mut Vec<Instruction>)
    requires
        is_instruction_set_prefix(old(table)@, 0x70),
    ensures
        is_instruction_set_prefix(final(table)@, 0x80),
{
    table.push(Instruction::new("BVS", 2, Operation::Bvs, AddressingMode::Rel));
    table.push(Instruction::new("ADC", 5, Operation::Adc, AddressingMode::Izy));
    table.push(Instruction::new_empty());
    table.push(Instruction::new_empty());
    table.push(Instruction::new_empty());
    table.push(Instruction::new("ADC", 4, Operation::Adc, AddressingMode::Zpx));
    table.push(Instruction::new("ROR", 6, Operation::Ror, AddressingMode::Zpx));
    table.push(Instruction::new_empty());
    table.push(Instruction::new("SEI", 2, Operation::Sei, AddressingMode::Imp));
    table.push(Instruction::new("ADC", 4, Operation::Adc, AddressingMode::Aby));
    table.push(Instruction::new_empty());
    table.push(Instruction::new_empty());
    table.push(Instruction::new_empty());
    table.push(Instruction::new("ADC", 4, Operation::Adc, AddressingMode::Abx));
    table.push(Instruction::new("ROR", 7, Operation::Ror, AddressingMode::Abx));
    table.push(Instruction::new_empty());
}

/// Appends the entries of the opcodes `0x80..=0x8F`.
fn push_row_8(table: &mut Vec<Instruction>)
    requires
        is_instruction_set_prefix(old(table)@, 0x80),
    ensures
        is_instruction_set_prefix(final(table)@, 0x90),
{
    table.push(Instruction::new_empty());
    table.push(Instruction::new("STA", 6, Operation::Sta, AddressingMode::Izx));
    table.push(Instruction::new_empty());
    table.push(Instruction::new_empty());
    table.push(Instruction::new("STY", 3, Operation::Sty, AddressingMode::Zp0));
    table.push(Instruction::new("STA", 3, Operation::Sta, AddressingMode::Zp0));
    table.push(Instruction::new("STX", 3, Operation::Stx, AddressingMode::Zp0));
    table.push(Instruction::new_empty());
    table.push(Instruction::new("DEY", 2, Operation::Dey, AddressingMode::Imp));
    table.push(Instruction::new_empty());
    table.push(Instruction::new("TXA", 2, Operation::Txa, AddressingMode::Imp));
    table.push(Instruction::new_empty());
    table.push(Instruction::new("STY", 4, Operation::Sty, AddressingMode::Abs));
    table.push(Instruction::new("STA", 4, Operation::Sta, AddressingMode::Abs));
    table.push(Instruction::new("STX", 4, Operation::Stx, AddressingMode::Abs));
    table.push(Instruction::new_empty());
}

/// Appends the entries of the opcodes `0x90..=0x9F`.
fn push_row_9(table: &mut Vec<Instruction>)
    requires
        is_instruction_set_prefix(old(table)@, 0x90),
    ensures
        is_instruction_set_prefix(final(table)@, 0xA0),
{
    table.push(Instruction::new("BCC", 2, Operation::Bcc, AddressingMode::Rel));
    table.push(Instruction::new("STA", 6, Operation::Sta, AddressingMode::Izy));
    table.push(Instruction::new_empty());
    table.push(Instruction::new_empty());
    table.push(Instruction::new("STY", 4, Operation::Sty, AddressingMode::Zpx));
    table.push(Instruction::new("STA", 4, Operation::Sta, AddressingMode::Zpx));
    table.push(Instruction::new("STX", 4, Operation::Stx, AddressingMode::Zpy));
    table.push(Instruction::new_empty());
    table.push(Instruction::new("TYA", 2, Operation::Tya, AddressingMode::Imp));
    table.push(Instruction::new("STA", 5, Operation::Sta, AddressingMode::Aby));
    table.push(Instruction::new("TXS", 2, Operation::Txs, AddressingMode::Imp));
    table.push(Instruction::new_empty());
    table.push(Instruction::new_empty());
    table.push(Instruction::new("STA", 5, Operation::Sta, AddressingMode::Abx));
    table.push(Instruction::new_empty());
    table.push(Instruction::new_empty());
}

/// Appends the entries of the opcodes `0xA0..=0xAF`.
fn push_row_a(table: &mut Vec<Instruction>)
    requires
        is_instruction_set_prefix(old(table)@, 0xA0),
    ensures
        is_instruction_set_prefix(final(table)@, 0xB0),
{
    table.push(Instruction::new("LDY", 2, Operation::Ldy, AddressingMode::Imm));
    table.push(Instruction::new("LDA", 6, Operation::Lda, AddressingMode::Izx));
    table.push(Instruction::new("LDX", 2, Operation::Ldx, AddressingMode::Imm));
    table.push(Instruction::new_empty());
    table.push(Instruction::new("LDY", 3, Operation::Ldy, AddressingMode::Zp0));
    table.push(Instruction::new("LDA", 3, Operation::Lda, AddressingMode::Zp0));
    table.push(Instruction::new("LDX", 3, Operation::Ldx, AddressingMode::Zp0));
    table.push(Instruction::new_empty());
    table.push(Instruction::new("TAY", 2, Operation::Tay, AddressingMode::Imp));
    table.push(Instruction::new("LDA", 2, Operation::Lda, AddressingMode::Imm));
    table.push(Instruction::new("TAX", 2, Operation::Tax, AddressingMode::Imp));
    table.push(Instruction::new_empty());
    table.push(Instruction::new("LDY", 4, Operation::Ldy, AddressingMode::Abs));
    table.push(Instruction::new("LDA", 4, Operation::Lda, AddressingMode::Abs));
    table.push(Instruction::new("LDX", 4, Operation::Ldx, AddressingMode::Abs));
    table.push(Instruction::new_empty());
}

/// Appends the entries of the opcodes `0xB0..=0xBF`.
fn push_row_b(table: &mut Vec<Instruction>)
    requires
        is_instruction_set_prefix(old(table)@, 0xB0),
    ensures
        is_instruction_set_prefix(final(table)@, 0xC0),
{
    table.push(Instruction::new("BCS", 2, Operation::Bcs, AddressingMode::Rel));
    table.push(Instruction::new("LDA", 5, Operation::Lda, AddressingMode::Izy));
    table.push(Instruction::new_empty());
    table.push(Instruction::new_empty());
    table.push(Instruction::new("LDY", 4, Operation::Ldy, AddressingMode::Zpx));
    table.push(Instruction::new("LDA", 4, Operation::Lda, AddressingMode::Zpx));
    table.push(Instruction::new("LDX", 4, Operation::Ldx, AddressingMode::Zpy));
    table.push(Instruction::new_empty());
    table.push(Instruction::new("CLV", 2, Operation::Clv, AddressingMode::Imp));
    table.push(Instruction::new("LDA", 4, Operation::Lda, AddressingMode::Aby));
    table.push(Instruction::new("TSX", 2, Operation::Tsx, AddressingMode::Imp));
    table.push(Instruction::new_empty());
    table.push(Instruction::new("LDY", 4, Operation::Ldy, AddressingMode::Abx));
    table.push(Instruction::new("LDA", 4, Operation::Lda, AddressingMode::Abx));
    table.push(Instruction::new("LDX", 4, Operation::Ldx, AddressingMode::Aby));
    table.push(Instruction::new_empty());
}

/// Appends the entries of the opcodes `0xC0..=0xCF`.
fn push_row_c(table: &mut Vec<Instruction>)
    requires
        is_instruction_set_prefix(old(table)@, 0xC0),
    ensures
        is_instruction_set_prefix(final(table)@, 0xD0),
{
    table.push(Instruction::new("CPY", 2, Operation::Cpy, AddressingMode::Imm));
    table.push(Instruction::new("CMP", 6, Operation::Cmp, AddressingMode::Izx));
    table.push(Instruction::new_empty());
    table.push(Instruction::new_empty());
    table.push(Instruction::new("CPY", 3, Operation::Cpy, AddressingMode::Zp0));
    table.push(Instruction::new("CMP", 3, Operation::Cmp, AddressingMode::Zp0));
    table.push(Instruction::new("DEC", 5, Operation::Dec, AddressingMode::Zp0));
    table.push(Instruction::new_empty());
    table.push(Instruction::new("INY", 2, Operation::Iny, AddressingMode::Imp));
    table.push(Instruction::new("CMP", 2, Operation::Cmp, AddressingMode::Imm));
    table.push(Instruction::new("DEX", 2, Operation::Dex, AddressingMode::Imp));
    table.push(Instruction::new_empty());
    table.push(Instruction::new("CPY", 4, Operation::Cpy, AddressingMode::Abs));
    table.push(Instruction::new("CMP", 4, Operation::Cmp, AddressingMode::Abs));
    table.push(Instruction::new("DEC", 6, Operation::Dec, AddressingMode::Abs));
    table.push(Instruction::new_empty());
}

/// Appends the entries of the opcodes `0xD0..=0xDF`.
fn push_row_d(table: &mut Vec<Instruction>)
    requires
        is_instruction_set_prefix(old(table)@, 0xD0),
    ensures
        is_instruction_set_prefix(final(table)@, 0xE0),
{
    table.push(Instruction::new("BNE", 2, Operation::Bne, AddressingMode::Rel));
    table.push(Instruction::new("CMP", 5, Operation::Cmp, AddressingMode::Izy));
    table.push(Instruction::new_empty());
    table.push(Instruction::new_empty());
    table.push(Instruction::new_empty());
    table.push(Instruction::new("CMP", 4, Operation::Cmp, AddressingMode::Zpx));
    table.push(Instruction::new("DEC", 6, Operation::Dec, AddressingMode::Zpx));
    table.push(Instruction::new_empty());
    table.push(Instruction::new("CLD", 2, Operation::Cld, AddressingMode::Imp));
    table.push(Instruction::new("CMP", 4, Operation::Cmp, AddressingMode::Aby));
    table.push(Instruction::new_empty());
    table.push(Instruction::new_empty());
    table.push(Instruction::new_empty());
    table.push(Instruction::new("CMP", 4, Operation::Cmp, AddressingMode::Abx));
    table.push(Instruction::new("DEC", 7, Operation::Dec, AddressingMode::Abx));
    table.push(Instruction::new_empty());
}

/// Appends the entries of the opcodes `0xE0..=0xEF`.
fn push_row_e(table: &mut Vec<Instruction>)
    requires
        is_instruction_set_prefix(old(table)@, 0xE0),
    ensures
        is_instruction_set_prefix(final(table)@, 0xF0),
{
    table.push(Instruction::new("CPX", 2, Operation::Cpx, AddressingMode::Imm));
    table.push(Instruction::new("SBC", 6, Operation::Sbc, AddressingMode::Izx));
    table.push(Instruction::new_empty());
    table.push(Instruction::new_empty());
    table.push(Instruction::new("CPX", 3, Operation::Cpx, AddressingMode::Zp0));
    table.push(Instruction::new("SBC", 3, Operation::Sbc, AddressingMode::Zp0));
    table.push(Instruction::new("INC", 5, Operation::Inc, AddressingMode::Zp0));
    table.push(Instruction::new_empty());
    table.push(Instruction::new("INX", 2, Operation::Inx, AddressingMode::Imp));
    table.push(Instruction::new("SBC", 2, Operation::Sbc, AddressingMode::Imm));
    table.push(Instruction::new("NOP", 2, Operation::Nop, AddressingMode::Imp));
    table.push(Instruction::new_empty());
    table.push(Instruction::new("CPX", 4, Operation::Cpx, AddressingMode::Abs));
    table.push(Instruction::new("SBC", 4, Operation::Sbc, AddressingMode::Abs));
    table.push(Instruction::new("INC", 6, Operation::Inc, AddressingMode::Abs));
    table.push(Instruction::new_empty());
}

/// Appends the entries of the opcodes `0xF0..=0xFF`.
fn push_row_f(table: &mut Vec<Instruction>)
    requires
        is_instruction_set_prefix(old(table)@, 0xF0),
    ensures
        is_instruction_set_prefix(final(table)@, 0x100),
{
    table.push(Instruction::new("BEQ", 2, Operation::Beq, AddressingMode::Rel));
    table.push(Instruction::new("SBC", 5, Operation::Sbc, AddressingMode::Izy));
    table.push(Instruction::new_empty());
    table.push(Instruction::new_empty());
    table.push(Instruction::new_empty());
    table.push(Instruction::new("SBC", 4, Operation::Sbc, AddressingMode::Zpx));
    table.push(Instruction::new("INC", 6, Operation::Inc, AddressingMode::Zpx));
    table.push(Instruction::new_empty());
    table.push(Instruction::new("SED", 2, Operation::Sed, AddressingMode::Imp));
    table.push(Instruction::new("SBC", 4, Operation::Sbc, AddressingMode::Aby));
    table.push(Instruction::new_empty());
    table.push(Instruction::new_empty());
    table.push(Instruction::new_empty());
    table.push(Instruction::new("SBC", 4, Operation::Sbc, AddressingMode::Abx));
    table.push(Instruction::new("INC", 7, Operation::Inc, AddressingMode::Abx));
    table.push(Instruction::new_empty());
}

/// The opcode table of the processor.
///
/// The first quarter carries, beside the documented instructions, entries for
/// unassigned bytes with a cost of their own; from `0x40` on an unassigned
/// byte has the empty entry.
pub fn instruction_set() -> (table: Vec<Instruction>)
    ensures
        is_instruction_set(table@),
{
    let mut table: Vec<Instruction> = Vec::with_capacity(256);
    push_row_0(&mut table);
    push_row_1(&mut table);
    push_row_2(&mut table);
    push_row_3(&mut table);
    push_row_4(&mut table);
    push_row_5(&mut table);
    push_row_6(&mut table);
    push_row_7(&mut table);
    push_row_8(&mut table);
    push_row_9(&mut table);
    push_row_a(&mut table);
    push_row_b(&mut table);
    push_row_c(&mut table);
    push_row_d(&mut table);
    push_row_e(&mut table);
    push_row_f(&mut table);
    table
}

} // verus!
