//! The machine as mathematics: what the processor holds, what the bus holds,
//! and how the bus answers a read and changes by a write.

use vstd::prelude::*;
use crate::cartridge::{Cartridge, ICartridge};
use crate::ppu::{IPPU, PPU, law_registers_hold_nothing};
use crate::status::word;

verus! {

/// Bytes of internal memory.
pub const RAM_SIZE: usize = 2048;

/// The last address of the window that shows internal memory, four times over.
pub const RAM_WINDOW_END: u16 = 0x1FFF;

/// The last address of the window that shows the picture unit's eight
/// registers, again and again.
pub const PPU_WINDOW_END: u16 = 0x3FFF;

/// What a read gives where nothing answers.
pub const OPEN_BUS: u8 = 0x00;

/// The registers of the processor and what it keeps of the instruction in
/// flight.
#[derive(Clone, Copy, Debug, PartialEq, Eq, Structural)]
pub struct CpuState {
    pub a: u8,
    pub x: u8,
    pub y: u8,
    pub pc: u16,
    pub sp: u8,
    pub status_flags: u8,
    /// The operand that the last instruction worked on.
    pub last_fetched: u8,
    /// The address that the addressing mode found.
    pub absolute_addr: u16,
    /// The displacement that the relative mode found.
    pub relative_addr: u16,
    /// The opcode of the instruction in flight.
    pub opcode: u8,
    /// The cycles that the instruction in flight still takes.
    pub cycles: u8,
}

/// What the bus holds.
pub struct BusState {
    pub ram: Seq<u8>,
    pub cpu: Option<CpuState>,
    pub ppu: Option<PPU>,
    pub cartridge: Option<Cartridge>,
    pub clock: u32,
}

/// A processor and the bus it works on.
pub struct Machine {
    pub cpu: CpuState,
    pub bus: BusState,
}

/// Where in internal memory an address of its window lands.
pub open spec fn ram_index(addr: u16) -> int {
    addr as int % RAM_SIZE as int
}

/// Which of the picture unit's registers an address of their window names.
pub open spec fn ppu_register(addr: u16) -> u16 {
    (addr % 8) as u16
}

/// Taking the low 11 bits of an address is the remainder by the size of
/// internal memory; taking the low 3 bits, the remainder by eight.
proof fn lemma_window_masks(addr: u16)
    by (bit_vector)
    ensures
        addr & 0x07FF == addr % 2048,
        addr & 0x0007 == addr % 8,
{
}

/// Where in internal memory an address lands.
pub fn ram_slot(addr: u16) -> (slot: usize)
    ensures
        slot == ram_index(addr),
        slot < RAM_SIZE,
{
    proof {
        lemma_window_masks(addr);
    }
    (addr & 0x07FF) as usize
}

/// Which of the picture unit's registers an address names.
pub fn register_of(addr: u16) -> (register: u16)
    ensures
        register == ppu_register(addr),
        register < 8,
{
    proof {
        lemma_window_masks(addr);
    }
    addr & 0x0007
}

impl BusState {
    /// The memory has its size, and the components that are there are well
    /// formed.
    pub open spec fn wf(&self) -> bool {
        &&& self.ram.len() == RAM_SIZE
        &&& self.ppu matches Some(ppu) ==> ppu.wf()
        &&& self.cartridge matches Some(cartridge) ==> cartridge.wf()
    }

    /// What the cartridge answers to a read, if there is one and it does.
    pub open spec fn cartridge_answer(&self, addr: u16) -> Option<u8> {
        match self.cartridge {
            Some(cartridge) => cartridge.cpu_peek(addr),
            None => None,
        }
    }

    /// Whether a cartridge is there and takes a write.
    pub open spec fn cartridge_takes(&self, addr: u16) -> bool {
        match self.cartridge {
            Some(cartridge) => cartridge.takes_cpu_write(addr),
            None => false,
        }
    }

    /// What a read of `addr` gives: the cartridge's answer if it has one;
    /// else internal memory or a register of the picture unit, by the
    /// address; else nothing.
    pub open spec fn peek(&self, addr: u16) -> u8 {
        match self.cartridge_answer(addr) {
            Some(data) => data,
            None => if addr <= RAM_WINDOW_END {
                self.ram[ram_index(addr)]
            } else if addr <= PPU_WINDOW_END {
                match self.ppu {
                    Some(ppu) => ppu.register_peek(ppu_register(addr)),
                    None => OPEN_BUS,
                }
            } else {
                OPEN_BUS
            },
        }
    }

    /// The word whose low byte is at `addr` and whose high byte follows it.
    pub open spec fn peek_word(&self, addr: u16) -> u16 {
        word(self.peek(addr), self.peek(addr.wrapping_add(1)))
    }

    /// The bus after a write of `data` to `addr`: the cartridge has it if it
    /// takes it; else internal memory or a register of the picture unit, by
    /// the address; else it is lost.
    pub open spec fn poke(self, addr: u16, data: u8) -> BusState {
        if self.cartridge_takes(addr) {
            BusState { cartridge: Some(self.cartridge->0.after_cpu_write(addr, data)), ..self }
        } else if addr <= RAM_WINDOW_END {
            BusState { ram: self.ram.update(ram_index(addr), data), ..self }
        } else if addr <= PPU_WINDOW_END {
            match self.ppu {
                Some(ppu) => BusState {
                    ppu: Some(ppu.after_cpu_write(ppu_register(addr), data)),
                    ..self
                },
                None => self,
            }
        } else {
            self
        }
    }
}

/// A write keeps the bus well formed and leaves the processor slot, the
/// clock, the cartridge and the picture unit, whose registers hold
/// nothing, as they were.
pub proof fn lemma_poke_keeps(bus: BusState, addr: u16, data: u8)
    requires
        bus.wf(),
    ensures
        bus.poke(addr, data).wf(),
        bus.poke(addr, data).cpu == bus.cpu,
        bus.poke(addr, data).clock == bus.clock,
        bus.poke(addr, data).cartridge == bus.cartridge,
        bus.poke(addr, data).ppu == bus.ppu,
{
    if bus.ppu is Some {
        law_registers_hold_nothing(bus.ppu->0, ppu_register(addr), data);
    }
}

/// What is written to an address of internal memory's window is read back
/// from it and from each of its mirrors: every address of the window that
/// has the same remainder by the size of internal memory.
pub proof fn law_ram_mirrors(bus: BusState, addr: u16, data: u8, mirror: u16)
    requires
        bus.wf(),
        addr <= RAM_WINDOW_END,
        mirror <= RAM_WINDOW_END,
        mirror % 0x0800 == addr % 0x0800,
    ensures
        bus.poke(addr, data).peek(mirror) == data,
{
}

/// A write to internal memory is seen at its mirrors and nowhere else.
pub proof fn law_ram_write_is_local(bus: BusState, addr: u16, data: u8, other: u16)
    requires
        bus.wf(),
        addr <= RAM_WINDOW_END,
        !(other <= RAM_WINDOW_END && other % 0x0800 == addr % 0x0800),
    ensures
        bus.poke(addr, data).peek(other) == bus.peek(other),
{
}

/// An address in the window of the picture unit that no cartridge claims
/// reaches the register that its low three bits name, and no other: a read
/// gives what that register gives, and a write changes the unit as a write
/// to that register does and leaves internal memory and the clock alone.
/// Two addresses of the window reach the same register exactly when their
/// low three bits agree.
pub proof fn law_ppu_window_reaches_the_register(bus: BusState, addr: u16, data: u8, other: u16)
    requires
        bus.wf(),
        bus.ppu is Some,
        0x2000 <= addr <= PPU_WINDOW_END,
        0x2000 <= other <= PPU_WINDOW_END,
    ensures
        bus.cartridge_answer(addr) is None,
        !bus.cartridge_takes(addr),
        bus.peek(addr) == bus.ppu->0.register_peek((addr & 0x0007) as u16),
        bus.poke(addr, data).ppu == Some(
            bus.ppu->0.after_cpu_write((addr & 0x0007) as u16, data),
        ),
        bus.poke(addr, data).ram == bus.ram,
        bus.poke(addr, data).clock == bus.clock,
        bus.poke(addr, data).cpu == bus.cpu,
        ppu_register(addr) == ppu_register(other) <==> addr & 0x0007 == other & 0x0007,
{
    lemma_window_masks(addr);
    lemma_window_masks(other);
}

/// The window of the picture unit shows exactly eight registers: every
/// address of it names one of the numbers 0 to 7, each of them is named, and
/// two addresses name the same register exactly when they are a multiple of
/// eight apart.
pub proof fn law_ppu_window_has_eight_registers(addr: u16, other: u16, register: u16)
    requires
        0x2000 <= addr <= PPU_WINDOW_END,
        0x2000 <= other <= PPU_WINDOW_END,
        register < 8,
    ensures
        ppu_register(addr) < 8,
        ppu_register(addr) == addr & 0x0007,
        ppu_register((0x2000 + register) as u16) == register,
        ppu_register(addr) == ppu_register(other) <==> (addr - other) % 8 == 0,
{
    lemma_window_masks(addr);
}

} // verus!
