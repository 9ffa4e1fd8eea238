//! Mapper 000: program and pattern memory at fixed addresses.

use vstd::prelude::*;
use crate::mapper::IMapper;

verus! {

/// The mapper without bank switching.
///
/// The processor's window `0x8000..=0xFFFF` shows program memory: 32 KiB as
/// they are, or one 16 KiB bank twice. The picture unit's window
/// `0x0000..=0x1FFF` shows pattern memory as it is.
#[derive(Clone, Copy, Debug)]
pub struct Mapper000 {
    pub prg_banks: u8,
    pub chr_banks: u8,
}

impl Mapper000 {
    /// The offset of a processor address inside program memory: the address
    /// within the window, taken modulo 16 KiB where one bank is mirrored.
    pub open spec fn prg_offset(&self, addr: u16) -> u32 {
        if self.prg_banks > 1 {
            (addr % 0x8000) as u32
        } else {
            (addr % 0x4000) as u32
        }
    }

    /// The mapper for a cartridge with the given bank counts.
    pub fn new(prg_banks: u8, chr_banks: u8) -> (mapper: Mapper000)
        ensures
            mapper.prg_banks == prg_banks,
            mapper.chr_banks == chr_banks,
    {
        Mapper000 { prg_banks, chr_banks }
    }
}

/// Masking an address to 15 or 14 bits is the remainder by the window's size.
pub proof fn lemma_window_mask(addr: u16)
    by (bit_vector)
    ensures
        addr & 0x7FFF == addr % 0x8000,
        addr & 0x3FFF == addr % 0x4000,
{
}

impl IMapper for Mapper000 {
    open spec fn cpu_read_target(&self, addr: u16) -> Option<u32> {
        if addr >= 0x8000 {
            Some(self.prg_offset(addr))
        } else {
            None
        }
    }

    /// Program memory cannot be written, yet the mapper owns the address: a
    /// write claims exactly what a read claims.
    open spec fn cpu_write_target(&self, addr: u16) -> Option<u32> {
        self.cpu_read_target(addr)
    }

    open spec fn ppu_read_target(&self, addr: u16) -> Option<u32> {
        if addr <= 0x1FFF {
            Some(addr as u32)
        } else {
            None
        }
    }

    /// Pattern memory is fixed: no write is claimed.
    open spec fn ppu_write_target(&self, addr: u16) -> Option<u32> {
        None
    }

    fn cpu_map_read(&self, addr: u16) -> (mapped: Option<u32>) {
        if addr >= 0x8000 {
            proof {
                lemma_window_mask(addr);
            }
            let mask: u16 = if self.prg_banks > 1 { 0x7FFF } else { 0x3FFF };
            Some((addr & mask) as u32)
        } else {
            None
        }
    }

    fn cpu_map_write(&self, addr: u16) -> (mapped: Option<u32>) {
        self.cpu_map_read(addr)
    }

    fn ppu_map_read(&self, addr: u16) -> (mapped: Option<u32>) {
        if addr <= 0x1FFF {
            Some(addr as u32)
        } else {
            None
        }
    }

    fn ppu_map_write(&self, addr: u16) -> (mapped: Option<u32>) {
        None
    }
}

/// With one bank, the first address of the window maps to offset
/// `0x8000 & 0x3FFF`; with two, to `0x8000 & 0x7FFF`. Either way that is the
/// start of program memory.
pub proof fn law_window_start(mapper: Mapper000)
    ensures
        mapper.prg_banks == 1 ==> mapper.cpu_read_target(0x8000) == Some((0x8000u16 & 0x3FFF) as u32),
        mapper.prg_banks == 2 ==> mapper.cpu_read_target(0x8000) == Some((0x8000u16 & 0x7FFF) as u32),
        mapper.cpu_read_target(0x8000) == Some(0u32),
{
    lemma_window_mask(0x8000);
}

/// Below the window the mapper claims nothing, for reads and writes alike.
pub proof fn law_below_window_unclaimed(mapper: Mapper000, addr: u16)
    requires
        addr < 0x8000,
    ensures
        mapper.cpu_read_target(addr) is None,
        mapper.cpu_write_target(addr) is None,
{
}

/// A claimed processor address lands inside the banks that the mapper was
/// made for, as long as there is at least one.
pub proof fn law_target_in_banks(mapper: Mapper000, addr: u16)
    requires
        mapper.prg_banks >= 1,
        addr >= 0x8000,
    ensures
        mapper.cpu_read_target(addr)->0 < mapper.prg_banks * 0x4000,
{
}

} // verus!
