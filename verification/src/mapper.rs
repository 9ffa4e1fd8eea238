//! Address translation between the console's buses and cartridge memory.

use vstd::prelude::*;
use crate::mapper000::Mapper000;

verus! {

/// Translates a bus address into an offset inside cartridge memory.
///
/// Each operation answers `None` where the mapper leaves the address to the
/// rest of the machine. A translation depends on the address and on the
/// mapper's registers alone, so each one is a spec function of the mapper.
pub trait IMapper {
    /// Where a processor read of `addr` lands in program memory.
    spec fn cpu_read_target(&self, addr: u16) -> Option<u32>;

    /// Where a processor write of `addr` lands in program memory.
    spec fn cpu_write_target(&self, addr: u16) -> Option<u32>;

    /// Where a picture-unit read of `addr` lands in pattern memory.
    spec fn ppu_read_target(&self, addr: u16) -> Option<u32>;

    /// Where a picture-unit write of `addr` lands in pattern memory.
    spec fn ppu_write_target(&self, addr: u16) -> Option<u32>;

    fn cpu_map_read(&self, addr: u16) -> (mapped: Option<u32>)
        ensures
            mapped == self.cpu_read_target(addr),
    ;

    fn cpu_map_write(&self, addr: u16) -> (mapped: Option<u32>)
        ensures
            mapped == self.cpu_write_target(addr),
    ;

    fn ppu_map_read(&self, addr: u16) -> (mapped: Option<u32>)
        ensures
            mapped == self.ppu_read_target(addr),
    ;

    fn ppu_map_write(&self, addr: u16) -> (mapped: Option<u32>)
        ensures
            mapped == self.ppu_write_target(addr),
    ;
}

/// The bank-switching schemes this core knows, one case per mapper identifier.
#[derive(Clone, Copy, Debug, PartialEq, Eq, Structural)]
pub enum MapperVariant {
    /// Identifier 0: fixed banks.
    Nrom,
}

/// The mapper a cartridge owns: a variant and the bank counts it works on.
#[derive(Clone, Copy, Debug)]
pub struct Mapper {
    pub variant: MapperVariant,
    pub prg_banks: u8,
    pub chr_banks: u8,
}

impl Mapper {
    /// The variant that a mapper identifier names, if this core has it.
    pub open spec fn variant_of(mapper_id: u8) -> Option<MapperVariant> {
        if mapper_id == 0 {
            Some(MapperVariant::Nrom)
        } else {
            None
        }
    }

    /// The fixed-bank mapper with the same bank counts.
    pub open spec fn as_nrom(&self) -> Mapper000 {
        Mapper000 { prg_banks: self.prg_banks, chr_banks: self.chr_banks }
    }

    /// The baseline mapper for the given bank counts.
    pub fn new(prg_banks: u8, chr_banks: u8) -> (mapper: Mapper)
        ensures
            mapper.variant == MapperVariant::Nrom,
            mapper.prg_banks == prg_banks,
            mapper.chr_banks == chr_banks,
    {
        Mapper { variant: MapperVariant::Nrom, prg_banks, chr_banks }
    }

    /// The mapper that `mapper_id` names, or `None` for an identifier that
    /// this core does not know.
    pub fn select(mapper_id: u8, prg_banks: u8, chr_banks: u8) -> (mapper: Option<Mapper>)
        ensures
            mapper is Some <==> Self::variant_of(mapper_id) is Some,
            mapper matches Some(m) ==> {
                &&& Some(m.variant) == Self::variant_of(mapper_id)
                &&& m.prg_banks == prg_banks
                &&& m.chr_banks == chr_banks
            },
    {
        if mapper_id == 0 {
            Some(Mapper { variant: MapperVariant::Nrom, prg_banks, chr_banks })
        } else {
            None
        }
    }
}

impl IMapper for Mapper {
    open spec fn cpu_read_target(&self, addr: u16) -> Option<u32> {
        match self.variant {
            MapperVariant::Nrom => self.as_nrom().cpu_read_target(addr),
        }
    }

    open spec fn cpu_write_target(&self, addr: u16) -> Option<u32> {
        match self.variant {
            MapperVariant::Nrom => self.as_nrom().cpu_write_target(addr),
        }
    }

    open spec fn ppu_read_target(&self, addr: u16) -> Option<u32> {
        match self.variant {
            MapperVariant::Nrom => self.as_nrom().ppu_read_target(addr),
        }
    }

    open spec fn ppu_write_target(&self, addr: u16) -> Option<u32> {
        match self.variant {
            MapperVariant::Nrom => self.as_nrom().ppu_write_target(addr),
        }
    }

    fn cpu_map_read(&self, addr: u16) -> (mapped: Option<u32>) {
        match self.variant {
            MapperVariant::Nrom => Mapper000::new(self.prg_banks, self.chr_banks).cpu_map_read(addr),
        }
    }

    fn cpu_map_write(&self, addr: u16) -> (mapped: Option<u32>) {
        match self.variant {
            MapperVariant::Nrom => Mapper000::new(self.prg_banks, self.chr_banks).cpu_map_write(addr),
        }
    }

    fn ppu_map_read(&self, addr: u16) -> (mapped: Option<u32>) {
        match self.variant {
            MapperVariant::Nrom => Mapper000::new(self.prg_banks, self.chr_banks).ppu_map_read(addr),
        }
    }

    fn ppu_map_write(&self, addr: u16) -> (mapped: Option<u32>) {
        match self.variant {
            MapperVariant::Nrom => Mapper000::new(self.prg_banks, self.chr_banks).ppu_map_write(addr),
        }
    }
}

} // verus!
