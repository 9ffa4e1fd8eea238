//! The cartridge: program and pattern memory behind a mapper.

use vstd::prelude::*;
use vstd::slice::{slice_subrange, slice_to_vec};
use crate::mapper::{IMapper, Mapper};

verus! {

/// Bytes in one bank of program memory.
pub const PRG_BANK_SIZE: usize = 16384;

/// Bytes in one bank of pattern memory.
pub const CHR_BANK_SIZE: usize = 8192;

/// Bytes in the header that opens a ROM container.
pub const HEADER_SIZE: usize = 16;

/// Bytes in the trainer block that may follow the header.
pub const TRAINER_SIZE: usize = 512;

/// How the cartridge arranges the two nametables.
#[derive(Clone, Copy, Debug, PartialEq, Eq, Structural)]
pub enum Mirror {
    Vertical,
    Horizontal,
    OnescreenLo,
    OnescreenHi,
}

/// Why a cartridge could not be made.
#[derive(Clone, Copy, Debug, PartialEq, Eq, Structural)]
pub enum LoadError {
    /// The bytes are too few, or do not fit the bank counts given with them.
    Malformed,
    /// The image asks for a mapper that this core does not have.
    UnknownMapper(u8),
}

/// A ROM image taken apart: the two memories and what the header said of them.
pub struct RomImage {
    pub prg_rom: Vec<u8>,
    pub chr_rom: Vec<u8>,
    pub mapper_id: u8,
    pub prg_banks: u8,
    pub chr_banks: u8,
    pub mirror: Mirror,
}

/// The reason to refuse an image with these properties, if there is one.
///
/// An unknown mapper is reported first. Otherwise each memory must hold
/// exactly the banks that are counted for it, which may be none.
pub open spec fn rejection(
    mapper_id: u8,
    prg_banks: u8,
    chr_banks: u8,
    prg_len: nat,
    chr_len: nat,
) -> Option<LoadError> {
    if Mapper::variant_of(mapper_id) is None {
        Some(LoadError::UnknownMapper(mapper_id))
    } else if prg_len != prg_banks * PRG_BANK_SIZE || chr_len != chr_banks * CHR_BANK_SIZE {
        Some(LoadError::Malformed)
    } else {
        None
    }
}

/// The mapper identifier in a container's header: the high nibbles of its
/// two flag bytes, the second above the first.
pub open spec fn container_mapper_id(bytes: Seq<u8>) -> u8 {
    ((bytes[7] / 16) * 16 + bytes[6] / 16) as u8
}

/// Whether a trainer block sits between the header and program memory.
pub open spec fn container_has_trainer(bytes: Seq<u8>) -> bool {
    bytes[6] & 0x04 != 0
}

/// The nametable arrangement that the header asks for.
pub open spec fn container_mirror(bytes: Seq<u8>) -> Mirror {
    if bytes[6] & 0x01 != 0 {
        Mirror::Vertical
    } else {
        Mirror::Horizontal
    }
}

/// Where program memory starts in a container.
pub open spec fn container_prg_start(bytes: Seq<u8>) -> int {
    if container_has_trainer(bytes) {
        HEADER_SIZE + TRAINER_SIZE
    } else {
        HEADER_SIZE as int
    }
}

/// Where pattern memory starts in a container: right behind program memory.
pub open spec fn container_chr_start(bytes: Seq<u8>) -> int {
    container_prg_start(bytes) + bytes[4] * PRG_BANK_SIZE
}

/// Where the memories end in a container. Bytes behind that are ignored.
pub open spec fn container_end(bytes: Seq<u8>) -> int {
    container_chr_start(bytes) + bytes[5] * CHR_BANK_SIZE
}

/// A container is complete when it holds its header and every byte of the
/// banks that the header counts.
pub open spec fn container_complete(bytes: Seq<u8>) -> bool {
    bytes.len() >= HEADER_SIZE && bytes.len() >= container_end(bytes)
}

/// The two flag nibbles put together by shifts are the mapper identifier.
proof fn lemma_mapper_nibbles(flags6: u8, flags7: u8)
    by (bit_vector)
    ensures
        ((flags7 >> 4) << 4) | (flags6 >> 4) == ((flags7 / 16) * 16 + flags6 / 16) as u8,
{
}

impl RomImage {
    /// The reason to refuse this image, if there is one.
    pub open spec fn rejection(&self) -> Option<LoadError> {
        rejection(
            self.mapper_id,
            self.prg_banks,
            self.chr_banks,
            self.prg_rom@.len(),
            self.chr_rom@.len(),
        )
    }

    /// This image is what the container `bytes` holds.
    pub open spec fn is_content_of(&self, bytes: Seq<u8>) -> bool {
        &&& self.prg_banks == bytes[4]
        &&& self.chr_banks == bytes[5]
        &&& self.mapper_id == container_mapper_id(bytes)
        &&& self.mirror == container_mirror(bytes)
        &&& self.prg_rom@ == bytes.subrange(container_prg_start(bytes), container_chr_start(bytes))
        &&& self.chr_rom@ == bytes.subrange(container_chr_start(bytes), container_end(bytes))
    }

    /// Takes a ROM container apart.
    ///
    /// The header's fifth and sixth byte count the banks, its two flag bytes
    /// give the mapper, the arrangement and the trainer. The four bytes of
    /// the signature are not looked at. A container that ends before its
    /// banks do is malformed; nothing else is refused here.
    pub fn parse(bytes: &[u8]) -> (parsed: Result<RomImage, LoadError>)
        ensures
            container_complete(bytes@) ==> parsed is Ok && parsed->Ok_0.is_content_of(bytes@),
            !container_complete(bytes@) ==> parsed == Err::<RomImage, LoadError>(
                LoadError::Malformed,
            ),
    {
        if bytes.len() < HEADER_SIZE {
            return Err(LoadError::Malformed);
        }
        let prg_banks: u8 = bytes[4];
        let chr_banks: u8 = bytes[5];
        let flags6: u8 = bytes[6];
        let flags7: u8 = bytes[7];
        let prg_start: usize = if flags6 & 0x04 != 0 {
            HEADER_SIZE + TRAINER_SIZE
        } else {
            HEADER_SIZE
        };
        let prg_len: usize = prg_banks as usize * PRG_BANK_SIZE;
        let chr_len: usize = chr_banks as usize * CHR_BANK_SIZE;
        let chr_start: usize = prg_start + prg_len;
        let end: usize = chr_start + chr_len;
        if bytes.len() < end {
            return Err(LoadError::Malformed);
        }
        proof {
            lemma_mapper_nibbles(flags6, flags7);
        }
        let mirror = if flags6 & 0x01 != 0 {
            Mirror::Vertical
        } else {
            Mirror::Horizontal
        };
        Ok(
            RomImage {
                prg_rom: slice_to_vec(slice_subrange(bytes, prg_start, chr_start)),
                chr_rom: slice_to_vec(slice_subrange(bytes, chr_start, end)),
                mapper_id: ((flags7 >> 4) << 4) | (flags6 >> 4),
                prg_banks,
                chr_banks,
                mirror,
            },
        )
    }
}

/// What the bus and the picture unit ask of a cartridge.
///
/// A read answers `None`, and a write `false`, where the cartridge leaves the
/// address to the one who asked.
pub trait ICartridge: Sized {
    /// The cartridge's memories fit its mapper.
    spec fn wf(&self) -> bool;

    /// What the cartridge answers to a processor read.
    spec fn cpu_peek(&self, addr: u16) -> Option<u8>;

    /// What the cartridge answers to a picture-unit read.
    spec fn ppu_peek(&self, addr: u16) -> Option<u8>;

    /// Whether the cartridge takes a processor write.
    spec fn takes_cpu_write(&self, addr: u16) -> bool;

    /// Whether the cartridge takes a picture-unit write.
    spec fn takes_ppu_write(&self, addr: u16) -> bool;

    /// The cartridge after a processor write.
    spec fn after_cpu_write(&self, addr: u16, data: u8) -> Self;

    /// The cartridge after a picture-unit write.
    spec fn after_ppu_write(&self, addr: u16, data: u8) -> Self;

    fn cpu_read(&self, addr: u16) -> (data: Option<u8>)
        requires
            self.wf(),
        ensures
            data == self.cpu_peek(addr),
    ;

    fn cpu_write(&mut self, addr: u16, data: u8) -> (taken: bool)
        requires
            old(self).wf(),
        ensures
            taken == old(self).takes_cpu_write(addr),
            *final(self) == old(self).after_cpu_write(addr, data),
            final(self).wf(),
    ;

    fn ppu_read(&self, addr: u16) -> (data: Option<u8>)
        requires
            self.wf(),
        ensures
            data == self.ppu_peek(addr),
    ;

    fn ppu_write(&mut self, addr: u16, data: u8) -> (taken: bool)
        requires
            old(self).wf(),
        ensures
            taken == old(self).takes_ppu_write(addr),
            *final(self) == old(self).after_ppu_write(addr, data),
            final(self).wf(),
    ;
}

/// A cartridge: its memories, what its header said, and its mapper.
pub struct Cartridge {
    pub prg_memory: Vec<u8>,
    pub chr_memory: Vec<u8>,
    pub mapper_id: u8,
    pub prg_banks: u8,
    pub chr_banks: u8,
    pub image_valid: bool,
    pub mirror: Mirror,
    pub mapper: Mapper,
}

impl Cartridge {
    /// This cartridge holds exactly what `image` held.
    pub open spec fn holds(&self, image: RomImage) -> bool {
        &&& self.prg_memory@ == image.prg_rom@
        &&& self.chr_memory@ == image.chr_rom@
        &&& self.mapper_id == image.mapper_id
        &&& self.prg_banks == image.prg_banks
        &&& self.chr_banks == image.chr_banks
        &&& self.mirror == image.mirror
    }

    /// Whether the memories fit the mapper. A cartridge whose fields were
    /// set by hand can be held to this before it is read.
    pub fn is_well_formed(&self) -> (ok: bool)
        ensures
            ok == self.wf(),
    {
        let variant_fits = match Mapper::select(self.mapper_id, self.prg_banks, self.chr_banks) {
            Some(mapper) => mapper.variant == self.mapper.variant,
            None => false,
        };
        self.image_valid && self.prg_memory.len() == self.prg_banks as usize * PRG_BANK_SIZE
            && self.chr_memory.len() == self.chr_banks as usize * CHR_BANK_SIZE && variant_fits
            && self.mapper.prg_banks == self.prg_banks && self.mapper.chr_banks == self.chr_banks
    }

    /// Makes a cartridge from an image, with the mapper that the image names.
    ///
    /// The image is refused exactly when [`RomImage::rejection`] gives a
    /// reason, and with that reason.
    pub fn load(image: RomImage) -> (loaded: Result<Cartridge, LoadError>)
        ensures
            image.rejection() matches Some(reason) ==> loaded == Err::<Cartridge, LoadError>(
                reason,
            ),
            image.rejection() is None ==> loaded is Ok && loaded->Ok_0.holds(image)
                && loaded->Ok_0.wf(),
    {
        let mapper = match Mapper::select(image.mapper_id, image.prg_banks, image.chr_banks) {
            Some(mapper) => mapper,
            None => {
                return Err(LoadError::UnknownMapper(image.mapper_id));
            },
        };
        if image.prg_rom.len() != image.prg_banks as usize * PRG_BANK_SIZE || image.chr_rom.len()
            != image.chr_banks as usize * CHR_BANK_SIZE {
            return Err(LoadError::Malformed);
        }
        Ok(
            Cartridge {
                prg_memory: image.prg_rom,
                chr_memory: image.chr_rom,
                mapper_id: image.mapper_id,
                prg_banks: image.prg_banks,
                chr_banks: image.chr_banks,
                image_valid: true,
                mirror: image.mirror,
                mapper,
            },
        )
    }

    /// Makes a cartridge from the bytes of a ROM container.
    ///
    /// A container that is not complete is malformed, and one that names a
    /// mapper this core does not have is refused for that. Every other
    /// container gives a cartridge that holds its two memories, which may
    /// be empty.
    pub fn new(bytes: &[u8]) -> (loaded: Result<Cartridge, LoadError>)
        ensures
            !container_complete(bytes@) ==> loaded == Err::<Cartridge, LoadError>(
                LoadError::Malformed,
            ),
            container_complete(bytes@) && Mapper::variant_of(container_mapper_id(bytes@)) is None
                ==> loaded == Err::<Cartridge, LoadError>(
                LoadError::UnknownMapper(container_mapper_id(bytes@)),
            ),
            container_complete(bytes@) && Mapper::variant_of(container_mapper_id(bytes@)) is Some
                ==> {
                &&& loaded is Ok
                &&& loaded->Ok_0.wf()
                &&& loaded->Ok_0.mapper_id == container_mapper_id(bytes@)
                &&& loaded->Ok_0.mirror == container_mirror(bytes@)
                &&& loaded->Ok_0.prg_banks == bytes@[4]
                &&& loaded->Ok_0.chr_banks == bytes@[5]
                &&& loaded->Ok_0.prg_memory@ == bytes@.subrange(
                    container_prg_start(bytes@),
                    container_chr_start(bytes@),
                )
                &&& loaded->Ok_0.chr_memory@ == bytes@.subrange(
                    container_chr_start(bytes@),
                    container_end(bytes@),
                )
            },
    {
        match RomImage::parse(bytes) {
            Ok(image) => Cartridge::load(image),
            Err(reason) => Err(reason),
        }
    }
}

impl ICartridge for Cartridge {
    open spec fn wf(&self) -> bool {
        &&& self.image_valid
        &&& self.prg_memory@.len() == self.prg_banks * PRG_BANK_SIZE
        &&& self.chr_memory@.len() == self.chr_banks * CHR_BANK_SIZE
        &&& Mapper::variant_of(self.mapper_id) == Some(self.mapper.variant)
        &&& self.mapper.prg_banks == self.prg_banks
        &&& self.mapper.chr_banks == self.chr_banks
    }

    /// The byte of program memory at the mapper's target. Nothing where
    /// the mapper gives no target, or program memory has no byte there.
    open spec fn cpu_peek(&self, addr: u16) -> Option<u8> {
        match self.mapper.cpu_read_target(addr) {
            Some(target) => if target < self.prg_memory@.len() {
                Some(self.prg_memory@[target as int])
            } else {
                None
            },
            None => None,
        }
    }

    /// The byte of pattern memory at the mapper's target. Nothing where
    /// the mapper gives no target, or pattern memory has no byte there.
    open spec fn ppu_peek(&self, addr: u16) -> Option<u8> {
        match self.mapper.ppu_read_target(addr) {
            Some(target) => if target < self.chr_memory@.len() {
                Some(self.chr_memory@[target as int])
            } else {
                None
            },
            None => None,
        }
    }

    open spec fn takes_cpu_write(&self, addr: u16) -> bool {
        self.mapper.cpu_write_target(addr) is Some
    }

    open spec fn takes_ppu_write(&self, addr: u16) -> bool {
        self.mapper.ppu_write_target(addr) is Some
    }

    /// Program memory is read-only under every mapper of this core.
    open spec fn after_cpu_write(&self, addr: u16, data: u8) -> Self {
        *self
    }

    /// Pattern memory is read-only under every mapper of this core.
    open spec fn after_ppu_write(&self, addr: u16, data: u8) -> Self {
        *self
    }

    fn cpu_read(&self, addr: u16) -> (data: Option<u8>) {
        match self.mapper.cpu_map_read(addr) {
            Some(target) => if (target as usize) < self.prg_memory.len() {
                Some(self.prg_memory[target as usize])
            } else {
                None
            },
            None => None,
        }
    }

    fn cpu_write(&mut self, addr: u16, data: u8) -> (taken: bool) {
        self.mapper.cpu_map_write(addr).is_some()
    }

    fn ppu_read(&self, addr: u16) -> (data: Option<u8>) {
        match self.mapper.ppu_map_read(addr) {
            Some(target) => if (target as usize) < self.chr_memory.len() {
                Some(self.chr_memory[target as usize])
            } else {
                None
            },
            None => None,
        }
    }

    fn ppu_write(&mut self, addr: u16, data: u8) -> (taken: bool) {
        self.mapper.ppu_map_write(addr).is_some()
    }
}

/// A cartridge with a bank of program memory answers every read of the
/// processor in the upper half of its address space and no other. One
/// with a bank of pattern memory answers every read of the picture unit
/// below the nametables and no other. Without a bank there is no byte to
/// answer with.
pub proof fn law_cartridge_answers_its_windows(cartridge: Cartridge, addr: u16)
    requires
        cartridge.wf(),
    ensures
        cartridge.prg_banks >= 1 ==> (cartridge.cpu_peek(addr) is Some <==> addr >= 0x8000),
        cartridge.chr_banks >= 1 ==> (cartridge.ppu_peek(addr) is Some <==> addr <= 0x1FFF),
        cartridge.prg_banks == 0 ==> cartridge.cpu_peek(addr) is None,
        cartridge.chr_banks == 0 ==> cartridge.ppu_peek(addr) is None,
        cartridge.takes_cpu_write(addr) <==> addr >= 0x8000,
        !cartridge.takes_ppu_write(addr),
{
}

} // verus!
