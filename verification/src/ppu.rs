//! The picture unit: its registers as the bus sees them, its access to
//! pattern memory, and the beam that times a frame.

use vstd::prelude::*;
use vstd::array::spec_array_update;
use crate::cartridge::{Cartridge, ICartridge, Mirror};

verus! {

/// Dots in one scanline.
pub const DOTS_PER_LINE: i16 = 341;

/// The scanline after the last one of a frame. Lines run from `-1`, the
/// pre-render line, to `260`.
pub const LINES_END: i16 = 261;

/// Dots in one frame: 262 scanlines of 341 dots.
pub const DOTS_PER_FRAME: u32 = 89342;

/// The first address of the unit's bus that shows a nametable. Below it
/// lies pattern memory, which the cartridge holds.
pub const NAMETABLES_START: u16 = 0x2000;

/// The first address of the unit's bus that shows the palette. The
/// nametables, four windows on two tables, are shown twice below it,
/// though not all of the second time.
pub const PALETTE_START: u16 = 0x3F00;

/// Bytes in one nametable.
pub const NAMETABLE_SIZE: usize = 1024;

/// Bytes in the palette.
pub const PALETTE_SIZE: usize = 32;

/// Which of the four windows on the nametables an address shows.
pub open spec fn nametable_window(addr: u16) -> int {
    (addr as int % 0x1000) / 0x400
}

/// Which of the two nametables an address shows. With vertical
/// arrangement the windows show the tables in turn; with horizontal
/// arrangement the first two show the first table; with one screen all
/// four show the same.
pub open spec fn nametable_of(mirror: Mirror, addr: u16) -> int {
    match mirror {
        Mirror::Vertical => nametable_window(addr) % 2,
        Mirror::Horizontal => nametable_window(addr) / 2,
        Mirror::OnescreenLo => 0,
        Mirror::OnescreenHi => 1,
    }
}

/// Where in its nametable an address lands.
pub open spec fn nametable_index(addr: u16) -> int {
    addr as int % 0x400
}

/// Where in the palette an address lands. The palette is shown every 32
/// bytes, and the first entry of each of its upper four groups is the
/// first entry of the group 16 below.
pub open spec fn palette_index(addr: u16) -> int {
    if addr % 0x20 >= 0x10 && addr % 4 == 0 {
        addr as int % 0x20 - 0x10
    } else {
        addr as int % 0x20
    }
}

/// An address of the nametables taken apart with shifts and masks.
proof fn lemma_nametable_bits(addr: u16)
    by (bit_vector)
    ensures
        (addr & 0x0FFF) >> 10 == (addr % 0x1000) / 0x400,
        ((addr & 0x0FFF) >> 10) & 1 == ((addr % 0x1000) / 0x400) % 2,
        ((addr & 0x0FFF) >> 10) >> 1 == ((addr % 0x1000) / 0x400) / 2,
        addr & 0x03FF == addr % 0x400,
{
}

/// An address of the palette taken apart with masks.
proof fn lemma_palette_bits(addr: u16)
    by (bit_vector)
    ensures
        addr & 0x001F == addr % 0x20,
        ((addr & 0x001F) & 0x0013 == 0x0010) == (addr % 0x20 >= 0x10 && addr % 4 == 0),
        (addr & 0x001F) & 0x0013 == 0x0010 ==> (addr & 0x000F) == addr % 0x20 - 0x10,
{
}

/// The table and the place in it that an address of the nametables shows.
pub fn nametable_slot(mirror: Mirror, addr: u16) -> (slot: (usize, usize))
    ensures
        slot.0 == nametable_of(mirror, addr),
        slot.1 == nametable_index(addr),
        slot.0 < 2,
        slot.1 < NAMETABLE_SIZE,
{
    proof {
        lemma_nametable_bits(addr);
    }
    let window = (addr & 0x0FFF) >> 10;
    let table = match mirror {
        Mirror::Vertical => window & 1,
        Mirror::Horizontal => window >> 1,
        Mirror::OnescreenLo => 0,
        Mirror::OnescreenHi => 1,
    };
    (table as usize, (addr & 0x03FF) as usize)
}

/// The place in the palette that an address of it shows.
pub fn palette_slot(addr: u16) -> (slot: usize)
    ensures
        slot == palette_index(addr),
        slot < PALETTE_SIZE,
{
    proof {
        lemma_palette_bits(addr);
    }
    let entry = addr & 0x001F;
    if entry & 0x0013 == 0x0010 {
        (addr & 0x000F) as usize
    } else {
        entry as usize
    }
}

/// What the bus and the driver ask of a picture unit.
pub trait IPPU: Sized {
    /// The beam is inside the frame.
    spec fn wf(&self) -> bool;

    /// What a processor read of register `addr` is answered with.
    spec fn register_peek(&self, addr: u16) -> u8;

    /// The unit after a processor write to register `addr`.
    spec fn after_cpu_write(&self, addr: u16, data: u8) -> Self;

    /// What the unit reads at `addr` of its own bus.
    spec fn vram_peek(&self, cartridge: &Cartridge, addr: u16) -> u8;

    /// The unit after a write to `addr` of its own bus.
    spec fn after_ppu_write(&self, cartridge: &Cartridge, addr: u16, data: u8) -> Self;

    /// The unit after one dot.
    spec fn after_clock(&self) -> Self;

    /// Reads register `addr`. With `read_only` the read has no effect on the
    /// unit; the value is the same either way.
    fn cpu_read(&self, addr: u16, read_only: bool) -> (data: u8)
        ensures
            data == self.register_peek(addr),
    ;

    fn cpu_write(&mut self, addr: u16, data: u8)
        ensures
            *final(self) == old(self).after_cpu_write(addr, data),
            old(self).wf() ==> final(self).wf(),
    ;

    /// Reads the unit's own bus, on which only the low 14 bits of an address
    /// count.
    fn ppu_read(&self, cartridge: &Cartridge, addr: u16, read_only: bool) -> (data: u8)
        requires
            cartridge.wf(),
        ensures
            data == self.vram_peek(cartridge, addr),
    ;

    /// Writes to the unit's own bus. The cartridge is offered the write
    /// first, and may change by it.
    fn ppu_write(&mut self, cartridge: &mut Cartridge, addr: u16, data: u8)
        requires
            old(cartridge).wf(),
        ensures
            *final(cartridge) == old(cartridge).after_ppu_write(addr % 0x4000, data),
            final(cartridge).wf(),
            *final(self) == old(self).after_ppu_write(old(cartridge), addr, data),
    ;

    /// Moves the beam by one dot.
    fn clock(&mut self)
        requires
            old(self).wf(),
        ensures
            *final(self) == old(self).after_clock(),
            final(self).wf(),
    ;
}

/// The picture unit. No picture is made here: the unit keeps time.
pub struct PPU {
    pub frame_complete: bool,
    pub scanline: i16,
    pub cycle: i16,
    pub tbl_name: [[u8; 1024]; 2],
    pub palette: [u8; 32],
}

/// Only the low 14 bits of an address reach the unit's bus.
proof fn lemma_vram_mask(addr: u16)
    by (bit_vector)
    ensures
        addr & 0x3FFF == addr % 0x4000,
{
}

impl PPU {
    /// A unit with the beam at the first dot of line 0 and all memory zero.
    pub fn new() -> (ppu: PPU)
        ensures
            ppu.wf(),
            !ppu.frame_complete,
            ppu.scanline == 0,
            ppu.cycle == 0,
            forall|t: int, i: int| 0 <= t < 2 && 0 <= i < 1024 ==> ppu.tbl_name@[t]@[i] == 0,
            forall|i: int| 0 <= i < 32 ==> ppu.palette@[i] == 0,
    {
        PPU {
            frame_complete: false,
            scanline: 0,
            cycle: 0,
            tbl_name: [[0u8; 1024]; 2],
            palette: [0u8; 32],
        }
    }

    /// Whether the beam is inside the frame. A unit whose fields were set by
    /// hand can be held to this before it is clocked.
    pub fn is_well_formed(&self) -> (ok: bool)
        ensures
            ok == self.wf(),
    {
        -1 <= self.scanline && self.scanline < LINES_END && 0 <= self.cycle && self.cycle
            < DOTS_PER_LINE
    }

    /// How many dots of the frame lie behind the beam.
    pub open spec fn dot(&self) -> int {
        (self.scanline + 1) * DOTS_PER_LINE + self.cycle
    }

    /// The unit after `n` dots.
    pub open spec fn after_clocks(&self, n: nat) -> PPU
        decreases n,
    {
        if n == 0 {
            *self
        } else {
            self.after_clocks((n - 1) as nat).after_clock()
        }
    }
}

impl IPPU for PPU {
    open spec fn wf(&self) -> bool {
        &&& -1 <= self.scanline < LINES_END
        &&& 0 <= self.cycle < DOTS_PER_LINE
    }

    /// This core keeps nothing behind the eight registers: each reads zero.
    closed spec fn register_peek(&self, addr: u16) -> u8 {
        0
    }

    /// This core keeps nothing behind the eight registers: a write is lost.
    closed spec fn after_cpu_write(&self, addr: u16, data: u8) -> Self {
        *self
    }

    /// The cartridge's answer if it has one; else a nametable or the
    /// palette, by the address; else nothing.
    open spec fn vram_peek(&self, cartridge: &Cartridge, addr: u16) -> u8 {
        let addr = (addr % 0x4000) as u16;
        match cartridge.ppu_peek(addr) {
            Some(data) => data,
            None => if addr < NAMETABLES_START {
                0
            } else if addr < PALETTE_START {
                self.tbl_name[nametable_of(cartridge.mirror, addr)][nametable_index(addr)]
            } else {
                self.palette[palette_index(addr)]
            },
        }
    }

    /// The cartridge has the write if it takes it; else a nametable or the
    /// palette, by the address; else it is lost.
    open spec fn after_ppu_write(&self, cartridge: &Cartridge, addr: u16, data: u8) -> Self {
        let addr = (addr % 0x4000) as u16;
        if cartridge.takes_ppu_write(addr) || addr < NAMETABLES_START {
            *self
        } else if addr < PALETTE_START {
            let table = nametable_of(cartridge.mirror, addr);
            PPU {
                tbl_name: spec_array_update(
                    self.tbl_name,
                    table,
                    spec_array_update(self.tbl_name[table], nametable_index(addr), data),
                ),
                ..*self
            }
        } else {
            PPU { palette: spec_array_update(self.palette, palette_index(addr), data), ..*self }
        }
    }

    /// The beam moves right; from the last dot of a line to the first of the
    /// next; from the last line to the pre-render line, which completes a
    /// frame. Nothing here clears the flag: whoever uses the frame does.
    open spec fn after_clock(&self) -> Self {
        if self.cycle + 1 < DOTS_PER_LINE {
            PPU { cycle: (self.cycle + 1) as i16, ..*self }
        } else if self.scanline + 1 < LINES_END {
            PPU { cycle: 0, scanline: (self.scanline + 1) as i16, ..*self }
        } else {
            PPU { cycle: 0, scanline: -1i16, frame_complete: true, ..*self }
        }
    }

    fn cpu_read(&self, addr: u16, read_only: bool) -> (data: u8) {
        0x00
    }

    fn cpu_write(&mut self, addr: u16, data: u8) {
    }

    fn ppu_read(&self, cartridge: &Cartridge, addr: u16, read_only: bool) -> (data: u8) {
        proof {
            lemma_vram_mask(addr);
        }
        let addr = addr & 0x3FFF;
        match cartridge.ppu_read(addr) {
            Some(data) => data,
            None => if addr < NAMETABLES_START {
                0x00
            } else if addr < PALETTE_START {
                let (table, index) = nametable_slot(cartridge.mirror, addr);
                self.tbl_name[table][index]
            } else {
                self.palette[palette_slot(addr)]
            },
        }
    }

    fn ppu_write(&mut self, cartridge: &mut Cartridge, addr: u16, data: u8) {
        proof {
            lemma_vram_mask(addr);
        }
        let addr = addr & 0x3FFF;
        if cartridge.ppu_write(addr, data) || addr < NAMETABLES_START {
            return ;
        }
        if addr < PALETTE_START {
            let (table, index) = nametable_slot(cartridge.mirror, addr);
            self.tbl_name[table][index] = data;
        } else {
            let slot = palette_slot(addr);
            self.palette[slot] = data;
        }
    }

    fn clock(&mut self) {
        self.cycle += 1;
        if self.cycle >= DOTS_PER_LINE {
            self.cycle = 0;
            self.scanline += 1;
            if self.scanline >= LINES_END {
                self.scanline = -1;
                self.frame_complete = true;
            }
        }
    }
}

/// The registers of this unit hold nothing: each of them reads zero,
/// whatever was written, and a write to one leaves the unit as it was.
pub proof fn law_registers_hold_nothing(ppu: PPU, addr: u16, data: u8)
    ensures
        ppu.register_peek(addr) == 0,
        ppu.after_cpu_write(addr, data) == ppu,
{
}

/// One dot moves the beam one place along the frame, and from the frame's
/// last place to its first. The frame is complete from then on.
pub proof fn law_clock_advances_dot(ppu: PPU)
    requires
        ppu.wf(),
    ensures
        ppu.after_clock().wf(),
        ppu.after_clock().dot() == (ppu.dot() + 1) % (DOTS_PER_FRAME as int),
        ppu.after_clock().frame_complete == (ppu.frame_complete || ppu.dot() + 1
            == DOTS_PER_FRAME),
        ppu.cycle + 1 < DOTS_PER_LINE ==> ppu.after_clock().cycle == ppu.cycle + 1
            && ppu.after_clock().scanline == ppu.scanline,
        ppu.after_clock().tbl_name == ppu.tbl_name,
        ppu.after_clock().palette == ppu.palette,
{
}

/// The beam's place says where the beam is: two units at the same place of
/// the frame are on the same line and dot.
pub proof fn law_dot_names_the_place(a: PPU, b: PPU)
    requires
        a.wf(),
        b.wf(),
        a.dot() == b.dot(),
    ensures
        a.scanline == b.scanline,
        a.cycle == b.cycle,
{
}

/// After `n` dots the beam is `n` places further along the frame, counted
/// round the frame, and a frame is complete if the beam has passed the end.
pub proof fn law_clocks_advance_dot(ppu: PPU, n: nat)
    requires
        ppu.wf(),
    ensures
        ppu.after_clocks(n).wf(),
        ppu.after_clocks(n).dot() == (ppu.dot() + n) % (DOTS_PER_FRAME as int),
        ppu.after_clocks(n).frame_complete == (ppu.frame_complete || ppu.dot() + n
            >= DOTS_PER_FRAME),
        ppu.after_clocks(n).tbl_name == ppu.tbl_name,
        ppu.after_clocks(n).palette == ppu.palette,
    decreases n,
{
    if n > 0 {
        let before = ppu.after_clocks((n - 1) as nat);
        law_clocks_advance_dot(ppu, (n - 1) as nat);
        law_clock_advances_dot(before);
    }
}

/// A whole frame of dots, 262 lines of 341, brings the beam back to the
/// line and dot it started from and leaves the frame complete. So it does
/// from the first dot of the pre-render line.
pub proof fn law_frame_returns_beam(ppu: PPU)
    requires
        ppu.wf(),
    ensures
        ppu.after_clocks((262 * 341) as nat).scanline == ppu.scanline,
        ppu.after_clocks((262 * 341) as nat).cycle == ppu.cycle,
        ppu.after_clocks((262 * 341) as nat).frame_complete,
{
    law_clocks_advance_dot(ppu, (262 * 341) as nat);
    law_dot_names_the_place(ppu.after_clocks((262 * 341) as nat), ppu);
}

/// From the first dot of the pre-render line, with no frame complete, the
/// frame completes on the last of its 262 times 341 dots and on none
/// before: after `n` dots, fewer than a frame, the beam is `n` dots on and
/// no frame is complete. One dot before the end the beam is on the last
/// dot of line 260, and the dot after that brings it back to the start
/// with the frame complete.
pub proof fn law_frame_completes_on_its_last_dot(ppu: PPU, n: nat)
    requires
        ppu.scanline == -1,
        ppu.cycle == 0,
        !ppu.frame_complete,
        n < 262 * 341,
    ensures
        !ppu.after_clocks(n).frame_complete,
        ppu.after_clocks(n).dot() == n,
        ppu.after_clocks(n).scanline == n / 341 - 1,
        ppu.after_clocks(n).cycle == n % 341,
        n == 262 * 341 - 1 ==> {
            &&& ppu.after_clocks(n).scanline == 260
            &&& ppu.after_clocks(n).cycle == 340
            &&& ppu.after_clocks(n + 1).frame_complete
            &&& ppu.after_clocks(n + 1).scanline == -1
            &&& ppu.after_clocks(n + 1).cycle == 0
        },
{
    law_clocks_advance_dot(ppu, n);
    if n == 262 * 341 - 1 {
        law_clocks_advance_dot(ppu, n + 1);
    }
}

/// What is written to a nametable or the palette is read back from the
/// same address, and from every address that shows the same place.
pub proof fn law_vram_reads_back(
    ppu: PPU,
    cartridge: Cartridge,
    addr: u16,
    data: u8,
    other: u16,
)
    requires
        cartridge.wf(),
        NAMETABLES_START <= addr % 0x4000,
        NAMETABLES_START <= other % 0x4000,
        if addr % 0x4000 < PALETTE_START {
            &&& other % 0x4000 < PALETTE_START
            &&& nametable_of(cartridge.mirror, (other % 0x4000) as u16) == nametable_of(
                cartridge.mirror,
                (addr % 0x4000) as u16,
            )
            &&& nametable_index((other % 0x4000) as u16) == nametable_index(
                (addr % 0x4000) as u16,
            )
        } else {
            &&& other % 0x4000 >= PALETTE_START
            &&& palette_index((other % 0x4000) as u16) == palette_index((addr % 0x4000) as u16)
        },
    ensures
        ppu.after_ppu_write(&cartridge, addr, data).vram_peek(&cartridge, addr) == data,
        ppu.after_ppu_write(&cartridge, addr, data).vram_peek(&cartridge, other) == data,
{
}

/// A write to the unit's bus moves no beam and completes no frame.
pub proof fn law_vram_write_keeps_time(ppu: PPU, cartridge: Cartridge, addr: u16, data: u8)
    requires
        cartridge.wf(),
    ensures
        ppu.after_ppu_write(&cartridge, addr, data).scanline == ppu.scanline,
        ppu.after_ppu_write(&cartridge, addr, data).cycle == ppu.cycle,
        ppu.after_ppu_write(&cartridge, addr, data).frame_complete == ppu.frame_complete,
{
}

} // verus!
