//! The bus: it owns the machine, routes the processor's reads and writes,
//! and keeps the clock.

use vstd::prelude::*;
use crate::cartridge::{Cartridge, ICartridge};
use crate::cpu::{CPU, ICPU};
use crate::instruction::Fault;
use crate::ppu::{
    IPPU,
    PPU,
    law_clock_advances_dot,
    law_frame_completes_on_its_last_dot,
    law_frame_returns_beam,
};
use crate::semantics::lemma_clocked_keeps;
use crate::state::{
    BusState,
    OPEN_BUS,
    PPU_WINDOW_END,
    RAM_SIZE,
    RAM_WINDOW_END,
    ram_slot,
    register_of,
};

verus! {

/// The bus, which owns every other component.
///
/// A component that is not there is `None`: a bus without cartridge reads
/// internal memory and the picture unit alone, and one without processor
/// still keeps time.
pub struct BUS {
    pub cpu_ram: [u8; 2048],
    pub cpu: Option<CPU>,
    pub ppu: Option<PPU>,
    pub cartridge: Option<Cartridge>,
    pub n_sys_clockcounter: u32,
}

impl View for BUS {
    type V = BusState;

    open spec fn view(&self) -> BusState {
        BusState {
            ram: self.cpu_ram@,
            cpu: match self.cpu {
                Some(cpu) => Some(cpu@),
                None => None,
            },
            ppu: self.ppu,
            cartridge: self.cartridge,
            clock: self.n_sys_clockcounter,
        }
    }
}

/// The processor runs on every third tick of the bus: the picture unit
/// makes three dots in each cycle of the processor.
pub const DOTS_PER_CPU_CYCLE: u64 = 3;

impl BusState {
    /// The bus after a dot of the picture unit, if there is one.
    pub open spec fn after_ppu_clock(self) -> BusState {
        match self.ppu {
            Some(ppu) => BusState { ppu: Some(ppu.after_clock()), ..self },
            None => self,
        }
    }

    /// The bus after a cycle of the processor, if there is one. While it
    /// works, the processor is not on the bus.
    pub open spec fn after_cpu_clock(self) -> BusState {
        match self.cpu {
            Some(cpu) => {
                let done = cpu.clocked(BusState { cpu: None, ..self });
                BusState { cpu: Some(done.cpu), ..done.bus }
            },
            None => self,
        }
    }

    /// What a cycle of the processor reports, if there is one.
    pub open spec fn cpu_clock_fault(self) -> Option<Fault> {
        match self.cpu {
            Some(cpu) => cpu.clock_fault(BusState { cpu: None, ..self }),
            None => None,
        }
    }

    /// The bus after the components were clocked at the given count: the
    /// picture unit first and always, the processor after it where the
    /// count is a multiple of three.
    pub open spec fn after_trigger_clock(self, clock_counter: u64) -> BusState {
        if clock_counter % DOTS_PER_CPU_CYCLE == 0 {
            self.after_ppu_clock().after_cpu_clock()
        } else {
            self.after_ppu_clock()
        }
    }

    /// What clocking the components at the given count reports.
    pub open spec fn trigger_clock_fault(self, clock_counter: u64) -> Option<Fault> {
        if clock_counter % DOTS_PER_CPU_CYCLE == 0 {
            self.after_ppu_clock().cpu_clock_fault()
        } else {
            None
        }
    }

    /// The bus with its clock one further.
    pub open spec fn counted(self) -> BusState {
        BusState { clock: (self.clock + 1) as u32, ..self }
    }

    /// Whether the next tick runs the processor.
    pub open spec fn steps_cpu(self) -> bool {
        (self.clock + 1) % (DOTS_PER_CPU_CYCLE as int) == 0
    }

    /// The bus after one tick.
    pub open spec fn after_clock(self) -> BusState {
        self.counted().after_trigger_clock((self.clock + 1) as u64)
    }

    /// What one tick reports.
    pub open spec fn clock_fault(self) -> Option<Fault> {
        self.counted().trigger_clock_fault((self.clock + 1) as u64)
    }

    /// The bus after `n` ticks.
    pub open spec fn after_clocks(self, n: nat) -> BusState
        decreases n,
    {
        if n == 0 {
            self
        } else {
            self.after_clocks((n - 1) as nat).after_clock()
        }
    }

    /// The bus after a reset: the processor is reset, if there is one, and
    /// the clock starts again.
    pub open spec fn after_reset(self) -> BusState {
        BusState {
            cpu: match self.cpu {
                Some(cpu) => Some(cpu.reset(BusState { cpu: None, ..self })),
                None => None,
            },
            clock: 0,
            ..self
        }
    }
}

impl BUS {
    /// The components that are there are well formed.
    pub open spec fn wf(&self) -> bool {
        &&& self@.wf()
        &&& self.cpu matches Some(cpu) ==> cpu.has_instruction_set()
    }

    /// Whether the components that are there are well formed. A bus whose
    /// components were changed by hand can be held to this before it is
    /// used.
    pub fn is_well_formed(&self) -> (ok: bool)
        ensures
            ok == self.wf(),
    {
        let cpu_ok = match &self.cpu {
            Some(cpu) => cpu.holds_instruction_set(),
            None => true,
        };
        let ppu_ok = match &self.ppu {
            Some(ppu) => ppu.is_well_formed(),
            None => true,
        };
        let cartridge_ok = match &self.cartridge {
            Some(cartridge) => cartridge.is_well_formed(),
            None => true,
        };
        cpu_ok && ppu_ok && cartridge_ok
    }

    /// A bus with internal memory cleared and nothing attached.
    pub fn new() -> (bus: BUS)
        ensures
            bus.wf(),
            bus@.ram == Seq::new(RAM_SIZE as nat, |i: int| 0u8),
            bus.cpu is None,
            bus.ppu is None,
            bus.cartridge is None,
            bus.n_sys_clockcounter == 0,
    {
        let bus = BUS { cpu_ram: [0u8; 2048], cpu: None, ppu: None, cartridge: None, n_sys_clockcounter: 0 };
        assert(bus@.ram =~= Seq::new(RAM_SIZE as nat, |i: int| 0u8));
        bus
    }

    /// Writes a byte for the processor.
    pub fn write(&mut self, addr: u16, data: u8)
        requires
            old(self).wf(),
        ensures
            final(self)@ == old(self)@.poke(addr, data),
            final(self).cpu == old(self).cpu,
            final(self).wf(),
    {
        let taken = match &mut self.cartridge {
            Some(cartridge) => cartridge.cpu_write(addr, data),
            None => false,
        };
        if taken {
            return ;
        }
        if addr <= RAM_WINDOW_END {
            self.cpu_ram[ram_slot(addr)] = data;
        } else if addr <= PPU_WINDOW_END {
            match &mut self.ppu {
                Some(ppu) => ppu.cpu_write(register_of(addr), data),
                None => {},
            }
        }
    }

    /// Reads a byte for the processor. With `readonly` the read leaves the
    /// picture unit as it is; the byte is the same either way.
    pub fn read(&self, addr: u16, readonly: bool) -> (data: u8)
        requires
            self.wf(),
        ensures
            data == self@.peek(addr),
    {
        match &self.cartridge {
            Some(cartridge) => match cartridge.cpu_read(addr) {
                Some(data) => {
                    return data;
                },
                None => {},
            },
            None => {},
        }
        if addr <= RAM_WINDOW_END {
            self.cpu_ram[ram_slot(addr)]
        } else if addr <= PPU_WINDOW_END {
            match &self.ppu {
                Some(ppu) => ppu.cpu_read(register_of(addr), readonly),
                None => OPEN_BUS,
            }
        } else {
            OPEN_BUS
        }
    }

    /// Puts a cartridge in, in place of the one that was there.
    pub fn insert_cartridge(&mut self, cartridge: Cartridge)
        requires
            cartridge.wf(),
        ensures
            old(self).wf() ==> final(self).wf(),
            final(self).cartridge == Some(cartridge),
            final(self).cpu_ram == old(self).cpu_ram,
            final(self).cpu == old(self).cpu,
            final(self).ppu == old(self).ppu,
            final(self).n_sys_clockcounter == old(self).n_sys_clockcounter,
    {
        self.cartridge = Some(cartridge);
    }

    /// Whether the next tick runs the processor.
    pub fn steps_cpu(&self) -> (steps: bool)
        ensures
            steps == self@.steps_cpu(),
    {
        (self.n_sys_clockcounter as u64 + 1) % DOTS_PER_CPU_CYCLE == 0
    }

    /// Resets the processor and the clock.
    pub fn reset(&mut self)
        requires
            old(self).wf(),
        ensures
            final(self).wf(),
            final(self)@ == old(self)@.after_reset(),
    {
        match self.cpu.take() {
            Some(mut cpu) => {
                cpu.reset(self);
                self.cpu = Some(cpu);
            },
            None => {},
        }
        self.n_sys_clockcounter = 0;
    }

    /// One tick of the system clock. Reports the fault of an instruction
    /// that the processor began in it.
    ///
    /// The clock only counts up: at its last value the bus cannot tick.
    pub fn clock(&mut self) -> (fault: Option<Fault>)
        requires
            old(self).wf(),
            old(self).n_sys_clockcounter < u32::MAX,
        ensures
            final(self).wf(),
            final(self)@ == old(self)@.after_clock(),
            fault == old(self)@.clock_fault(),
    {
        self.n_sys_clockcounter += 1;
        let counter = self.n_sys_clockcounter;
        self.trigger_clock(counter as u64)
    }

    /// Clocks the components for the tick with the given count.
    pub fn trigger_clock(&mut self, clock_counter: u64) -> (fault: Option<Fault>)
        requires
            old(self).wf(),
        ensures
            final(self).wf(),
            final(self)@ == old(self)@.after_trigger_clock(clock_counter),
            fault == old(self)@.trigger_clock_fault(clock_counter),
    {
        match &mut self.ppu {
            Some(ppu) => ppu.clock(),
            None => {},
        }
        if clock_counter % DOTS_PER_CPU_CYCLE == 0 {
            match self.cpu.take() {
                Some(mut cpu) => {
                    let fault = cpu.clock(self);
                    self.cpu = Some(cpu);
                    fault
                },
                None => None,
            }
        } else {
            None
        }
    }
}

/// A tick moves the beam of the picture unit by one dot and leaves the bus
/// well formed, with the cartridge it had. While the clock has room, it
/// counts one.
pub proof fn law_tick_counts(bus: BusState)
    requires
        bus.wf(),
    ensures
        bus.after_clock().wf(),
        bus.clock < u32::MAX ==> bus.after_clock().clock == bus.clock + 1,
        bus.after_clock().cartridge == bus.cartridge,
        bus.after_clock().cpu is Some <==> bus.cpu is Some,
        bus.after_clock().ppu == match bus.ppu {
            Some(ppu) => Some(ppu.after_clock()),
            None => None,
        },
{
    let dotted = bus.counted().after_ppu_clock();
    if bus.ppu is Some {
        law_clock_advances_dot(bus.ppu->0);
    }
    if bus.cpu is Some {
        lemma_clocked_keeps(bus.cpu->0, BusState { cpu: None, ..dotted });
    }
}

/// Every tick moves the beam of the picture unit by one dot: within a
/// line, its cycle is one more.
pub proof fn law_tick_moves_beam(bus: BusState)
    requires
        bus.wf(),
        bus.ppu is Some,
    ensures
        bus.after_clock().ppu == Some(bus.ppu->0.after_clock()),
        bus.ppu->0.cycle < 340 ==> bus.after_clock().ppu->0.cycle == bus.ppu->0.cycle + 1,
        bus.ppu->0.cycle == 340 ==> bus.after_clock().ppu->0.cycle == 0,
{
    law_tick_counts(bus);
}

/// Of three ticks in a row, exactly one runs the processor.
pub proof fn law_cpu_runs_every_third_tick(bus: BusState)
    requires
        bus.wf(),
        bus.clock + 3 <= u32::MAX,
    ensures
        ({
            let first = bus.steps_cpu();
            let second = bus.after_clock().steps_cpu();
            let third = bus.after_clock().after_clock().steps_cpu();
            (first && !second && !third) || (!first && second && !third) || (!first && !second
                && third)
        }),
{
    law_tick_counts(bus);
    law_tick_counts(bus.after_clock());
}

/// A tick that does not run the processor leaves it, and memory, alone.
pub proof fn law_tick_without_cpu(bus: BusState)
    requires
        bus.wf(),
        !bus.steps_cpu(),
    ensures
        bus.after_clock().cpu == bus.cpu,
        bus.after_clock().ram == bus.ram,
        bus.clock_fault() is None,
{
}

/// A tick that runs the processor gives it one cycle, after the picture
/// unit has made its dot.
pub proof fn law_tick_with_cpu(bus: BusState)
    requires
        bus.wf(),
        bus.steps_cpu(),
        bus.cpu is Some,
    ensures
        bus.after_clock().cpu == Some(
            bus.cpu->0.clocked(BusState { cpu: None, ..bus.counted().after_ppu_clock() }).cpu,
        ),
        bus.after_clock().ram == bus.cpu->0.clocked(
            BusState { cpu: None, ..bus.counted().after_ppu_clock() },
        ).bus.ram,
{
}

/// After `n` ticks the picture unit has made `n` dots, whatever the
/// processor did meanwhile. While the clock has room, it has counted `n`.
pub proof fn law_ticks_move_beam(bus: BusState, n: nat)
    requires
        bus.wf(),
        bus.ppu is Some,
    ensures
        bus.after_clocks(n).wf(),
        bus.clock + n <= u32::MAX ==> bus.after_clocks(n).clock == bus.clock + n,
        bus.after_clocks(n).ppu == Some(bus.ppu->0.after_clocks(n)),
    decreases n,
{
    if n > 0 {
        law_ticks_move_beam(bus, (n - 1) as nat);
        law_tick_counts(bus.after_clocks((n - 1) as nat));
    }
}

/// A frame of ticks, 262 lines of 341 dots, brings the beam back to the
/// line and dot it started from and leaves the frame complete. So it does
/// from the first dot of the pre-render line.
pub proof fn law_frame_of_ticks(bus: BusState)
    requires
        bus.wf(),
        bus.ppu is Some,
    ensures
        bus.after_clocks((262 * 341) as nat).ppu is Some,
        bus.after_clocks((262 * 341) as nat).ppu->0.scanline == bus.ppu->0.scanline,
        bus.after_clocks((262 * 341) as nat).ppu->0.cycle == bus.ppu->0.cycle,
        bus.after_clocks((262 * 341) as nat).ppu->0.frame_complete,
{
    law_ticks_move_beam(bus, (262 * 341) as nat);
    law_frame_returns_beam(bus.ppu->0);
}

/// From the first dot of the pre-render line, with no frame complete, the
/// frame completes on the last of its 262 times 341 ticks and on none
/// before: after `n` ticks, fewer than a frame, the beam is `n` dots on
/// and no frame is complete. One tick before the end the beam is on the
/// last dot of line 260, and the tick after that brings it back to the
/// start with the frame complete.
pub proof fn law_frame_completes_on_its_last_tick(bus: BusState, n: nat)
    requires
        bus.wf(),
        bus.ppu is Some,
        bus.ppu->0.scanline == -1,
        bus.ppu->0.cycle == 0,
        !bus.ppu->0.frame_complete,
        n < 262 * 341,
    ensures
        bus.after_clocks(n).ppu is Some,
        !bus.after_clocks(n).ppu->0.frame_complete,
        bus.after_clocks(n).ppu->0.dot() == n,
        bus.after_clocks(n).ppu->0.scanline == n / 341 - 1,
        bus.after_clocks(n).ppu->0.cycle == n % 341,
        n == 262 * 341 - 1 ==> {
            &&& bus.after_clocks(n).ppu->0.scanline == 260
            &&& bus.after_clocks(n).ppu->0.cycle == 340
            &&& bus.after_clocks(n + 1).ppu->0.frame_complete
            &&& bus.after_clocks(n + 1).ppu->0.scanline == -1
            &&& bus.after_clocks(n + 1).ppu->0.cycle == 0
        },
{
    law_ticks_move_beam(bus, n);
    law_frame_completes_on_its_last_dot(bus.ppu->0, n);
    if n == 262 * 341 - 1 {
        law_ticks_move_beam(bus, n + 1);
    }
}

/// A reset zeroes the clock and starts the processor, if there is one, at
/// the address kept at `0xFFFC` and `0xFFFD`, low byte first.
pub proof fn law_reset_restarts(bus: BusState)
    ensures
        bus.after_reset().clock == 0,
        bus.cpu is Some ==> bus.after_reset().cpu is Some && bus.after_reset().cpu->0.pc
            == bus.peek(0xFFFC) + 0x100 * bus.peek(0xFFFD),
        bus.after_reset().ram == bus.ram,
        bus.after_reset().ppu == bus.ppu,
        bus.after_reset().cartridge == bus.cartridge,
{
}

} // verus!
