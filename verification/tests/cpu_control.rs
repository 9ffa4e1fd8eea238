use nes_core::bus::BUS;
use nes_core::cartridge::{Cartridge, Mirror, RomImage};
use nes_core::cpu::{CPU, ICPU};
use nes_core::instruction::{Fault, Operation};
use nes_core::state::CpuState;
use nes_core::status::{FLAG_BREAK, FLAG_CARRY, FLAG_INTERRUPT, FLAG_NEGATIVE, FLAG_OVERFLOW, FLAG_UNUSED, FLAG_ZERO};

fn machine_at(origin: u16, program: &[u8]) -> (CPU, BUS) {
    let mut bus = BUS::new();
    for (i, byte) in program.iter().enumerate() {
        bus.write(origin + i as u16, *byte);
    }
    let mut cpu = CPU::new();
    cpu.pc = origin;
    cpu.sp = 0xFD;
    (cpu, bus)
}

fn with_vectors(bus: &mut BUS, nmi: u16, reset: u16, irq: u16) {
    let mut prg_rom = vec![0xEAu8; 16384];
    prg_rom[0x3FFA] = nmi as u8;
    prg_rom[0x3FFB] = (nmi >> 8) as u8;
    prg_rom[0x3FFC] = reset as u8;
    prg_rom[0x3FFD] = (reset >> 8) as u8;
    prg_rom[0x3FFE] = irq as u8;
    prg_rom[0x3FFF] = (irq >> 8) as u8;
    let cartridge = Cartridge::load(RomImage {
        prg_rom,
        chr_rom: vec![0u8; 8192],
        mapper_id: 0,
        prg_banks: 1,
        chr_banks: 1,
        mirror: Mirror::Horizontal,
    }).unwrap();
    bus.insert_cartridge(cartridge);
}

fn run(cpu: &mut CPU, bus: &mut BUS) -> u32 {
    let mut cycles = 0;
    loop {
        cpu.clock(bus);
        cycles += 1;
        if cpu.cycles == 0 {
            return cycles;
        }
    }
}

#[test]
fn new_processor_is_all_zero() {
    let cpu = CPU::new();
    let zero = CpuState {
        a: 0,
        x: 0,
        y: 0,
        pc: 0,
        sp: 0,
        status_flags: 0,
        last_fetched: 0,
        absolute_addr: 0,
        relative_addr: 0,
        opcode: 0,
        cycles: 0,
    };
    assert_eq!(cpu.state(), zero);
    assert_eq!(cpu.lookup.len(), 256);
}

#[test]
fn immediate_load_takes_two_cycles() {
    for origin in [0x0200u16, 0x02FE, 0x02FF, 0x07FE] {
        for value in [0x00u8, 0x7F, 0x80, 0xFF] {
            let (mut cpu, mut bus) = machine_at(origin, &[0xA9, value]);
            cpu.x = 0xFF;
            cpu.y = 0xFF;
            assert_eq!(run(&mut cpu, &mut bus), 2);
            assert_eq!(cpu.a, value);
            assert_eq!(cpu.pc, origin + 2);
        }
    }
}

#[test]
fn immediate_load_is_dispatched_with_two_cycles() {
    let (mut cpu, mut bus) = machine_at(0x0200, &[0x42]);
    cpu.opcode = 0xA9;
    assert_eq!(cpu.dispatch(&mut bus), None);
    assert_eq!(cpu.cycles, 2);
    assert_eq!(cpu.a, 0x42);
    assert_eq!(cpu.pc, 0x0201);
}

#[test]
fn unassigned_opcode_changes_no_register() {
    let (mut cpu, mut bus) = machine_at(0x0200, &[0xFF; 4]);
    cpu.a = 0x11;
    cpu.x = 0x22;
    cpu.y = 0x33;
    cpu.status_flags = 0xC3;
    cpu.opcode = 0x02;
    assert_eq!(cpu.dispatch(&mut bus), Some(Fault::IllegalOpcode(0x02)));
    assert_eq!(cpu.cycles, 2);
    assert_eq!((cpu.a, cpu.x, cpu.y, cpu.sp, cpu.pc, cpu.status_flags), (0x11, 0x22, 0x33, 0xFD, 0x0200, 0xC3));
    assert_eq!(cpu.opcode, 0x02);
    assert_eq!(bus.read(0x0200, true), 0xFF);
}

#[test]
fn unassigned_opcodes_cost_what_their_entry_says() {
    for (opcode, cycles) in [(0x02u8, 2u8), (0x03, 8), (0x07, 5), (0x1B, 7), (0x80, 2), (0xFF, 2)] {
        let (mut cpu, mut bus) = machine_at(0x0200, &[]);
        cpu.opcode = opcode;
        assert_eq!(cpu.dispatch(&mut bus), Some(Fault::IllegalOpcode(opcode)));
        assert_eq!(cpu.cycles, cycles);
        assert_eq!(cpu.pc, 0x0200);
    }
}

#[test]
fn clock_reports_an_unassigned_opcode_and_goes_on() {
    let (mut cpu, mut bus) = machine_at(0x0200, &[0x02, 0xA9, 0x07]);
    assert_eq!(cpu.clock(&mut bus), Some(Fault::IllegalOpcode(0x02)));
    assert_eq!(cpu.cycles, 1);
    assert_eq!(cpu.clock(&mut bus), None);
    assert_eq!(cpu.cycles, 0);
    assert_eq!(cpu.clock(&mut bus), None);
    assert_eq!(cpu.a, 0x07);
}

#[test]
fn clock_counts_an_instruction_down() {
    let (mut cpu, mut bus) = machine_at(0x0200, &[0xE6, 0x10]);
    assert_eq!(cpu.clock(&mut bus), None);
    assert_eq!(cpu.cycles, 4);
    assert_eq!(cpu.pc, 0x0202);
    assert_eq!(bus.read(0x0010, true), 1);
    for left in [3u8, 2, 1, 0] {
        cpu.clock(&mut bus);
        assert_eq!(cpu.cycles, left);
        assert_eq!(cpu.pc, 0x0202);
        assert_eq!(bus.read(0x0010, true), 1);
    }
}

#[test]
fn execute_dispatches_on_the_operation() {
    let (mut cpu, mut bus) = machine_at(0x0200, &[]);
    cpu.opcode = 0xE8;
    assert_eq!(cpu.execute(Operation::Inx, &mut bus), 0);
    assert_eq!(cpu.x, 1);
    assert_eq!(cpu.execute(Operation::Sec, &mut bus), 0);
    assert_eq!(cpu.status_flags, FLAG_CARRY);
    cpu.opcode = 0xA5;
    cpu.absolute_addr = 0x0010;
    bus.write(0x0010, 0x80);
    assert_eq!(cpu.execute(Operation::Lda, &mut bus), 1);
    assert_eq!(cpu.a, 0x80);
    assert_eq!(cpu.execute(Operation::Xxx, &mut bus), 0);
    assert_eq!(cpu.execute(Operation::Nop, &mut bus), 0);
    assert_eq!((cpu.a, cpu.x), (0x80, 1));
}

#[test]
fn branch_not_taken_costs_two_cycles() {
    let (mut cpu, mut bus) = machine_at(0x0200, &[0xD0, 0x10]);
    cpu.status_flags = FLAG_ZERO;
    assert_eq!(run(&mut cpu, &mut bus), 2);
    assert_eq!(cpu.pc, 0x0202);
}

#[test]
fn branch_taken_costs_two_cycles_too() {
    let (mut cpu, mut bus) = machine_at(0x0200, &[0xD0, 0x10]);
    assert_eq!(run(&mut cpu, &mut bus), 2);
    assert_eq!(cpu.pc, 0x0212);
}

#[test]
fn branch_to_another_page_costs_two_cycles_too() {
    let (mut cpu, mut bus) = machine_at(0x02F0, &[0xD0, 0x10]);
    assert_eq!(run(&mut cpu, &mut bus), 2);
    assert_eq!(cpu.pc, 0x0302);
}

#[test]
fn branch_goes_backwards() {
    let (mut cpu, mut bus) = machine_at(0x0210, &[0xD0, 0xFE]);
    assert_eq!(run(&mut cpu, &mut bus), 2);
    assert_eq!(cpu.pc, 0x0210);
    let (mut cpu, mut bus) = machine_at(0x0300, &[0xD0, 0xFC]);
    assert_eq!(run(&mut cpu, &mut bus), 2);
    assert_eq!(cpu.pc, 0x02FE);
}

#[test]
fn branch_leaves_everything_but_the_program_counter() {
    let (mut cpu, mut bus) = machine_at(0x0200, &[0xF0, 0x7F]);
    cpu.a = 1;
    cpu.x = 2;
    cpu.y = 3;
    cpu.status_flags = FLAG_ZERO | FLAG_CARRY;
    cpu.absolute_addr = 0x1234;
    cpu.clock(&mut bus);
    assert_eq!(cpu.cycles, 1);
    assert_eq!(cpu.pc, 0x0281);
    assert_eq!(cpu.relative_addr, 0x007F);
    assert_eq!(cpu.absolute_addr, 0x1234);
    assert_eq!((cpu.a, cpu.x, cpu.y, cpu.sp), (1, 2, 3, 0xFD));
    assert_eq!(cpu.status_flags, FLAG_ZERO | FLAG_CARRY);
}

#[test]
fn every_opcode_costs_its_base_without_a_page_crossed() {
    let table = nes_core::instruction::instruction_set();
    for opcode in 0..=255u8 {
        let (mut cpu, mut bus) = machine_at(0x0200, &[opcode, 0x10, 0x03]);
        cpu.clock(&mut bus);
        assert_eq!(cpu.cycles, table[opcode as usize].cycles - 1, "opcode {:#04X}", opcode);
    }
}

#[test]
fn each_branch_tests_its_flag() {
    let cases = [
        (0x90u8, FLAG_CARRY, false),
        (0xB0, FLAG_CARRY, true),
        (0xF0, FLAG_ZERO, true),
        (0xD0, FLAG_ZERO, false),
        (0x30, FLAG_NEGATIVE, true),
        (0x10, FLAG_NEGATIVE, false),
        (0x70, FLAG_OVERFLOW, true),
        (0x50, FLAG_OVERFLOW, false),
    ];
    for (opcode, mask, taken_when_set) in cases {
        for set in [false, true] {
            let (mut cpu, mut bus) = machine_at(0x0200, &[opcode, 0x20]);
            cpu.status_flags = if set { mask } else { !mask };
            let cycles = run(&mut cpu, &mut bus);
            if set == taken_when_set {
                assert_eq!((cpu.pc, cycles), (0x0222, 2), "opcode {:#04X}", opcode);
            } else {
                assert_eq!((cpu.pc, cycles), (0x0202, 2), "opcode {:#04X}", opcode);
            }
        }
    }
}

#[test]
fn jump_absolute_and_indirect() {
    let (mut cpu, mut bus) = machine_at(0x0200, &[0x4C, 0x00, 0x03]);
    bus.write(0x0300, 0x6C);
    bus.write(0x0301, 0x10);
    bus.write(0x0302, 0x03);
    bus.write(0x0310, 0x34);
    bus.write(0x0311, 0x05);
    assert_eq!(run(&mut cpu, &mut bus), 3);
    assert_eq!(cpu.pc, 0x0300);
    assert_eq!(run(&mut cpu, &mut bus), 5);
    assert_eq!(cpu.pc, 0x0534);
}

#[test]
fn subroutine_call_and_return() {
    let (mut cpu, mut bus) = machine_at(0x0200, &[0x20, 0x10, 0x03, 0xEA]);
    bus.write(0x0310, 0x60);
    assert_eq!(run(&mut cpu, &mut bus), 6);
    assert_eq!(cpu.pc, 0x0310);
    assert_eq!(cpu.sp, 0xFB);
    assert_eq!(bus.read(0x01FD, true), 0x02);
    assert_eq!(bus.read(0x01FC, true), 0x02);
    assert_eq!(run(&mut cpu, &mut bus), 6);
    assert_eq!(cpu.pc, 0x0203);
    assert_eq!(cpu.sp, 0xFD);
}

#[test]
fn software_interrupt_and_return() {
    let (mut cpu, mut bus) = machine_at(0x0200, &[0x00, 0xFF, 0xEA]);
    with_vectors(&mut bus, 0x0500, 0x0200, 0x0600);
    bus.write(0x0600, 0x40);
    cpu.status_flags = FLAG_CARRY;
    assert_eq!(run(&mut cpu, &mut bus), 2);
    assert_eq!(cpu.pc, 0x0600);
    assert_eq!(cpu.sp, 0xFA);
    assert_eq!(bus.read(0x01FD, true), 0x02);
    assert_eq!(bus.read(0x01FC, true), 0x02);
    assert_eq!(bus.read(0x01FB, true), FLAG_CARRY | FLAG_INTERRUPT | FLAG_BREAK | FLAG_UNUSED);
    assert_eq!(cpu.status_flags, FLAG_CARRY | FLAG_INTERRUPT);
    assert_eq!(run(&mut cpu, &mut bus), 6);
    assert_eq!(cpu.pc, 0x0202);
    assert_eq!(cpu.sp, 0xFD);
    assert_eq!(cpu.status_flags, FLAG_CARRY | FLAG_INTERRUPT);
}

#[test]
fn return_from_interrupt_drops_break_and_the_unused_bit() {
    let (mut cpu, mut bus) = machine_at(0x0200, &[0x40]);
    cpu.sp = 0xFA;
    bus.write(0x01FB, 0xFF);
    bus.write(0x01FC, 0x34);
    bus.write(0x01FD, 0x12);
    assert_eq!(run(&mut cpu, &mut bus), 6);
    assert_eq!(cpu.status_flags, 0xFF & !FLAG_BREAK & !FLAG_UNUSED);
    assert_eq!(cpu.pc, 0x1234);
    assert_eq!(cpu.sp, 0xFD);
}

#[test]
fn reset_reads_the_vector_and_clears_the_processor() {
    let (mut cpu, mut bus) = machine_at(0x0200, &[]);
    with_vectors(&mut bus, 0x1111, 0xC5F5, 0x2222);
    cpu.a = 1;
    cpu.x = 2;
    cpu.y = 3;
    cpu.status_flags = 0xFF;
    cpu.last_fetched = 4;
    cpu.absolute_addr = 5;
    cpu.relative_addr = 6;
    cpu.opcode = 7;
    cpu.cycles = 3;
    cpu.reset(&bus);
    let expected = CpuState {
        a: 0,
        x: 0,
        y: 0,
        pc: 0xC5F5,
        sp: 0xFD,
        status_flags: FLAG_UNUSED,
        last_fetched: 0,
        absolute_addr: 0,
        relative_addr: 0,
        opcode: 0,
        cycles: 8,
    };
    assert_eq!(cpu.state(), expected);
    assert_eq!(cpu.lookup.len(), 256);
}

#[test]
fn reset_takes_eight_cycles_before_the_first_instruction() {
    let (mut cpu, mut bus) = machine_at(0x0200, &[]);
    with_vectors(&mut bus, 0, 0x0300, 0);
    bus.write(0x0300, 0xE8);
    cpu.reset(&bus);
    for _ in 0..8 {
        cpu.clock(&mut bus);
        assert_eq!(cpu.x, 0);
    }
    assert_eq!(cpu.cycles, 0);
    cpu.clock(&mut bus);
    assert_eq!(cpu.x, 1);
}

#[test]
fn interrupt_request_is_taken_when_enabled() {
    let (mut cpu, mut bus) = machine_at(0x0234, &[]);
    with_vectors(&mut bus, 0x0500, 0x0200, 0x0600);
    cpu.status_flags = FLAG_CARRY | FLAG_BREAK;
    cpu.irq(&mut bus);
    assert_eq!(cpu.pc, 0x0600);
    assert_eq!(cpu.cycles, 7);
    assert_eq!(cpu.sp, 0xFA);
    assert_eq!(cpu.absolute_addr, 0xFFFE);
    assert_eq!(cpu.status_flags, FLAG_CARRY | FLAG_UNUSED | FLAG_INTERRUPT);
    assert_eq!(bus.read(0x01FD, true), 0x02);
    assert_eq!(bus.read(0x01FC, true), 0x34);
    assert_eq!(bus.read(0x01FB, true), FLAG_CARRY | FLAG_UNUSED | FLAG_INTERRUPT);
}

#[test]
fn interrupt_request_is_ignored_when_disabled() {
    let (mut cpu, mut bus) = machine_at(0x0234, &[]);
    with_vectors(&mut bus, 0x0500, 0x0200, 0x0600);
    cpu.status_flags = FLAG_INTERRUPT | FLAG_ZERO;
    let before = cpu.state();
    cpu.irq(&mut bus);
    assert_eq!(cpu.state(), before);
    assert_eq!(bus.read(0x01FD, true), 0x00);
    assert!(bus.cpu_ram.iter().all(|byte| *byte == 0));
}

#[test]
fn non_maskable_interrupt_is_always_taken() {
    for status in [0u8, FLAG_INTERRUPT] {
        let (mut cpu, mut bus) = machine_at(0x0234, &[]);
        with_vectors(&mut bus, 0x0500, 0x0200, 0x0600);
        cpu.status_flags = status;
        cpu.nmi(&mut bus);
        assert_eq!(cpu.pc, 0x0500);
        assert_eq!(cpu.cycles, 8);
        assert_eq!(cpu.sp, 0xFA);
        assert_eq!(cpu.absolute_addr, 0xFFFA);
        assert_eq!(cpu.status_flags, FLAG_UNUSED | FLAG_INTERRUPT);
        assert_eq!(bus.read(0x01FD, true), 0x02);
        assert_eq!(bus.read(0x01FC, true), 0x34);
        assert_eq!(bus.read(0x01FB, true), FLAG_UNUSED | FLAG_INTERRUPT);
    }
}

#[test]
fn interrupt_pushes_within_the_stack_page() {
    let (mut cpu, mut bus) = machine_at(0x0234, &[]);
    with_vectors(&mut bus, 0x0500, 0x0200, 0x0600);
    cpu.sp = 0x01;
    cpu.nmi(&mut bus);
    assert_eq!(cpu.sp, 0xFE);
    assert_eq!(bus.read(0x0101, true), 0x02);
    assert_eq!(bus.read(0x0100, true), 0x34);
    assert_eq!(bus.read(0x01FF, true), FLAG_UNUSED | FLAG_INTERRUPT);
}

#[test]
fn small_program_counts_to_five() {
    // LDX #$00; INX; CPX #$05; BNE -5; STX $10; JMP here.
    let (mut cpu, mut bus) =
        machine_at(0x0200, &[0xA2, 0x00, 0xE8, 0xE0, 0x05, 0xD0, 0xFB, 0x86, 0x10, 0x4C, 0x09, 0x02]);
    let mut cycles = 0;
    for _ in 0..1 + 5 * 3 + 1 {
        cycles += run(&mut cpu, &mut bus);
    }
    assert_eq!(bus.read(0x0010, true), 5);
    assert_eq!(cpu.pc, 0x0209);
    assert_eq!(cycles, 2 + 5 * (2 + 2) + 5 * 2 + 3);
}
