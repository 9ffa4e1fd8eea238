use nes_core::bus::BUS;
use nes_core::cpu::{CPU, ICPU};
use nes_core::status::{
    flag_set, FLAG_BREAK, FLAG_CARRY, FLAG_DECIMAL, FLAG_INTERRUPT, FLAG_NEGATIVE, FLAG_OVERFLOW,
    FLAG_UNUSED, FLAG_ZERO,
};

fn machine(program: &[u8]) -> (CPU, BUS) {
    let mut bus = BUS::new();
    for (i, byte) in program.iter().enumerate() {
        bus.write(0x0200 + i as u16, *byte);
    }
    let mut cpu = CPU::new();
    cpu.pc = 0x0200;
    cpu.sp = 0xFD;
    (cpu, bus)
}

fn step(cpu: &mut CPU, bus: &mut BUS) -> u32 {
    let mut cycles = 0;
    loop {
        cpu.clock(bus);
        cycles += 1;
        if cpu.cycles == 0 {
            return cycles;
        }
    }
}

fn flags(cpu: &CPU) -> (bool, bool, bool, bool) {
    (
        flag_set(cpu.status_flags, FLAG_NEGATIVE),
        flag_set(cpu.status_flags, FLAG_OVERFLOW),
        flag_set(cpu.status_flags, FLAG_ZERO),
        flag_set(cpu.status_flags, FLAG_CARRY),
    )
}

#[test]
fn lda_sets_zero_and_negative() {
    let (mut cpu, mut bus) = machine(&[0xA9, 0x00, 0xA9, 0x80, 0xA9, 0x7F]);
    assert_eq!(step(&mut cpu, &mut bus), 2);
    assert_eq!(cpu.a, 0x00);
    assert_eq!(flags(&cpu), (false, false, true, false));
    assert_eq!(step(&mut cpu, &mut bus), 2);
    assert_eq!(cpu.a, 0x80);
    assert_eq!(flags(&cpu), (true, false, false, false));
    assert_eq!(step(&mut cpu, &mut bus), 2);
    assert_eq!(cpu.a, 0x7F);
    assert_eq!(flags(&cpu), (false, false, false, false));
    assert_eq!(cpu.pc, 0x0206);
}

#[test]
fn ldx_and_ldy_load_their_registers() {
    let (mut cpu, mut bus) = machine(&[0xA2, 0x81, 0xA0, 0x00]);
    step(&mut cpu, &mut bus);
    assert_eq!((cpu.a, cpu.x, cpu.y), (0, 0x81, 0));
    assert_eq!(flags(&cpu), (true, false, false, false));
    step(&mut cpu, &mut bus);
    assert_eq!((cpu.a, cpu.x, cpu.y), (0, 0x81, 0));
    assert_eq!(flags(&cpu), (false, false, true, false));
}

#[test]
fn adc_adds_without_carry() {
    let (mut cpu, mut bus) = machine(&[0x69, 0x22]);
    cpu.a = 0x11;
    assert_eq!(step(&mut cpu, &mut bus), 2);
    assert_eq!(cpu.a, 0x33);
    assert_eq!(flags(&cpu), (false, false, false, false));
}

#[test]
fn adc_adds_the_carry_in() {
    let (mut cpu, mut bus) = machine(&[0x69, 0x01]);
    cpu.a = 0x01;
    cpu.status_flags = FLAG_CARRY;
    step(&mut cpu, &mut bus);
    assert_eq!(cpu.a, 0x03);
    assert_eq!(flags(&cpu), (false, false, false, false));
}

#[test]
fn adc_carries_out_of_the_byte() {
    let (mut cpu, mut bus) = machine(&[0x69, 0x01]);
    cpu.a = 0xFF;
    step(&mut cpu, &mut bus);
    assert_eq!(cpu.a, 0x00);
    assert_eq!(flags(&cpu), (false, false, true, true));
}

#[test]
fn adc_overflows_into_the_sign() {
    let (mut cpu, mut bus) = machine(&[0x69, 0x50]);
    cpu.a = 0x50;
    step(&mut cpu, &mut bus);
    assert_eq!(cpu.a, 0xA0);
    assert_eq!(flags(&cpu), (true, true, false, false));
}

#[test]
fn adc_overflows_out_of_the_sign() {
    let (mut cpu, mut bus) = machine(&[0x69, 0x80]);
    cpu.a = 0x80;
    step(&mut cpu, &mut bus);
    assert_eq!(cpu.a, 0x00);
    assert_eq!(flags(&cpu), (false, true, true, true));
}

#[test]
fn adc_of_mixed_signs_never_overflows() {
    let (mut cpu, mut bus) = machine(&[0x69, 0xF0]);
    cpu.a = 0x50;
    step(&mut cpu, &mut bus);
    assert_eq!(cpu.a, 0x40);
    assert_eq!(flags(&cpu), (false, false, false, true));
}

#[test]
fn adc_agrees_with_arithmetic_on_every_input() {
    for a in 0..=255u8 {
        for value in [0x00u8, 0x01, 0x3F, 0x40, 0x7F, 0x80, 0x81, 0xC0, 0xFE, 0xFF] {
            for carry in [0u8, 1u8] {
                let (mut cpu, mut bus) = machine(&[0x69, value]);
                cpu.a = a;
                cpu.status_flags = carry;
                step(&mut cpu, &mut bus);
                let sum = a as u32 + value as u32 + carry as u32;
                let signed = a as i8 as i32 + value as i8 as i32 + carry as i32;
                assert_eq!(cpu.a, (sum % 256) as u8);
                assert_eq!(
                    flags(&cpu),
                    (sum % 256 >= 128, !(-128..=127).contains(&signed), sum % 256 == 0, sum > 255)
                );
            }
        }
    }
}

#[test]
fn sbc_subtracts_without_borrow() {
    let (mut cpu, mut bus) = machine(&[0xE9, 0x03]);
    cpu.a = 0x05;
    cpu.status_flags = FLAG_CARRY;
    assert_eq!(step(&mut cpu, &mut bus), 2);
    assert_eq!(cpu.a, 0x02);
    assert_eq!(flags(&cpu), (false, false, false, true));
}

#[test]
fn sbc_subtracts_the_borrow() {
    let (mut cpu, mut bus) = machine(&[0xE9, 0x03]);
    cpu.a = 0x05;
    step(&mut cpu, &mut bus);
    assert_eq!(cpu.a, 0x01);
    assert_eq!(flags(&cpu), (false, false, false, true));
}

#[test]
fn sbc_borrows_below_zero() {
    let (mut cpu, mut bus) = machine(&[0xE9, 0xF0]);
    cpu.a = 0x50;
    cpu.status_flags = FLAG_CARRY;
    step(&mut cpu, &mut bus);
    assert_eq!(cpu.a, 0x60);
    assert_eq!(flags(&cpu), (false, false, false, false));
}

#[test]
fn sbc_overflows() {
    let (mut cpu, mut bus) = machine(&[0xE9, 0xB0]);
    cpu.a = 0x50;
    cpu.status_flags = FLAG_CARRY;
    step(&mut cpu, &mut bus);
    assert_eq!(cpu.a, 0xA0);
    assert_eq!(flags(&cpu), (true, true, false, false));
}

#[test]
fn sbc_to_zero() {
    let (mut cpu, mut bus) = machine(&[0xE9, 0x40]);
    cpu.a = 0x40;
    cpu.status_flags = FLAG_CARRY;
    step(&mut cpu, &mut bus);
    assert_eq!(cpu.a, 0x00);
    assert_eq!(flags(&cpu), (false, false, true, true));
}

#[test]
fn sbc_agrees_with_arithmetic_on_every_input() {
    for a in 0..=255u8 {
        for value in [0x00u8, 0x01, 0x3F, 0x40, 0x7F, 0x80, 0x81, 0xC0, 0xFE, 0xFF] {
            for carry in [0u8, 1u8] {
                let (mut cpu, mut bus) = machine(&[0xE9, value]);
                cpu.a = a;
                cpu.status_flags = carry;
                step(&mut cpu, &mut bus);
                let difference = a as i32 - value as i32 - (1 - carry as i32);
                let signed = a as i8 as i32 - value as i8 as i32 - (1 - carry as i32);
                let result = difference.rem_euclid(256) as u8;
                assert_eq!(cpu.a, result);
                assert_eq!(
                    flags(&cpu),
                    (result >= 128, !(-128..=127).contains(&signed), result == 0, difference >= 0)
                );
            }
        }
    }
}

#[test]
fn compare_the_accumulator() {
    let (mut cpu, mut bus) = machine(&[0xC9, 0x40, 0xC9, 0x41, 0xC9, 0x30]);
    cpu.a = 0x40;
    assert_eq!(step(&mut cpu, &mut bus), 2);
    assert_eq!(flags(&cpu), (false, false, true, true));
    step(&mut cpu, &mut bus);
    assert_eq!(flags(&cpu), (true, false, false, false));
    step(&mut cpu, &mut bus);
    assert_eq!(flags(&cpu), (false, false, false, true));
    assert_eq!(cpu.a, 0x40);
}

#[test]
fn compare_the_index_registers() {
    let (mut cpu, mut bus) = machine(&[0xE0, 0x10, 0xC0, 0x10]);
    cpu.x = 0x10;
    cpu.y = 0x0F;
    step(&mut cpu, &mut bus);
    assert_eq!(flags(&cpu), (false, false, true, true));
    step(&mut cpu, &mut bus);
    assert_eq!(flags(&cpu), (true, false, false, false));
    assert_eq!((cpu.x, cpu.y), (0x10, 0x0F));
}

#[test]
fn logic_on_the_accumulator() {
    let (mut cpu, mut bus) = machine(&[0x29, 0x0F, 0x09, 0x80, 0x49, 0xFF, 0x49, 0x7A]);
    cpu.a = 0x35;
    step(&mut cpu, &mut bus);
    assert_eq!(cpu.a, 0x05);
    assert_eq!(flags(&cpu), (false, false, false, false));
    step(&mut cpu, &mut bus);
    assert_eq!(cpu.a, 0x85);
    assert_eq!(flags(&cpu), (true, false, false, false));
    step(&mut cpu, &mut bus);
    assert_eq!(cpu.a, 0x7A);
    assert_eq!(flags(&cpu), (false, false, false, false));
    step(&mut cpu, &mut bus);
    assert_eq!(cpu.a, 0x00);
    assert_eq!(flags(&cpu), (false, false, true, false));
}

#[test]
fn bit_copies_the_top_bits_of_the_operand() {
    let (mut cpu, mut bus) = machine(&[0x24, 0x10, 0x24, 0x11, 0x24, 0x12]);
    bus.write(0x0010, 0xC0);
    bus.write(0x0011, 0x41);
    bus.write(0x0012, 0x00);
    cpu.a = 0x01;
    assert_eq!(step(&mut cpu, &mut bus), 3);
    assert_eq!(flags(&cpu), (true, true, true, false));
    step(&mut cpu, &mut bus);
    assert_eq!(flags(&cpu), (false, true, false, false));
    step(&mut cpu, &mut bus);
    assert_eq!(flags(&cpu), (false, false, true, false));
    assert_eq!(cpu.a, 0x01);
}

#[test]
fn asl_on_the_accumulator() {
    let (mut cpu, mut bus) = machine(&[0x0A, 0x0A]);
    cpu.a = 0x81;
    assert_eq!(step(&mut cpu, &mut bus), 2);
    assert_eq!(cpu.a, 0x02);
    assert_eq!(flags(&cpu), (false, false, false, true));
    cpu.a = 0x40;
    step(&mut cpu, &mut bus);
    assert_eq!(cpu.a, 0x80);
    assert_eq!(flags(&cpu), (true, false, false, false));
}

#[test]
fn asl_on_memory() {
    let (mut cpu, mut bus) = machine(&[0x06, 0x10]);
    bus.write(0x0010, 0x80);
    cpu.a = 0x55;
    assert_eq!(step(&mut cpu, &mut bus), 5);
    assert_eq!(bus.read(0x0010, true), 0x00);
    assert_eq!(cpu.a, 0x55);
    assert_eq!(flags(&cpu), (false, false, true, true));
}

#[test]
fn lsr_on_the_accumulator_and_on_memory() {
    let (mut cpu, mut bus) = machine(&[0x4A, 0x46, 0x10]);
    bus.write(0x0010, 0x82);
    cpu.a = 0x01;
    assert_eq!(step(&mut cpu, &mut bus), 2);
    assert_eq!(cpu.a, 0x00);
    assert_eq!(flags(&cpu), (false, false, true, true));
    assert_eq!(step(&mut cpu, &mut bus), 5);
    assert_eq!(bus.read(0x0010, true), 0x41);
    assert_eq!(flags(&cpu), (false, false, false, false));
}

#[test]
fn rol_takes_the_carry_in() {
    let (mut cpu, mut bus) = machine(&[0x2A, 0x2A, 0x26, 0x10]);
    bus.write(0x0010, 0x40);
    cpu.a = 0x80;
    cpu.status_flags = FLAG_CARRY;
    step(&mut cpu, &mut bus);
    assert_eq!(cpu.a, 0x01);
    assert_eq!(flags(&cpu), (false, false, false, true));
    step(&mut cpu, &mut bus);
    assert_eq!(cpu.a, 0x03);
    assert_eq!(flags(&cpu), (false, false, false, false));
    assert_eq!(step(&mut cpu, &mut bus), 5);
    assert_eq!(bus.read(0x0010, true), 0x80);
    assert_eq!(flags(&cpu), (true, false, false, false));
}

#[test]
fn ror_takes_the_carry_in() {
    let (mut cpu, mut bus) = machine(&[0x6A, 0x6A, 0x66, 0x10]);
    bus.write(0x0010, 0x01);
    cpu.a = 0x01;
    cpu.status_flags = FLAG_CARRY;
    step(&mut cpu, &mut bus);
    assert_eq!(cpu.a, 0x80);
    assert_eq!(flags(&cpu), (true, false, false, true));
    step(&mut cpu, &mut bus);
    assert_eq!(cpu.a, 0xC0);
    assert_eq!(flags(&cpu), (true, false, false, false));
    assert_eq!(step(&mut cpu, &mut bus), 5);
    assert_eq!(bus.read(0x0010, true), 0x00);
    assert_eq!(flags(&cpu), (false, false, true, true));
}

#[test]
fn inc_and_dec_wrap_in_memory() {
    let (mut cpu, mut bus) = machine(&[0xE6, 0x10, 0xC6, 0x10, 0xC6, 0x10]);
    bus.write(0x0010, 0xFF);
    assert_eq!(step(&mut cpu, &mut bus), 5);
    assert_eq!(bus.read(0x0010, true), 0x00);
    assert_eq!(flags(&cpu), (false, false, true, false));
    assert_eq!(step(&mut cpu, &mut bus), 5);
    assert_eq!(bus.read(0x0010, true), 0xFF);
    assert_eq!(flags(&cpu), (true, false, false, false));
    step(&mut cpu, &mut bus);
    assert_eq!(bus.read(0x0010, true), 0xFE);
    assert_eq!(cpu.last_fetched, 0xFF);
}

#[test]
fn index_registers_count_and_wrap() {
    let (mut cpu, mut bus) = machine(&[0xE8, 0xC8, 0xCA, 0x88, 0xCA, 0x88]);
    cpu.x = 0xFF;
    cpu.y = 0x7F;
    step(&mut cpu, &mut bus);
    assert_eq!(cpu.x, 0x00);
    assert_eq!(flags(&cpu), (false, false, true, false));
    step(&mut cpu, &mut bus);
    assert_eq!(cpu.y, 0x80);
    assert_eq!(flags(&cpu), (true, false, false, false));
    step(&mut cpu, &mut bus);
    assert_eq!(cpu.x, 0xFF);
    assert_eq!(flags(&cpu), (true, false, false, false));
    step(&mut cpu, &mut bus);
    assert_eq!(cpu.y, 0x7F);
    assert_eq!(flags(&cpu), (false, false, false, false));
    step(&mut cpu, &mut bus);
    step(&mut cpu, &mut bus);
    assert_eq!((cpu.x, cpu.y), (0xFE, 0x7E));
}

#[test]
fn transfers_copy_and_set_flags() {
    let (mut cpu, mut bus) = machine(&[0xAA, 0xA8, 0x8A, 0x98, 0xBA, 0x9A]);
    cpu.a = 0x80;
    step(&mut cpu, &mut bus);
    assert_eq!(cpu.x, 0x80);
    assert_eq!(flags(&cpu), (true, false, false, false));
    cpu.a = 0x00;
    step(&mut cpu, &mut bus);
    assert_eq!(cpu.y, 0x00);
    assert_eq!(flags(&cpu), (false, false, true, false));
    step(&mut cpu, &mut bus);
    assert_eq!(cpu.a, 0x80);
    assert_eq!(flags(&cpu), (true, false, false, false));
    step(&mut cpu, &mut bus);
    assert_eq!(cpu.a, 0x00);
    assert_eq!(flags(&cpu), (false, false, true, false));
    step(&mut cpu, &mut bus);
    assert_eq!(cpu.x, 0xFD);
    assert_eq!(flags(&cpu), (true, false, false, false));
    cpu.x = 0x00;
    let status = cpu.status_flags;
    step(&mut cpu, &mut bus);
    assert_eq!(cpu.sp, 0x00);
    assert_eq!(cpu.status_flags, status);
}

#[test]
fn stores_write_the_registers() {
    let (mut cpu, mut bus) = machine(&[0x85, 0x10, 0x86, 0x11, 0x84, 0x12, 0x8D, 0x34, 0x03]);
    cpu.a = 0x0A;
    cpu.x = 0x0B;
    cpu.y = 0x0C;
    assert_eq!(step(&mut cpu, &mut bus), 3);
    assert_eq!(step(&mut cpu, &mut bus), 3);
    assert_eq!(step(&mut cpu, &mut bus), 3);
    assert_eq!(step(&mut cpu, &mut bus), 4);
    assert_eq!(bus.read(0x0010, true), 0x0A);
    assert_eq!(bus.read(0x0011, true), 0x0B);
    assert_eq!(bus.read(0x0012, true), 0x0C);
    assert_eq!(bus.read(0x0334, true), 0x0A);
    assert_eq!(cpu.status_flags, 0);
}

#[test]
fn flag_instructions_set_and_clear_one_flag() {
    let (mut cpu, mut bus) = machine(&[0x38, 0xF8, 0x78, 0x18, 0xD8, 0x58, 0xB8]);
    assert_eq!(step(&mut cpu, &mut bus), 2);
    assert_eq!(cpu.status_flags, FLAG_CARRY);
    step(&mut cpu, &mut bus);
    assert_eq!(cpu.status_flags, FLAG_CARRY | FLAG_DECIMAL);
    step(&mut cpu, &mut bus);
    assert_eq!(cpu.status_flags, FLAG_CARRY | FLAG_DECIMAL | FLAG_INTERRUPT);
    step(&mut cpu, &mut bus);
    assert_eq!(cpu.status_flags, FLAG_DECIMAL | FLAG_INTERRUPT);
    step(&mut cpu, &mut bus);
    assert_eq!(cpu.status_flags, FLAG_INTERRUPT);
    step(&mut cpu, &mut bus);
    assert_eq!(cpu.status_flags, 0);
    cpu.status_flags = 0xFF;
    step(&mut cpu, &mut bus);
    assert_eq!(cpu.status_flags, 0xFF & !FLAG_OVERFLOW);
}

#[test]
fn set_flag_and_clear_flag_touch_their_bits_only() {
    let mut cpu = CPU::new();
    cpu.set_flag(FLAG_ZERO);
    cpu.set_flag(FLAG_NEGATIVE);
    assert_eq!(cpu.status_flags, 0x82);
    cpu.clear_flag(FLAG_ZERO);
    assert_eq!(cpu.status_flags, 0x80);
    cpu.clear_flag(FLAG_CARRY);
    assert_eq!(cpu.status_flags, 0x80);
    cpu.set_flag(FLAG_NEGATIVE);
    assert_eq!(cpu.status_flags, 0x80);
}

#[test]
fn pha_and_pla_go_through_the_stack() {
    let (mut cpu, mut bus) = machine(&[0x48, 0xA9, 0x00, 0x68]);
    cpu.a = 0x99;
    assert_eq!(step(&mut cpu, &mut bus), 3);
    assert_eq!(cpu.sp, 0xFC);
    assert_eq!(bus.read(0x01FD, true), 0x99);
    step(&mut cpu, &mut bus);
    assert_eq!(cpu.a, 0x00);
    assert_eq!(step(&mut cpu, &mut bus), 4);
    assert_eq!(cpu.a, 0x99);
    assert_eq!(cpu.sp, 0xFD);
    assert_eq!(flags(&cpu), (true, false, false, false));
}

#[test]
fn stack_pointer_wraps_within_its_page() {
    let (mut cpu, mut bus) = machine(&[0x48, 0x48, 0x68, 0x68]);
    cpu.sp = 0x00;
    cpu.a = 0x11;
    step(&mut cpu, &mut bus);
    assert_eq!(cpu.sp, 0xFF);
    assert_eq!(bus.read(0x0100, true), 0x11);
    cpu.a = 0x22;
    step(&mut cpu, &mut bus);
    assert_eq!(cpu.sp, 0xFE);
    assert_eq!(bus.read(0x01FF, true), 0x22);
    step(&mut cpu, &mut bus);
    assert_eq!((cpu.a, cpu.sp), (0x22, 0xFF));
    step(&mut cpu, &mut bus);
    assert_eq!((cpu.a, cpu.sp), (0x11, 0x00));
}

#[test]
fn php_pushes_break_and_the_unused_bit() {
    let (mut cpu, mut bus) = machine(&[0x08]);
    cpu.status_flags = FLAG_CARRY | FLAG_NEGATIVE | FLAG_BREAK;
    assert_eq!(step(&mut cpu, &mut bus), 3);
    assert_eq!(bus.read(0x01FD, true), FLAG_CARRY | FLAG_NEGATIVE | FLAG_BREAK | FLAG_UNUSED);
    assert_eq!(cpu.status_flags, FLAG_CARRY | FLAG_NEGATIVE);
    assert_eq!(cpu.sp, 0xFC);
}

#[test]
fn plp_pulls_the_status_with_the_unused_bit() {
    let (mut cpu, mut bus) = machine(&[0x28]);
    cpu.sp = 0xFC;
    bus.write(0x01FD, FLAG_ZERO | FLAG_OVERFLOW | FLAG_BREAK);
    assert_eq!(step(&mut cpu, &mut bus), 4);
    assert_eq!(cpu.status_flags, FLAG_ZERO | FLAG_OVERFLOW | FLAG_BREAK | FLAG_UNUSED);
    assert_eq!(cpu.sp, 0xFD);
}

#[test]
fn nop_changes_nothing_but_the_program_counter() {
    let (mut cpu, mut bus) = machine(&[0xEA]);
    cpu.a = 1;
    cpu.x = 2;
    cpu.y = 3;
    cpu.status_flags = 0x42;
    assert_eq!(step(&mut cpu, &mut bus), 2);
    assert_eq!((cpu.a, cpu.x, cpu.y, cpu.sp, cpu.status_flags), (1, 2, 3, 0xFD, 0x42));
    assert_eq!(cpu.pc, 0x0201);
}

#[test]
fn operations_answer_whether_they_pay_for_a_page() {
    let (mut cpu, mut bus) = machine(&[]);
    cpu.opcode = 0xBD;
    cpu.absolute_addr = 0x0010;
    assert_eq!(cpu.ins_lda(&bus), 1);
    assert_eq!(cpu.ins_ldx(&bus), 1);
    assert_eq!(cpu.ins_ldy(&bus), 1);
    assert_eq!(cpu.ins_adc(&bus), 1);
    assert_eq!(cpu.ins_sbc(&bus), 1);
    assert_eq!(cpu.ins_and(&bus), 1);
    assert_eq!(cpu.ins_ora(&bus), 1);
    assert_eq!(cpu.ins_eor(&bus), 1);
    assert_eq!(cpu.ins_cmp(&bus), 1);
    assert_eq!(cpu.ins_cpx(&bus), 0);
    assert_eq!(cpu.ins_cpy(&bus), 0);
    assert_eq!(cpu.ins_bit(&bus), 0);
    assert_eq!(cpu.ins_sta(&mut bus), 0);
    assert_eq!(cpu.ins_inc(&mut bus), 0);
    assert_eq!(cpu.ins_asl(&mut bus), 0);
    assert_eq!(cpu.ins_nop(), 0);
    assert_eq!(cpu.ins_xxx(), 0);
    assert_eq!(cpu.ins_jmp(), 0);
}

#[test]
fn fetch_reads_the_operand_once_the_mode_has_found_it() {
    let (mut cpu, mut bus) = machine(&[]);
    bus.write(0x0040, 0x77);
    cpu.opcode = 0xA5;
    cpu.absolute_addr = 0x0040;
    assert_eq!(cpu.fetch(&bus), 0x77);
    assert_eq!(cpu.last_fetched, 0x77);
    assert_eq!(cpu.pc, 0x0200);
    cpu.opcode = 0x0A;
    cpu.last_fetched = 0x12;
    assert_eq!(cpu.fetch(&bus), 0x12);
    assert_eq!(cpu.last_fetched, 0x12);
}

#[test]
fn processor_reads_and_writes_through_the_bus() {
    let (mut cpu, mut bus) = machine(&[]);
    cpu.write(&mut bus, 0x0801, 0x5C);
    assert_eq!(cpu.read(&bus, 0x0001), 0x5C);
    assert_eq!(bus.cpu_ram[1], 0x5C);
    assert_eq!(cpu.read(&bus, 0x5000), 0x00);
    assert_eq!(cpu.pc, 0x0200);
}
