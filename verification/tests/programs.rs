use sprig_emu::bus::{Bus, Mem, Rom};
use sprig_emu::cpu::CPU;
use sprig_emu::flags::{CARRY, NEGATIVE, OVERFLOW, ZERO};
use sprig_emu::state::Outcome;

fn blank_cpu() -> CPU {
    CPU::new(Rom::new(vec![]))
}

#[test]
fn lda_immediate_loads_the_accumulator() {
    let mut cpu = blank_cpu();
    let outcome = cpu.load_and_run(vec![0xa9, 0x05, 0x00], 100);
    assert_eq!(outcome, Outcome::Break);
    assert_eq!(cpu.register_a, 5);
    assert!(!cpu.status.contains(ZERO));
    assert!(!cpu.status.contains(NEGATIVE));
    assert_eq!(cpu.program_counter, 0x0603);
}

#[test]
fn lda_of_zero_sets_the_zero_flag() {
    let mut cpu = blank_cpu();
    cpu.load_and_run(vec![0xa9, 0x00, 0x00], 100);
    assert_eq!(cpu.register_a, 0);
    assert!(cpu.status.contains(ZERO));
    assert!(!cpu.status.contains(NEGATIVE));
}

#[test]
fn five_instructions_work_together() {
    let mut cpu = blank_cpu();
    let outcome = cpu.load_and_run(vec![0xa9, 0xc0, 0xaa, 0xe8, 0x00], 100);
    assert_eq!(outcome, Outcome::Break);
    assert_eq!(cpu.register_x, 0xc1);
}

#[test]
fn inx_wraps_and_the_callback_sees_zero_in_between() {
    let mut cpu = blank_cpu();
    cpu.load(vec![0xe8, 0xe8, 0x00]);
    cpu.reset();
    cpu.register_x = 0xff;
    let mut samples: Vec<(u8, bool)> = Vec::new();
    let outcome = cpu.run_with_callback(
        |cpu: &mut CPU| samples.push((cpu.register_x, cpu.status.contains(ZERO))),
        100,
    );
    assert_eq!(outcome, Outcome::Break);
    assert_eq!(cpu.register_x, 1);
    assert!(!cpu.status.contains(ZERO));
    assert_eq!(samples, vec![(0xff, false), (0x00, true), (0x01, false)]);
    for (x, zero) in samples {
        assert_eq!(zero, x == 0);
    }
}

#[test]
fn load_and_run_resets_the_registers_first() {
    let mut cpu = blank_cpu();
    cpu.register_a = 10;
    cpu.load_and_run(vec![0xaa, 0x00], 100);
    assert_eq!(cpu.register_a, 0);
    assert_eq!(cpu.register_x, 0);
    assert!(cpu.status.contains(ZERO));
}

#[test]
fn lda_from_memory() {
    let mut cpu = blank_cpu();
    cpu.mem_write(0x10, 0x55);
    cpu.load_and_run(vec![0xa5, 0x10, 0x00], 100);
    assert_eq!(cpu.register_a, 0x55);
}

#[test]
fn jsr_then_rts_resumes_after_the_call() {
    let mut cpu = blank_cpu();
    cpu.load(vec![0x20, 0x00, 0x07, 0x00]);
    cpu.mem_write(0x0700, 0x60);
    cpu.reset();
    assert_eq!(cpu.tick(), Outcome::Continue);
    assert_eq!(cpu.program_counter, 0x0700);
    assert_eq!(cpu.stack_pointer, 0xfb);
    assert_eq!(cpu.mem_read(0x01fd), 0x06);
    assert_eq!(cpu.mem_read(0x01fc), 0x02);
    assert_eq!(cpu.tick(), Outcome::Continue);
    assert_eq!(cpu.program_counter, 0x0603);
    assert_eq!(cpu.stack_pointer, 0xfd);
    assert_eq!(cpu.tick(), Outcome::Break);
    assert_eq!(cpu.program_counter, 0x0604);
}

#[test]
fn indirect_jump_takes_the_high_byte_from_the_same_page() {
    let mut cpu = blank_cpu();
    cpu.load(vec![0x6c, 0xff, 0x30]);
    cpu.mem_write(0x30ff, 0x80);
    cpu.mem_write(0x3000, 0x50);
    cpu.mem_write(0x3100, 0x40);
    cpu.reset();
    assert_eq!(cpu.tick(), Outcome::Continue);
    assert_eq!(cpu.program_counter, 0x5080);
}

#[test]
fn indirect_jump_inside_a_page_reads_two_neighbours() {
    let mut cpu = blank_cpu();
    cpu.load(vec![0x6c, 0x20, 0x30]);
    cpu.mem_write(0x3020, 0x34);
    cpu.mem_write(0x3021, 0x12);
    cpu.reset();
    assert_eq!(cpu.tick(), Outcome::Continue);
    assert_eq!(cpu.program_counter, 0x1234);
}

#[test]
fn absolute_jump_sets_the_program_counter() {
    let mut cpu = blank_cpu();
    cpu.load(vec![0x4c, 0x34, 0x12]);
    cpu.reset();
    assert_eq!(cpu.tick(), Outcome::Continue);
    assert_eq!(cpu.program_counter, 0x1234);
}

#[test]
fn a_jump_to_its_own_operand_is_a_jump() {
    let mut cpu = blank_cpu();
    cpu.load(vec![0x4c, 0x01, 0x06]);
    cpu.reset();
    assert_eq!(cpu.tick(), Outcome::Continue);
    assert_eq!(cpu.program_counter, 0x0601);
}

#[test]
fn an_indirect_jump_to_its_own_operand_is_a_jump() {
    let mut cpu = blank_cpu();
    cpu.load(vec![0x6c, 0x00, 0x30]);
    cpu.mem_write(0x3000, 0x01);
    cpu.mem_write(0x3001, 0x06);
    cpu.reset();
    assert_eq!(cpu.tick(), Outcome::Continue);
    assert_eq!(cpu.program_counter, 0x0601);
}

#[test]
fn a_call_to_its_own_operand_is_a_call() {
    let mut cpu = blank_cpu();
    cpu.load(vec![0x20, 0x01, 0x06]);
    cpu.reset();
    assert_eq!(cpu.tick(), Outcome::Continue);
    assert_eq!(cpu.program_counter, 0x0601);
    assert_eq!(cpu.stack_pop_u16(), 0x0602);
}

#[test]
fn a_return_to_the_byte_after_its_opcode_is_a_return() {
    let mut cpu = blank_cpu();
    cpu.load(vec![0x60, 0xea]);
    cpu.reset();
    cpu.stack_push_u16(0x0600);
    assert_eq!(cpu.tick(), Outcome::Continue);
    assert_eq!(cpu.program_counter, 0x0601);

    // RTI pops the flags first, then the address as it stands
    cpu.load(vec![0x40]);
    cpu.reset();
    cpu.stack_push_u16(0x0601);
    cpu.stack_push(0x00);
    assert_eq!(cpu.tick(), Outcome::Continue);
    assert_eq!(cpu.program_counter, 0x0601);
}

#[test]
fn a_taken_branch_back_by_one_stays_on_its_displacement() {
    let mut cpu = blank_cpu();
    // SEC; BCS -1
    cpu.load(vec![0x38, 0xb0, 0xff]);
    cpu.reset();
    assert_eq!(cpu.tick(), Outcome::Continue);
    assert_eq!(cpu.tick(), Outcome::Continue);
    assert_eq!(cpu.program_counter, 0x0602);

    // the same branch not taken goes on after the displacement
    cpu.load(vec![0x18, 0xb0, 0xff]);
    cpu.reset();
    assert_eq!(cpu.tick(), Outcome::Continue);
    assert_eq!(cpu.tick(), Outcome::Continue);
    assert_eq!(cpu.program_counter, 0x0603);
}

#[test]
fn a_byte_without_descriptor_cannot_be_ticked() {
    let mut cpu = blank_cpu();
    cpu.load(vec![0xe8, 0x02]);
    cpu.reset();
    assert!(cpu.can_tick());
    assert_eq!(cpu.tick(), Outcome::Continue);
    assert!(!cpu.can_tick());
    assert_eq!(cpu.program_counter, 0x0601);
    assert_eq!(cpu.run(5), Outcome::Unrecognized(0x02));
    assert_eq!(cpu.program_counter, 0x0602);
    assert_eq!(cpu.register_x, 1);
    assert_eq!(cpu.stack_pointer, 0xfd);
    assert_eq!(cpu.status.bits(), 0b0010_0100);
    assert_eq!(cpu.mem_read(0x0601), 0x02);
}

#[test]
fn the_callback_runs_once_more_before_a_byte_that_is_no_opcode() {
    let mut cpu = blank_cpu();
    cpu.load(vec![0xe8, 0x02]);
    cpu.reset();
    let mut seen: Vec<u16> = Vec::new();
    let outcome = cpu.run_with_callback(|cpu: &mut CPU| seen.push(cpu.program_counter), 100);
    assert_eq!(outcome, Outcome::Unrecognized(0x02));
    assert_eq!(seen, vec![0x0600, 0x0601]);
}

#[test]
fn a_byte_without_descriptor_ends_the_run() {
    let mut cpu = blank_cpu();
    let outcome = cpu.load_and_run(vec![0xe8, 0x02, 0xe8, 0x00], 100);
    assert_eq!(outcome, Outcome::Unrecognized(0x02));
    assert_eq!(cpu.register_x, 1);
    assert_eq!(cpu.program_counter, 0x0602);
}

#[test]
fn a_run_ends_when_its_ticks_are_used_up() {
    let mut cpu = blank_cpu();
    let outcome = cpu.load_and_run(vec![0xe8, 0x4c, 0x00, 0x06], 10);
    assert_eq!(outcome, Outcome::Continue);
    assert_eq!(cpu.register_x, 5);
    assert_eq!(cpu.program_counter, 0x0600);
}

#[test]
fn a_run_in_two_parts_is_the_whole_run() {
    // LDX #5; DEX; BNE -3; BRK
    let program = vec![0xa2, 0x05, 0xca, 0xd0, 0xfd, 0x00];
    let mut whole = blank_cpu();
    let outcome = whole.load_and_run(program.clone(), 100);
    assert_eq!(outcome, Outcome::Break);
    for first in 0..15 {
        let mut parts = blank_cpu();
        parts.load(program.clone());
        parts.reset();
        let mut outcome = parts.run(first);
        if outcome == Outcome::Continue {
            outcome = parts.run(100 - first);
        }
        assert_eq!(outcome, Outcome::Break);
        assert_eq!(parts.register_x, whole.register_x);
        assert_eq!(parts.program_counter, whole.program_counter);
        assert_eq!(parts.status.bits(), whole.status.bits());
    }
}

#[test]
fn a_callback_that_does_nothing_makes_a_plain_run() {
    let program = vec![0xa9, 0x7f, 0x69, 0x01, 0xaa, 0x48, 0x00];
    let mut plain = blank_cpu();
    let mut watched = blank_cpu();
    plain.load(program.clone());
    watched.load(program);
    plain.reset();
    watched.reset();
    assert_eq!(plain.run(100), watched.run_with_callback(|_cpu: &mut CPU| {}, 100));
    assert_eq!(plain.register_a, 0x80);
    assert_eq!(watched.register_a, 0x80);
    assert_eq!(plain.register_x, watched.register_x);
    assert_eq!(plain.status.bits(), watched.status.bits());
    assert_eq!(plain.stack_pointer, watched.stack_pointer);
    assert_eq!(plain.program_counter, watched.program_counter);
    assert_eq!(plain.mem_read(0x01fd), watched.mem_read(0x01fd));
}

#[test]
fn a_run_of_no_ticks_changes_nothing() {
    let mut cpu = blank_cpu();
    cpu.load(vec![0xe8, 0x00]);
    cpu.reset();
    assert_eq!(cpu.run(0), Outcome::Continue);
    assert_eq!(cpu.register_x, 0);
    assert_eq!(cpu.program_counter, 0x0600);
    let mut calls = 0;
    assert_eq!(cpu.run_with_callback(|_cpu: &mut CPU| calls += 1, 0), Outcome::Continue);
    assert_eq!(calls, 0);
    assert_eq!(cpu.program_counter, 0x0600);
}

#[test]
fn the_callback_runs_before_every_tick_and_may_change_the_processor() {
    let mut cpu = blank_cpu();
    // INX; INX; INX; BRK
    cpu.load(vec![0xe8, 0xe8, 0xe8, 0x00]);
    cpu.reset();
    let mut calls = 0;
    let outcome = cpu.run_with_callback(
        |cpu: &mut CPU| {
            calls += 1;
            cpu.register_x = cpu.register_x.wrapping_add(0x10);
        },
        100,
    );
    assert_eq!(outcome, Outcome::Break);
    assert_eq!(calls, 4);
    assert_eq!(cpu.register_x, 0x43);
}

#[test]
fn a_countdown_loop_branches_back_until_zero() {
    let mut cpu = blank_cpu();
    // LDX #3; DEX; BNE -3; BRK
    let outcome = cpu.load_and_run(vec![0xa2, 0x03, 0xca, 0xd0, 0xfd, 0x00], 100);
    assert_eq!(outcome, Outcome::Break);
    assert_eq!(cpu.register_x, 0);
    assert!(cpu.status.contains(ZERO));
    assert_eq!(cpu.program_counter, 0x0606);
}

#[test]
fn a_branch_forward_skips_what_lies_between() {
    let mut cpu = blank_cpu();
    // SEC; BCS +1; INX; INY; BRK
    let outcome = cpu.load_and_run(vec![0x38, 0xb0, 0x01, 0xe8, 0xc8, 0x00], 100);
    assert_eq!(outcome, Outcome::Break);
    assert_eq!(cpu.register_x, 0);
    assert_eq!(cpu.register_y, 1);
}

#[test]
fn a_branch_not_taken_goes_on_after_its_displacement() {
    let mut cpu = blank_cpu();
    // CLC; BCS +1; INX; INY; BRK
    let outcome = cpu.load_and_run(vec![0x18, 0xb0, 0x01, 0xe8, 0xc8, 0x00], 100);
    assert_eq!(outcome, Outcome::Break);
    assert_eq!(cpu.register_x, 1);
    assert_eq!(cpu.register_y, 1);
}

#[test]
fn every_branch_tests_its_own_flag() {
    // (opcode, status that takes the branch, status that does not)
    let cases: [(u8, u8, u8); 8] = [
        (0x90, 0x00, CARRY),
        (0xb0, CARRY, 0x00),
        (0xf0, ZERO, 0x00),
        (0xd0, 0x00, ZERO),
        (0x30, NEGATIVE, 0x00),
        (0x10, 0x00, NEGATIVE),
        (0x70, OVERFLOW, 0x00),
        (0x50, 0x00, OVERFLOW),
    ];
    for (opcode, taken, not_taken) in cases {
        let mut cpu = blank_cpu();
        cpu.load(vec![opcode, 0x10]);
        cpu.reset();
        cpu.status = sprig_emu::flags::CpuFlags::from_bits_truncate(taken);
        assert_eq!(cpu.tick(), Outcome::Continue);
        assert_eq!(cpu.program_counter, 0x0612, "opcode {:#x} taken", opcode);

        cpu.reset();
        cpu.status = sprig_emu::flags::CpuFlags::from_bits_truncate(not_taken);
        assert_eq!(cpu.tick(), Outcome::Continue);
        assert_eq!(cpu.program_counter, 0x0602, "opcode {:#x} not taken", opcode);
    }
}

#[test]
fn a_backward_branch_subtracts_its_displacement() {
    let mut cpu = blank_cpu();
    cpu.load(vec![0xd0, 0x80]);
    cpu.reset();
    assert_eq!(cpu.tick(), Outcome::Continue);
    assert_eq!(cpu.program_counter, 0x0602 - 0x80);
}

#[test]
fn a_program_stores_through_every_store_instruction() {
    let mut cpu = blank_cpu();
    // LDA #1; LDX #2; LDY #3; STA $10; STX $11; STY $12; STA $0200,X; BRK
    let outcome = cpu.load_and_run(
        vec![
            0xa9, 0x01, 0xa2, 0x02, 0xa0, 0x03, 0x85, 0x10, 0x86, 0x11, 0x84, 0x12, 0x9d, 0x00,
            0x02, 0x00,
        ],
        100,
    );
    assert_eq!(outcome, Outcome::Break);
    assert_eq!(cpu.mem_read(0x10), 1);
    assert_eq!(cpu.mem_read(0x11), 2);
    assert_eq!(cpu.mem_read(0x12), 3);
    assert_eq!(cpu.mem_read(0x0202), 1);
}

#[test]
fn the_stack_instructions_push_and_pop() {
    let mut cpu = blank_cpu();
    // LDA #$7f; PHA; LDA #0; PLA; SEC; PHP; BRK
    let outcome = cpu.load_and_run(vec![0xa9, 0x7f, 0x48, 0xa9, 0x00, 0x68, 0x38, 0x08, 0x00], 100);
    assert_eq!(outcome, Outcome::Break);
    assert_eq!(cpu.register_a, 0x7f);
    assert!(!cpu.status.contains(ZERO));
    assert_eq!(cpu.stack_pointer, 0xfc);
    assert_eq!(cpu.mem_read(0x01fd), 0b0010_0101);
}

#[test]
fn no_ops_of_every_length_only_move_the_program_counter() {
    for (opcode, len) in [(0xeau8, 1u16), (0x1a, 1), (0x04, 2), (0x80, 2), (0x0c, 3), (0xfc, 3)] {
        let mut cpu = blank_cpu();
        cpu.load(vec![opcode, 0x12, 0x34]);
        cpu.reset();
        cpu.register_a = 7;
        assert_eq!(cpu.tick(), Outcome::Continue);
        assert_eq!(cpu.program_counter, 0x0600 + len);
        assert_eq!(cpu.register_a, 7);
        assert_eq!(cpu.register_x, 0);
        assert_eq!(cpu.register_y, 0);
        assert_eq!(cpu.status.bits(), 0b0010_0100);
        assert_eq!(cpu.stack_pointer, 0xfd);
    }
}

#[test]
fn the_program_counter_wraps_at_the_top_of_the_bus() {
    let mut cpu = blank_cpu();
    cpu.mem_write(0xffff, 0xe8);
    cpu.reset();
    cpu.program_counter = 0xffff;
    assert_eq!(cpu.tick(), Outcome::Continue);
    assert_eq!(cpu.program_counter, 0x0000);
    assert_eq!(cpu.register_x, 1);
}

#[test]
fn bus_made_from_an_image_holds_it_at_the_base() {
    let bus = Bus::new(Rom::new(vec![1, 2, 3]));
    assert_eq!(bus.mem_read(0x05ff), 0);
    assert_eq!(bus.mem_read(0x0600), 1);
    assert_eq!(bus.mem_read(0x0602), 3);
    assert_eq!(bus.mem_read(0x0603), 0);
}

#[test]
fn a_processor_made_from_an_image_runs_it() {
    let mut cpu = CPU::new(Rom::new(vec![0xa9, 0x05, 0x00]));
    assert_eq!(cpu.program_counter, 0);
    assert_eq!(cpu.stack_pointer, 0xfd);
    assert_eq!(cpu.status.bits(), 0b0010_0100);
    cpu.reset();
    assert_eq!(cpu.run(100), Outcome::Break);
    assert_eq!(cpu.register_a, 5);
}

#[test]
fn a_processor_made_from_a_bus_keeps_its_memory() {
    let mut bus = Bus::new(Rom::new(vec![]));
    bus.mem_write(0x1234, 0x56);
    let cpu = CPU::from_bus(bus);
    assert_eq!(cpu.mem_read(0x1234), 0x56);
    assert_eq!(cpu.register_a, 0);
    assert_eq!(cpu.register_x, 0);
    assert_eq!(cpu.register_y, 0);
    assert_eq!(cpu.program_counter, 0);
    assert_eq!(cpu.stack_pointer, 0xfd);
    assert_eq!(cpu.status.bits(), 0b0010_0100);
}

#[test]
fn an_image_may_fill_the_space_above_the_base() {
    let rom = Rom::new(vec![0xea; 0xfa00]);
    assert_eq!(rom.program.len(), 0xfa00);
    let bus = Bus::new(rom);
    assert_eq!(bus.mem_read(0x05ff), 0);
    assert_eq!(bus.mem_read(0x0600), 0xea);
    assert_eq!(bus.mem_read(0xffff), 0xea);
    assert_eq!(bus.mem_read(0x0000), 0);
}

#[test]
fn an_image_that_reaches_the_top_goes_on_at_address_zero() {
    let mut image = vec![0x11; 0xfa00];
    image.extend([0x22, 0x33]);
    let mut cpu = blank_cpu();
    cpu.load(image);
    assert_eq!(cpu.mem_read(0x0600), 0x11);
    assert_eq!(cpu.mem_read(0xffff), 0x11);
    assert_eq!(cpu.mem_read(0x0000), 0x22);
    assert_eq!(cpu.mem_read(0x0001), 0x33);
    assert_eq!(cpu.mem_read(0x0002), 0);

    // a second lap over the whole bus overwrites the first
    let mut image = vec![0x11; 0x1_0000];
    image.extend([0x44, 0x55]);
    let bus = Bus::new(Rom::new(image));
    assert_eq!(bus.mem_read(0x0600), 0x44);
    assert_eq!(bus.mem_read(0x0601), 0x55);
    assert_eq!(bus.mem_read(0x0602), 0x11);
    assert_eq!(bus.mem_read(0x05ff), 0x11);
}

#[test]
fn a_bus_loads_an_image_over_what_it_holds() {
    let mut bus = Bus::new(Rom::new(vec![1, 2, 3, 4]));
    bus.load(&vec![9, 8]);
    assert_eq!(bus.mem_read(0x0600), 9);
    assert_eq!(bus.mem_read(0x0601), 8);
    assert_eq!(bus.mem_read(0x0602), 3);
    assert_eq!(bus.mem_read(0x0603), 4);
    bus.load(&vec![]);
    assert_eq!(bus.mem_read(0x0600), 9);
}

#[test]
fn load_does_not_touch_the_registers() {
    let mut cpu = blank_cpu();
    cpu.register_a = 1;
    cpu.register_x = 2;
    cpu.register_y = 3;
    cpu.program_counter = 0x1234;
    cpu.stack_pointer = 0x80;
    cpu.status.insert(CARRY);
    cpu.load(vec![9, 8, 7]);
    assert_eq!(cpu.register_a, 1);
    assert_eq!(cpu.register_x, 2);
    assert_eq!(cpu.register_y, 3);
    assert_eq!(cpu.program_counter, 0x1234);
    assert_eq!(cpu.stack_pointer, 0x80);
    assert_eq!(cpu.status.bits(), 0b0010_0101);
    assert_eq!(cpu.mem_read(0x0600), 9);
    assert_eq!(cpu.mem_read(0x0601), 8);
    assert_eq!(cpu.mem_read(0x0602), 7);
    assert_eq!(cpu.mem_read(0x0603), 0);
}
