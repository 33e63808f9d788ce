use chip8::font::FONT;
use chip8::machine::Machine;

fn boot(program: &[u8]) -> Machine {
    let mut machine = Machine::reset();
    machine.load(program).unwrap();
    machine
}

fn run(program: &[u8], cycles: usize) -> Machine {
    let mut machine = boot(program);
    for _ in 0..cycles {
        machine.step_with(0).unwrap();
    }
    machine
}

/// Runs `Vx = a; Vy = b; op` and returns `(Vx, Vy, VF)`.
fn alu(x: u8, a: u8, y: u8, b: u8, selector: u8) -> (u8, u8, u8) {
    let program = [0x60 | x, a, 0x60 | y, b, 0x80 | x, (y << 4) | selector];
    let machine = run(&program, 3);
    assert_eq!(machine.pc(), 0x206);
    let v = machine.registers();
    (v[x as usize], v[y as usize], v[15])
}

#[test]
fn fetch_reads_big_endian_word() {
    let machine = boot(&[0x12, 0x34, 0xAB, 0xCD]);
    assert_eq!(machine.fetch(), Ok(0x1234));
    let before = machine;
    let _ = machine.fetch();
    assert_eq!(machine, before);
    let next = run(&[0x12, 0x02, 0xAB, 0xCD], 1);
    assert_eq!(next.fetch(), Ok(0xABCD));
}

#[test]
fn machine_routine_is_passed_over() {
    let machine = run(&[0x01, 0x23], 1);
    let mut expected = boot(&[0x01, 0x23]);
    expected.step_with(77).unwrap();
    assert_eq!(machine.pc(), 0x202);
    assert_eq!(machine, expected);
    assert_eq!(machine.registers(), &[0u8; 16]);
    assert_eq!(machine.stack_pointer(), 0);
}

#[test]
fn jump_sets_pc_without_advance() {
    let machine = run(&[0x1A, 0xBC], 1);
    assert_eq!(machine.pc(), 0xABC);
    assert_eq!(machine.stack_pointer(), 0);
}

#[test]
fn call_pushes_current_pc_and_return_resumes_behind_it() {
    // 0x200: call 0x206; 0x202: V1 = 1; 0x206: return
    let mut machine = boot(&[0x22, 0x06, 0x61, 0x01, 0x00, 0x00, 0x00, 0xEE]);
    machine.step_with(0).unwrap();
    assert_eq!(machine.pc(), 0x206);
    assert_eq!(machine.stack_pointer(), 1);
    assert_eq!(machine.stack()[0], 0x200);
    machine.step_with(0).unwrap();
    assert_eq!(machine.pc(), 0x202);
    assert_eq!(machine.stack_pointer(), 0);
    machine.step_with(0).unwrap();
    assert_eq!(machine.registers()[1], 1);
    assert_eq!(machine.pc(), 0x204);
}

#[test]
fn nested_calls_return_in_reverse_order() {
    // 0x200: call 0x204; 0x202: jump 0x202; 0x204: call 0x208; 0x206: return; 0x208: return
    let program = [0x22, 0x04, 0x12, 0x02, 0x22, 0x08, 0x00, 0xEE, 0x00, 0xEE];
    let mut machine = boot(&program);
    machine.step_with(0).unwrap();
    machine.step_with(0).unwrap();
    assert_eq!(machine.stack_pointer(), 2);
    assert_eq!(&machine.stack()[..2], &[0x200, 0x204]);
    assert_eq!(machine.pc(), 0x208);
    machine.step_with(0).unwrap();
    assert_eq!(machine.pc(), 0x206);
    machine.step_with(0).unwrap();
    assert_eq!(machine.pc(), 0x202);
    assert_eq!(machine.stack_pointer(), 0);
}

#[test]
fn skip_if_equal_immediate() {
    assert_eq!(run(&[0x63, 0x42, 0x33, 0x42], 2).pc(), 0x206);
    assert_eq!(run(&[0x63, 0x42, 0x33, 0x43], 2).pc(), 0x204);
}

#[test]
fn skip_if_not_equal_immediate() {
    assert_eq!(run(&[0x63, 0x42, 0x43, 0x42], 2).pc(), 0x204);
    assert_eq!(run(&[0x63, 0x42, 0x43, 0x43], 2).pc(), 0x206);
}

#[test]
fn skip_if_registers_equal() {
    assert_eq!(run(&[0x63, 0x42, 0x64, 0x42, 0x53, 0x40], 3).pc(), 0x208);
    assert_eq!(run(&[0x63, 0x42, 0x64, 0x41, 0x53, 0x40], 3).pc(), 0x206);
    // The low four bits take no part in the decoding of this group.
    assert_eq!(run(&[0x63, 0x42, 0x64, 0x42, 0x53, 0x47], 3).pc(), 0x208);
}

#[test]
fn skip_if_registers_not_equal() {
    assert_eq!(run(&[0x63, 0x42, 0x64, 0x42, 0x93, 0x40], 3).pc(), 0x206);
    assert_eq!(run(&[0x63, 0x42, 0x64, 0x41, 0x93, 0x40], 3).pc(), 0x208);
    assert_eq!(run(&[0x63, 0x42, 0x64, 0x41, 0x93, 0x4F], 3).pc(), 0x208);
}

#[test]
fn load_immediate_sets_register() {
    let machine = run(&[0x6A, 0xFE], 1);
    assert_eq!(machine.registers()[0xA], 0xFE);
    assert_eq!(machine.pc(), 0x202);
    assert_eq!(machine.registers().iter().filter(|v| **v != 0).count(), 1);
}

#[test]
fn add_immediate_wraps_and_leaves_flag() {
    let machine = run(&[0x62, 0xF0, 0x72, 0x20], 2);
    assert_eq!(machine.registers()[2], 0x10);
    assert_eq!(machine.registers()[15], 0);
    assert_eq!(machine.pc(), 0x204);
    let machine = run(&[0x6F, 0x01, 0x62, 0x05, 0x72, 0x03], 3);
    assert_eq!(machine.registers()[2], 8);
    assert_eq!(machine.registers()[15], 1);
}

#[test]
fn alu_assign_or_and_xor() {
    assert_eq!(alu(1, 0x0F, 2, 0xA5, 0x0), (0xA5, 0xA5, 0));
    assert_eq!(alu(1, 0x0F, 2, 0xA5, 0x1), (0xAF, 0xA5, 0));
    assert_eq!(alu(1, 0x0F, 2, 0xA5, 0x2), (0x05, 0xA5, 0));
    assert_eq!(alu(1, 0x0F, 2, 0xA5, 0x3), (0xAA, 0xA5, 0));
}

#[test]
fn add_with_carry_sets_flag() {
    assert_eq!(alu(1, 250, 2, 10, 0x4), (4, 10, 1));
    assert_eq!(alu(1, 10, 2, 10, 0x4), (20, 10, 0));
    assert_eq!(alu(1, 255, 2, 1, 0x4), (0, 1, 1));
    assert_eq!(alu(1, 255, 2, 0, 0x4), (255, 0, 0));
    assert_eq!(alu(1, 255, 2, 255, 0x4), (254, 255, 1));
}

#[test]
fn add_with_carry_into_flag_register_keeps_the_flag() {
    // With x = F the sum is written first and the carry over it.
    let machine = run(&[0x6F, 200, 0x61, 100, 0x8F, 0x14], 3);
    assert_eq!(machine.registers()[15], 1);
    let machine = run(&[0x6F, 20, 0x61, 100, 0x8F, 0x14], 3);
    assert_eq!(machine.registers()[15], 0);
}

#[test]
fn subtract_sets_flag_when_no_borrow() {
    assert_eq!(alu(1, 10, 2, 5, 0x5), (5, 5, 1));
    assert_eq!(alu(1, 5, 2, 10, 0x5), (251, 10, 0));
    assert_eq!(alu(1, 7, 2, 7, 0x5), (0, 7, 1));
    assert_eq!(alu(1, 0, 2, 255, 0x5), (1, 255, 0));
}

#[test]
fn reverse_subtract_sets_flag_when_no_borrow() {
    assert_eq!(alu(1, 5, 2, 10, 0x7), (5, 10, 1));
    assert_eq!(alu(1, 10, 2, 5, 0x7), (251, 5, 0));
    assert_eq!(alu(1, 7, 2, 7, 0x7), (0, 7, 1));
}

#[test]
fn shift_right_takes_carry_before_shifting() {
    assert_eq!(alu(1, 0x03, 2, 0xFF, 0x6), (0x01, 0xFF, 1));
    assert_eq!(alu(1, 0x04, 2, 0xFF, 0x6), (0x02, 0xFF, 0));
    assert_eq!(alu(1, 0xFF, 2, 0x00, 0x6), (0x7F, 0x00, 1));
    // With x = F the flag is written first and then shifted.
    let machine = run(&[0x6F, 0x03, 0x8F, 0x06], 2);
    assert_eq!(machine.registers()[15], 0);
}

#[test]
fn shift_left_takes_carry_before_shifting() {
    assert_eq!(alu(1, 0x81, 2, 0x00, 0xE), (0x02, 0x00, 1));
    assert_eq!(alu(1, 0x41, 2, 0xFF, 0xE), (0x82, 0xFF, 0));
    assert_eq!(alu(1, 0xFF, 2, 0x00, 0xE), (0xFE, 0x00, 1));
    // With x = F the flag is written first and then shifted.
    let machine = run(&[0x6F, 0x80, 0x8F, 0x0E], 2);
    assert_eq!(machine.registers()[15], 2);
}

#[test]
fn set_index_loads_twelve_bits() {
    let machine = run(&[0xAF, 0xFF], 1);
    assert_eq!(machine.index(), 0xFFF);
    assert_eq!(machine.pc(), 0x202);
}

#[test]
fn jump_with_offset_adds_v0() {
    let machine = run(&[0x60, 0x10, 0xB3, 0x00], 2);
    assert_eq!(machine.pc(), 0x310);
    let machine = run(&[0x60, 0xFF, 0xBF, 0xFF], 2);
    assert_eq!(machine.pc(), 0x10FE);
}

#[test]
fn random_masks_the_given_byte() {
    let mut machine = boot(&[0xC3, 0x0F, 0xC4, 0xF0, 0xC5, 0xFF, 0xC6, 0x00]);
    machine.step_with(0xAB).unwrap();
    assert_eq!(machine.registers()[3], 0x0B);
    assert_eq!(machine.pc(), 0x202);
    machine.step_with(0xAB).unwrap();
    assert_eq!(machine.registers()[4], 0xA0);
    machine.step_with(0xFF).unwrap();
    assert_eq!(machine.registers()[5], 0xFF);
    machine.step_with(0xFF).unwrap();
    assert_eq!(machine.registers()[6], 0x00);
    assert_eq!(machine.pc(), 0x208);
}

#[test]
fn random_byte_is_ignored_by_other_instructions() {
    let program = [0x61, 0x07, 0x71, 0x01, 0xA2, 0x00, 0xF1, 0x33];
    let mut a = boot(&program);
    let mut b = boot(&program);
    for _ in 0..4 {
        a.step_with(0x00).unwrap();
        b.step_with(0xFF).unwrap();
    }
    assert_eq!(a, b);
}

#[test]
fn step_draws_random_bytes_below_255() {
    // 0x200: V0 = random & FF; 0x202: jump 0x200
    let mut machine = boot(&[0xC0, 0xFF, 0x12, 0x00]);
    let mut seen = [false; 256];
    for _ in 0..4000 {
        machine.step().unwrap();
        assert_eq!(machine.pc(), 0x202);
        seen[machine.registers()[0] as usize] = true;
        machine.step().unwrap();
        assert_eq!(machine.pc(), 0x200);
    }
    assert!(!seen[255]);
    assert!(seen.iter().filter(|s| **s).count() > 100);
}

#[test]
fn step_masks_random_byte() {
    let mut machine = boot(&[0xC0, 0x0F, 0xC1, 0x00, 0x12, 0x00]);
    for _ in 0..200 {
        machine.step().unwrap();
        machine.step().unwrap();
        machine.step().unwrap();
        assert!(machine.registers()[0] <= 0x0F);
        assert_eq!(machine.registers()[1], 0);
    }
}

#[test]
fn step_runs_other_instructions_as_step_with_does() {
    let program = [0x61, 0xFA, 0x62, 0x0A, 0x81, 0x24, 0xA3, 0x00, 0xF1, 0x33, 0xF2, 0x55];
    let mut a = boot(&program);
    let mut b = boot(&program);
    for _ in 0..6 {
        assert_eq!(a.step(), Ok(()));
        assert_eq!(b.step_with(0), Ok(()));
        assert_eq!(a, b);
    }
}

#[test]
fn skip_if_key_pressed() {
    let program = [0x61, 0x0C, 0xE1, 0x9E];
    let mut up = run(&program, 1);
    up.step_with(0).unwrap();
    assert_eq!(up.pc(), 0x204);
    let mut down = run(&program, 1);
    down.set_key(0xC, true);
    down.step_with(0).unwrap();
    assert_eq!(down.pc(), 0x206);
}

#[test]
fn skip_if_key_not_pressed() {
    let program = [0x61, 0x0C, 0xE1, 0xA1];
    let mut up = run(&program, 1);
    up.step_with(0).unwrap();
    assert_eq!(up.pc(), 0x206);
    let mut down = run(&program, 1);
    down.set_key(0xC, true);
    down.step_with(0).unwrap();
    assert_eq!(down.pc(), 0x204);
}

#[test]
fn delay_timer_round_trip() {
    let machine = run(&[0x61, 0x2C, 0xF1, 0x15, 0xF2, 0x07], 3);
    assert_eq!(machine.delay_timer(), 0x2C);
    assert_eq!(machine.registers()[2], 0x2C);
    assert_eq!(machine.sound_timer(), 0);
    assert_eq!(machine.pc(), 0x206);
}

#[test]
fn sound_timer_is_set_from_register() {
    let machine = run(&[0x61, 0x03, 0xF1, 0x18], 2);
    assert_eq!(machine.sound_timer(), 3);
    assert_eq!(machine.delay_timer(), 0);
    assert!(machine.sound_active());
}

#[test]
fn wait_for_key_advances_at_once() {
    let machine = run(&[0xF9, 0x0A], 1);
    assert!(machine.awaiting_key());
    assert_eq!(machine.key_target(), 9);
    assert_eq!(machine.pc(), 0x202);
}

#[test]
fn add_to_index_sets_flag_on_overflow() {
    let machine = run(&[0xA1, 0x00, 0x61, 0x20, 0xF1, 0x1E], 3);
    assert_eq!(machine.index(), 0x120);
    assert_eq!(machine.registers()[15], 0);
    assert_eq!(machine.pc(), 0x206);
}

#[test]
fn add_to_index_wraps_at_sixteen_bits() {
    // I climbs in steps of 255 from 0xFFF until it passes 0xFFFF.
    // 0x200: I = FFF; 0x202: V1 = FF; 0x204: I += V1; 0x206: jump 0x204
    let mut machine = run(&[0xAF, 0xFF, 0x61, 0xFF, 0xF1, 0x1E, 0x12, 0x04], 2);
    let mut expected: u32 = 0xFFF;
    loop {
        machine.step_with(0).unwrap();
        expected += 255;
        if expected > 0xFFFF {
            break;
        }
        assert_eq!(machine.index() as u32, expected);
        assert_eq!(machine.registers()[15], 0);
        machine.step_with(0).unwrap();
    }
    assert_eq!(machine.index() as u32, expected - 0x10000);
    assert_eq!(machine.registers()[15], 1);
}

#[test]
fn font_address_points_at_glyph() {
    for digit in 0..16u8 {
        let machine = run(&[0x64, digit, 0xF4, 0x29], 2);
        let at = machine.index() as usize;
        assert_eq!(at, digit as usize * 5);
        assert_eq!(&machine.memory()[at..at + 5], &FONT[at..at + 5]);
    }
    let machine = run(&[0x64, 0x0A, 0xF4, 0x29], 2);
    let at = machine.index() as usize;
    assert_eq!(&machine.memory()[at..at + 5], &[0xF0, 0x90, 0xF0, 0x90, 0x90]);
    assert_eq!(run(&[0x64, 0xFF, 0xF4, 0x29], 2).index(), 1275);
}

#[test]
fn store_bcd_writes_three_digits() {
    let machine = run(&[0x61, 234, 0xA3, 0x00, 0xF1, 0x33], 3);
    assert_eq!(&machine.memory()[0x300..0x303], &[2, 3, 4]);
    assert_eq!(machine.index(), 0x300);
    assert_eq!(machine.pc(), 0x206);
    let machine = run(&[0x61, 7, 0xA3, 0x00, 0xF1, 0x33], 3);
    assert_eq!(&machine.memory()[0x300..0x303], &[0, 0, 7]);
    let machine = run(&[0x61, 255, 0xA3, 0x00, 0xF1, 0x33], 3);
    assert_eq!(&machine.memory()[0x300..0x304], &[2, 5, 5, 0]);
    let machine = run(&[0x61, 100, 0xAF, 0xFD, 0xF1, 0x33], 3);
    assert_eq!(&machine.memory()[0xFFD..], &[1, 0, 0]);
}

#[test]
fn register_dump_copies_v0_to_vx_and_moves_index() {
    let machine = run(&[0x60, 0x11, 0x61, 0x22, 0x62, 0x33, 0x63, 0x44, 0xA3, 0x00, 0xF2, 0x55], 6);
    assert_eq!(&machine.memory()[0x300..0x304], &[0x11, 0x22, 0x33, 0x00]);
    assert_eq!(machine.index(), 0x303);
    assert_eq!(machine.pc(), 0x20C);
    assert_eq!(&machine.registers()[..4], &[0x11, 0x22, 0x33, 0x44]);
}

#[test]
fn register_load_fills_v0_to_vx_and_moves_index() {
    let machine = run(&[0x63, 0x44, 0xA2, 0x08, 0xF2, 0x65, 0x00, 0x00, 0xAA, 0xBB, 0xCC, 0xDD], 3);
    assert_eq!(&machine.registers()[..4], &[0xAA, 0xBB, 0xCC, 0x44]);
    assert_eq!(machine.index(), 0x20B);
    assert_eq!(machine.pc(), 0x206);
}

#[test]
fn register_dump_then_load_round_trips() {
    for x in 0..16u8 {
        let mut program: Vec<u8> = Vec::new();
        for r in 0..16u8 {
            program.extend_from_slice(&[0x60 | r, 0xA0 + r]);
        }
        program.extend_from_slice(&[0xA4, 0x00, 0xF0 | x, 0x55]);
        for r in 0..16u8 {
            program.extend_from_slice(&[0x60 | r, 0x00]);
        }
        program.extend_from_slice(&[0xA4, 0x00, 0xF0 | x, 0x65]);
        let dumped = run(&program, 18);
        assert_eq!(dumped.index(), 0x400 + x as u16 + 1);
        let loaded = run(&program, 18 + 16 + 2);
        assert_eq!(loaded.index(), 0x400 + x as u16 + 1);
        for r in 0..16u8 {
            let expected = if r <= x { 0xA0 + r } else { 0 };
            assert_eq!(loaded.registers()[r as usize], expected);
        }
    }
}

#[test]
fn register_dump_reaches_last_byte_of_memory() {
    let machine = run(&[0x60, 0x5A, 0x61, 0xA5, 0xAF, 0xFE, 0xF1, 0x55], 4);
    assert_eq!(&machine.memory()[0xFFE..], &[0x5A, 0xA5]);
    assert_eq!(machine.index(), 0x1000);
}
