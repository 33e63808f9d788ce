use chip8::fault::Fault;
use chip8::machine::Machine;

fn start(program: &[u8], cycles: usize) -> Machine {
    let mut machine = Machine::reset();
    machine.load(program).unwrap();
    for _ in 0..cycles {
        machine.step_with(0).unwrap();
    }
    machine
}

fn faults_with(mut machine: Machine, fault: Fault) {
    let before = machine;
    assert_eq!(machine.step_with(0), Err(fault));
    assert_eq!(machine, before);
    assert_eq!(machine.step(), Err(fault));
    assert_eq!(machine, before);
    assert_eq!(machine.step_with(0x77), Err(fault));
    assert_eq!(machine, before);
}

#[test]
fn unknown_alu_selector_is_a_fault() {
    for selector in [0x8u8, 0x9, 0xA, 0xB, 0xC, 0xD, 0xF] {
        let low = 0x20 | selector;
        let machine = start(&[0x61, 0x01, 0x81, low], 1);
        faults_with(machine, Fault::UnknownOpcode { opcode: 0x8100 | low as u16, pc: 0x202 });
    }
}

#[test]
fn unknown_key_selector_is_a_fault() {
    faults_with(start(&[0xE0, 0x00], 0), Fault::UnknownOpcode { opcode: 0xE000, pc: 0x200 });
    faults_with(start(&[0xE1, 0x9F], 0), Fault::UnknownOpcode { opcode: 0xE19F, pc: 0x200 });
    faults_with(start(&[0xE1, 0xA0], 0), Fault::UnknownOpcode { opcode: 0xE1A0, pc: 0x200 });
}

#[test]
fn unknown_misc_selector_is_a_fault() {
    faults_with(start(&[0xF0, 0x00], 0), Fault::UnknownOpcode { opcode: 0xF000, pc: 0x200 });
    faults_with(start(&[0xF3, 0xFF], 0), Fault::UnknownOpcode { opcode: 0xF3FF, pc: 0x200 });
    faults_with(start(&[0xF3, 0x56], 0), Fault::UnknownOpcode { opcode: 0xF356, pc: 0x200 });
}

#[test]
fn return_on_empty_stack_is_underflow() {
    faults_with(start(&[0x00, 0xEE], 0), Fault::StackUnderflow { pc: 0x200 });
    // After a call and its return the stack is empty again.
    let machine = start(&[0x22, 0x04, 0x00, 0xEE, 0x00, 0xEE], 2);
    assert_eq!(machine.pc(), 0x202);
    faults_with(machine, Fault::StackUnderflow { pc: 0x202 });
}

#[test]
fn seventeenth_nested_call_is_overflow() {
    // A subroutine that calls itself.
    let mut machine = start(&[0x22, 0x00], 0);
    for depth in 0..16 {
        assert_eq!(machine.stack_pointer(), depth);
        assert_eq!(machine.step_with(0), Ok(()));
    }
    assert_eq!(machine.stack_pointer(), 16);
    assert_eq!(machine.stack(), &[0x200u16; 16]);
    faults_with(machine, Fault::StackOverflow { pc: 0x200 });
}

#[test]
fn full_stack_unwinds_completely() {
    // 0x200: call 0x200 sixteen times, then memory is patched to a return.
    let mut machine = start(&[0x22, 0x00], 16);
    machine.load(&[0x00, 0xEE, 0x00, 0xEE]).unwrap();
    machine.step_with(0).unwrap();
    assert_eq!(machine.stack_pointer(), 15);
    assert_eq!(machine.pc(), 0x202);
    for left in (0..15).rev() {
        machine.step_with(0).unwrap();
        assert_eq!(machine.stack_pointer(), left);
        assert_eq!(machine.pc(), 0x202);
    }
    faults_with(machine, Fault::StackUnderflow { pc: 0x202 });
}

#[test]
fn fetch_past_end_of_memory_is_a_fault() {
    let machine = start(&[0x1F, 0xFF], 1);
    assert_eq!(machine.pc(), 0xFFF);
    assert_eq!(machine.fetch(), Err(Fault::FetchOutOfRange { pc: 0xFFF }));
    faults_with(machine, Fault::FetchOutOfRange { pc: 0xFFF });
    let machine = start(&[0x60, 0xFF, 0xBF, 0xFF], 2);
    faults_with(machine, Fault::FetchOutOfRange { pc: 0x10FE });
}

#[test]
fn last_word_of_memory_can_be_fetched() {
    let mut image = vec![0u8; 3584];
    image[0] = 0x1F;
    image[1] = 0xFE;
    image[3582] = 0x6A;
    image[3583] = 0x55;
    let mut machine = start(&image, 1);
    assert_eq!(machine.fetch(), Ok(0x6A55));
    assert_eq!(machine.step_with(0), Ok(()));
    assert_eq!(machine.registers()[0xA], 0x55);
    assert_eq!(machine.pc(), 0x1000);
    faults_with(machine, Fault::FetchOutOfRange { pc: 0x1000 });
}

#[test]
fn bcd_past_end_of_memory_is_a_fault() {
    let machine = start(&[0xAF, 0xFE, 0xF1, 0x33], 1);
    faults_with(machine, Fault::AccessOutOfRange { pc: 0x202, index: 0xFFE });
}

#[test]
fn register_dump_past_end_of_memory_is_a_fault() {
    let machine = start(&[0xAF, 0xFF, 0xF1, 0x55], 1);
    faults_with(machine, Fault::AccessOutOfRange { pc: 0x202, index: 0xFFF });
    let machine = start(&[0xAF, 0xFF, 0xF0, 0x55], 2);
    assert_eq!(machine.index(), 0x1000);
    assert_eq!(machine.memory()[0xFFF], 0);
}

#[test]
fn register_load_past_end_of_memory_is_a_fault() {
    let machine = start(&[0xAF, 0xF1, 0xFF, 0x65], 1);
    faults_with(machine, Fault::AccessOutOfRange { pc: 0x202, index: 0xFF1 });
    let machine = start(&[0xAF, 0xF0, 0xFF, 0x65], 2);
    assert_eq!(machine.index(), 0x1000);
}

#[test]
fn index_beyond_memory_after_wrapping_add_is_a_fault() {
    // I = 0xFFF + 0xFF = 0x10FE lies past memory.
    let machine = start(&[0xAF, 0xFF, 0x61, 0xFF, 0xF1, 0x1E, 0xF0, 0x65], 3);
    assert_eq!(machine.index(), 0x10FE);
    faults_with(machine, Fault::AccessOutOfRange { pc: 0x206, index: 0x10FE });
}

#[test]
fn sprite_past_end_of_memory_is_a_fault() {
    let machine = start(&[0xAF, 0xFF, 0xD0, 0x02], 1);
    faults_with(machine, Fault::AccessOutOfRange { pc: 0x202, index: 0xFFF });
}

#[test]
fn sprite_rows_below_the_display_are_not_read() {
    // Two rows asked for at row 31: only the first is on the display, and it
    // is the last byte of memory.
    let mut machine = start(&[0x61, 0x1F, 0xAF, 0xFF, 0xD0, 0x12], 2);
    assert_eq!(machine.step_with(0), Ok(()));
    assert_eq!(machine.pc(), 0x206);
    // A sprite without rows reads nothing, wherever I points.
    let mut machine = start(&[0xAF, 0xFF, 0x61, 0xFF, 0xF1, 0x1E, 0xD0, 0x00], 3);
    assert_eq!(machine.index(), 0x10FE);
    assert_eq!(machine.step_with(0), Ok(()));
    assert_eq!(machine.registers()[15], 0);
    assert!(machine.redraw_requested());
}

#[test]
fn key_number_above_fifteen_is_a_fault() {
    let machine = start(&[0x61, 0x10, 0xE1, 0x9E], 1);
    faults_with(machine, Fault::KeyOutOfRange { pc: 0x202, key: 0x10 });
    let machine = start(&[0x61, 0xFF, 0xE1, 0xA1], 1);
    faults_with(machine, Fault::KeyOutOfRange { pc: 0x202, key: 0xFF });
}
