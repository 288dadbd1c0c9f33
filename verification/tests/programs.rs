//! Whole programs run through the interpreter, the timing driver's
//! decisions, and the host-facing helpers.

use emu8080::emulate8080::{
    emulate8080_op, poll_interrupt, screen_rgba, step_once, step_supported, FrameTimer,
    CYCLES_PER_FRAME,
};
use emu8080::i8080::State;

fn load_program(bytes: &[u8]) -> State {
    let mut mem = vec![0u8; 0x10000];
    mem[..bytes.len()].copy_from_slice(bytes);
    State::new(mem, false)
}

fn run_to_halt(state: &mut State) {
    let mut fuel = 100_000;
    while !state.should_exit {
        assert!(step_supported(state));
        emulate8080_op(state);
        fuel -= 1;
        assert!(fuel > 0, "program did not halt");
    }
}

#[test]
fn immediate_add_program() {
    // MVI A,0x05; ADI 0x03; HLT
    let mut s = load_program(&[0x3e, 0x05, 0xc6, 0x03, 0x76]);
    run_to_halt(&mut s);
    assert_eq!(s.reg_a, 0x08);
    assert!(!s.flags.zero);
    assert!(!s.flags.carry);
    // 0x08 has one set bit, so the parity-even flag is clear
    assert!(!s.flags.parity);
}

#[test]
fn increment_wraps_program() {
    // MVI B,0xFF; INR B; HLT
    let mut s = load_program(&[0x06, 0xff, 0x04, 0x76]);
    run_to_halt(&mut s);
    assert_eq!(s.reg_b, 0x00);
    assert!(s.flags.zero);
    assert!(s.flags.parity);
    assert!(s.flags.auxiliary_carry);
}

#[test]
fn store_hl_direct_program() {
    // LXI H,0x1234; SHLD 0x2000; HLT
    let mut s = load_program(&[0x21, 0x34, 0x12, 0x22, 0x00, 0x20, 0x76]);
    run_to_halt(&mut s);
    assert_eq!(s.memory[0x2000], 0x34);
    assert_eq!(s.memory[0x2001], 0x12);
}

#[test]
fn push_pop_program() {
    // LXI B,0x1234; PUSH B; POP H; HLT
    let mut s = load_program(&[0x01, 0x34, 0x12, 0xc5, 0xe1, 0x76]);
    s.stack_pointer = 0xfffe;
    run_to_halt(&mut s);
    assert_eq!(s.reg_h, 0x12);
    assert_eq!(s.reg_l, 0x34);
    assert_eq!(s.stack_pointer, 0xfffe);
}

#[test]
fn compare_immediate_program() {
    // MVI A,0x3C; CPI 0x3C; HLT
    let mut s = load_program(&[0x3e, 0x3c, 0xfe, 0x3c, 0x76]);
    run_to_halt(&mut s);
    assert!(s.flags.zero);
    assert!(!s.flags.carry);
    assert_eq!(s.reg_a, 0x3c);
}

#[test]
fn double_add_hl_program() {
    // LXI H,0xFFFF; DAD H; HLT
    let mut s = load_program(&[0x21, 0xff, 0xff, 0x29, 0x76]);
    run_to_halt(&mut s);
    assert_eq!((s.reg_h, s.reg_l), (0xff, 0xfe));
    assert!(s.flags.carry);

    // LXI H,0xFFFF; INX B; DAD B; HLT, with BC ending up 0x0001
    let mut s = load_program(&[0x21, 0xff, 0xff, 0x03, 0x09, 0x76]);
    run_to_halt(&mut s);
    assert_eq!((s.reg_h, s.reg_l), (0x00, 0x00));
    assert!(s.flags.carry);
}

#[test]
fn nop_aliases_advance_one_byte() {
    let mut s = load_program(&[0x08, 0x10, 0x76]);
    assert!(step_supported(&s));
    assert_eq!(emulate8080_op(&mut s), 1);
    assert_eq!(s.program_counter, 1);
    assert_eq!(emulate8080_op(&mut s), 1);
    assert_eq!(s.program_counter, 2);
    assert_eq!(emulate8080_op(&mut s), 7);
    assert!(s.should_exit);
}

#[test]
fn jump_program_loops_until_zero() {
    // MVI B,3; DCR B; JNZ 0x0002; HLT
    let mut s = load_program(&[0x06, 0x03, 0x05, 0xc2, 0x02, 0x00, 0x76]);
    run_to_halt(&mut s);
    assert_eq!(s.reg_b, 0);
    assert!(s.flags.zero);
}

#[test]
fn frame_timer_alternates_vectors() {
    let mut s = load_program(&[0xfb, 0x76]);
    s.stack_pointer = 0x2400;
    // EI
    assert_eq!(emulate8080_op(&mut s), 4);
    let mut timer = FrameTimer::new();
    timer.cycles_since_interrupt = CYCLES_PER_FRAME / 2 + 1;
    poll_interrupt(&mut s, &mut timer);
    // mid-screen vector first
    assert_eq!(s.program_counter, 0x08);
    assert_eq!(timer.cycles_since_interrupt, 0);
    assert!(timer.end_of_frame_next);
    // below the threshold nothing happens
    poll_interrupt(&mut s, &mut timer);
    assert_eq!(s.program_counter, 0x08);
    // once over it again, the end-of-frame vector follows after EI
    s.memory[0x08] = 0xfb; // EI
    s.memory[0x09] = 0x76;
    emulate8080_op(&mut s);
    timer.cycles_since_interrupt = CYCLES_PER_FRAME / 2 + 1;
    poll_interrupt(&mut s, &mut timer);
    assert_eq!(s.program_counter, 0x10);
    assert!(!timer.end_of_frame_next);
}

#[test]
fn step_once_counts_cycles_and_honours_stepping() {
    let mut s = load_program(&[0x00, 0x3e, 0x05, 0x76]);
    let mut timer = FrameTimer::new();
    // NOP costs 1, MVI costs 7
    assert_eq!(step_once(&mut s, &mut timer), 1);
    assert_eq!(step_once(&mut s, &mut timer), 7);
    assert_eq!(timer.cycles_since_interrupt, 8);
    // stepping with no granted step idles
    s.enable_stepping = true;
    s.step_count = 0;
    assert_eq!(step_once(&mut s, &mut timer), 0);
    assert_eq!(s.program_counter, 3);
    // one granted step runs one instruction and consumes the grant
    s.step_count = 1;
    assert_eq!(step_once(&mut s, &mut timer), 7);
    assert!(s.should_exit);
    assert_eq!(s.step_count, 0);
}

#[test]
fn step_supported_rejects_unmapped_ports() {
    // OUT 0x07 is outside the Space Invaders map
    let s = load_program(&[0xd3, 0x07]);
    assert!(!step_supported(&s));
    let s = load_program(&[0xd3, 0x06]);
    assert!(step_supported(&s));
    // IN beyond the eight ports
    let s = load_program(&[0xdb, 0x08]);
    assert!(!step_supported(&s));
    let s = load_program(&[0xdb, 0x07]);
    assert!(step_supported(&s));
}

#[test]
fn screen_expands_bits_to_rgba() {
    let mut s = load_program(&[0x76]);
    s.memory[0x2400] = 0b0000_0101;
    let v = screen_rgba(&s);
    assert_eq!(v.len(), 256 * 224 * 4);
    // bit 0 set: white pixel
    assert_eq!(&v[0..4], &[0xff, 0xff, 0xff, 0xff]);
    // bit 1 clear: black pixel, opaque alpha
    assert_eq!(&v[4..8], &[0x00, 0x00, 0x00, 0xff]);
    // bit 2 set again
    assert_eq!(&v[8..12], &[0xff, 0xff, 0xff, 0xff]);
}

#[test]
fn test_print_output_reads_dollar_string() {
    let mut s = load_program(&[0x76]);
    s.program_counter = 5;
    s.reg_c = 9;
    s.reg_d = 0x20;
    s.reg_e = 0x00;
    s.memory[0x2000] = b'H';
    s.memory[0x2001] = b'I';
    s.memory[0x2002] = b'$';
    assert_eq!(s.test_print_output(), Some(vec![b'H', b'I']));

    s.reg_c = 2;
    s.reg_e = b'X';
    assert_eq!(s.test_print_output(), Some(vec![b'X']));

    s.reg_c = 1;
    assert_eq!(s.test_print_output(), None);

    s.program_counter = 6;
    s.reg_c = 9;
    assert_eq!(s.test_print_output(), None);
}

#[test]
fn prepare_test_boot_slides_the_image_up() {
    let mut mem = vec![0u8; 0x10000];
    mem[0] = 0xaa;
    mem[1] = 0xbb;
    let mut s = State::new(mem, true);
    s.prepare_test_boot();
    // the image now starts at 0x100
    assert_eq!(s.memory[0x100], 0xaa);
    assert_eq!(s.memory[0x101], 0xbb);
    // the boot jump and the BDOS return are patched in
    assert_eq!(&s.memory[0..3], &[0xc3, 0x00, 0x01]);
    assert_eq!(s.memory[0x05], 0xc9);
    assert_eq!(s.memory[0x170], 0x07);
}

#[test]
fn halt_requests_exit_and_keeps_pc() {
    let mut s = load_program(&[0x76]);
    let c = s.hlt_halt();
    assert!(s.should_exit);
    assert_eq!(c, 7);
    assert_eq!(s.program_counter, 0);
}
