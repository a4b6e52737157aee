use lc3_vm::machine::{step, Machine, Mode, Step, VmError, PC_START};
use lc3_vm::read_image;

/// A fresh machine with the given words loaded at the default start address.
fn machine_with(words: &[u16]) -> Machine {
    let mut m = Machine::new();
    let mut data: Vec<u8> = vec![0x30, 0x00];
    for w in words {
        data.push((w >> 8) as u8);
        data.push((w & 0xFF) as u8);
    }
    assert!(read_image(&data, &mut m.mem));
    m
}

/// Step until something other than plain progress comes back.
fn run_until_event(m: &mut Machine) -> Step {
    loop {
        match step(m) {
            Step::Working => continue,
            other => return other,
        }
    }
}

#[test]
fn halt_program_stops_on_first_cycle() {
    let mut m = machine_with(&[0xF025]);
    assert_eq!(m.reg[8], PC_START);

    let s1 = step(&mut m);
    assert_eq!(s1, Step::Working);
    assert_eq!(m.mode, Mode::Execute(0xF025));
    assert_eq!(m.reg[8], 0x3001);

    let s2 = step(&mut m);
    assert_eq!(s2, Step::Halted);
    assert_eq!(m.mode, Mode::Halted);
    for r in 0..8 {
        assert_eq!(m.reg[r], 0, "R{r} was touched by HALT");
    }
    assert_eq!(m.reg[9], 0);

    // A halted machine stays halted.
    assert_eq!(step(&mut m), Step::Halted);
}

#[test]
fn reserved_opcode_is_fatal_with_code_10() {
    let mut m = machine_with(&[0xD000]);
    let s = run_until_event(&mut m);
    assert_eq!(s, Step::Fatal(VmError::ReservedOpcode));
    assert_eq!(VmError::ReservedOpcode.exit_code(), 10);
    assert_eq!(m.mode, Mode::Halted);
}

#[test]
fn rti_opcode_is_fatal_with_code_10() {
    let mut m = machine_with(&[0x8000]);
    let s = run_until_event(&mut m);
    assert_eq!(s, Step::Fatal(VmError::ReservedOpcode));
}

#[test]
fn undefined_trap_is_fatal_with_code_21() {
    let mut m = machine_with(&[0xF0FF]);
    let s = run_until_event(&mut m);
    assert_eq!(s, Step::Fatal(VmError::UndefinedTrap));
    assert_eq!(VmError::UndefinedTrap.exit_code(), 21);
}

#[test]
fn exit_codes_of_the_fatal_conditions() {
    assert_eq!(VmError::ReservedOpcode.exit_code(), 10);
    assert_eq!(VmError::UndefinedOpcode.exit_code(), 20);
    assert_eq!(VmError::UndefinedTrap.exit_code(), 21);
}

#[test]
fn getc_waits_for_a_key_and_stores_it() {
    let mut m = machine_with(&[0xF020]);
    let s = run_until_event(&mut m);
    assert_eq!(s, Step::NeedKey);
    m.provide_key(b'A');
    assert_eq!(step(&mut m), Step::Working);
    assert_eq!(m.reg[0], b'A' as u16);
    assert_eq!(m.mode, Mode::Fetch);
    assert_eq!(m.key, None);
}

#[test]
fn in_trap_asks_with_prompt() {
    let mut m = machine_with(&[0xF023]);
    let s = run_until_event(&mut m);
    assert_eq!(s, Step::NeedKeyPrompted);
    m.provide_key(b'B');
    assert_eq!(step(&mut m), Step::Working);
    assert_eq!(m.reg[0], b'B' as u16);
}

#[test]
fn out_trap_emits_low_byte_of_r0() {
    let mut m = machine_with(&[0xF021]);
    m.reg[0] = 0x0158;
    let s = run_until_event(&mut m);
    assert_eq!(s, Step::Output(vec![0x58]));
    assert_eq!(m.mode, Mode::Fetch);
}

#[test]
fn puts_trap_emits_the_string_at_r0() {
    let mut m = machine_with(&[0xF022]);
    m.reg[0] = 0x5000;
    m.mem[0x5000] = 72;
    m.mem[0x5001] = 105;
    let s = run_until_event(&mut m);
    assert_eq!(s, Step::Output(b"Hi".to_vec()));
}

#[test]
fn putsp_trap_emits_packed_characters() {
    let mut m = machine_with(&[0xF024]);
    m.reg[0] = 0x5000;
    m.mem[0x5000] = 0x6261;
    let s = run_until_event(&mut m);
    assert_eq!(s, Step::Output(b"ab".to_vec()));
}

#[test]
fn load_from_keyboard_status_polls_the_console() {
    // LDR R0, R1, #0 with R1 at the keyboard status register
    let mut m = machine_with(&[0x6040]);
    m.reg[1] = 0xFE00;

    let s = run_until_event(&mut m);
    assert_eq!(s, Step::NeedKey);
    m.provide_key(7);
    assert_eq!(step(&mut m), Step::Working);
    assert_eq!(m.reg[0], 0x8000, "the status word says a key is ready");
    assert_eq!(m.mem[0xFE00], 0x8000);
    assert_eq!(m.mem[0xFE02], 7);
    assert_eq!(m.key, None);
}

#[test]
fn poll_with_zero_byte_reports_no_key() {
    let mut m = machine_with(&[0x6040]);
    m.reg[1] = 0xFE00;
    assert_eq!(run_until_event(&mut m), Step::NeedKey);
    m.provide_key(0);
    assert_eq!(step(&mut m), Step::Working);
    assert_eq!(m.reg[0], 0);
    assert_eq!(m.mem[0xFE00], 0);
}

#[test]
fn ldi_second_read_can_poll_too() {
    // LDI R0, #0: the word after the instruction holds the status address
    let mut m = machine_with(&[0xA000, 0xFE00]);

    assert_eq!(step(&mut m), Step::Working); // fetch
    assert_eq!(step(&mut m), Step::Working); // first read
    assert_eq!(m.mode, Mode::LdiSecond(0, 0xFE00));
    assert_eq!(step(&mut m), Step::NeedKey); // second read stalls
    m.provide_key(9);
    assert_eq!(step(&mut m), Step::Working);
    assert_eq!(m.reg[0], 0x8000);
    assert_eq!(m.mem[0xFE02], 9);
}

#[test]
fn fetch_at_keyboard_status_register_polls() {
    let mut m = Machine::new();
    m.reg[8] = 0xFE00;
    assert_eq!(step(&mut m), Step::NeedKey);
    m.provide_key(0x42);
    // The poll stores the ready bit at 0xFE00, so the fetched instruction
    // is 0x8000 — the return-from-interrupt encoding, which is fatal.
    assert_eq!(step(&mut m), Step::Working);
    assert_eq!(m.mode, Mode::Execute(0x8000));
    assert_eq!(run_until_event(&mut m), Step::Fatal(VmError::ReservedOpcode));
}

#[test]
fn add_program_through_the_cycle() {
    // LEA R1, #1; ADD R0, R1, #-1; TRAP HALT
    let mut m = machine_with(&[0xE201, 0x107F, 0xF025]);
    let s = run_until_event(&mut m);
    assert_eq!(s, Step::Halted);
    assert_eq!(m.reg[1], 0x3002);
    assert_eq!(m.reg[0], 0x3001);
}

#[test]
fn store_program_through_the_cycle() {
    // LEA R4, #-1 (R4 = 0x3000); STR R4, R4, #4; TRAP HALT
    let mut m = machine_with(&[0xE9FF, 0x7904, 0xF025]);
    let s = run_until_event(&mut m);
    assert_eq!(s, Step::Halted);
    assert_eq!(m.reg[4], 0x3000);
    assert_eq!(m.mem[0x3004], 0x3000);
}
