use lc3_vm::trapcode::{trap_getc, trap_in, trap_out, trap_puts, trap_putsp};
use lc3_vm::MEMORY_SIZE;

fn zero_regs() -> Vec<u16> {
    vec![0u16; 10]
}

fn zero_mem() -> Vec<u16> {
    vec![0u16; MEMORY_SIZE]
}

#[test]
fn getc_stores_key_in_r0_without_flags() {
    let mut reg = zero_regs();
    reg[9] = 1;
    trap_getc(&mut reg, b'x');
    assert_eq!(reg[0], b'x' as u16);
    assert_eq!(reg[9], 1, "GETC never touches the condition code");
}

#[test]
fn in_stores_key_in_r0() {
    let mut reg = zero_regs();
    trap_in(&mut reg, b'y');
    assert_eq!(reg[0], b'y' as u16);
}

#[test]
fn out_is_low_byte_of_r0() {
    let mut reg = zero_regs();
    reg[0] = 0x1241;
    assert_eq!(trap_out(&reg), 0x41);
}

#[test]
fn puts_writes_until_zero_word() {
    let mut reg = zero_regs();
    let mut mem = zero_mem();
    reg[0] = 0x5000;
    mem[0x5000] = 72;
    mem[0x5001] = 105;
    mem[0x5002] = 0;
    mem[0x5003] = 33;
    let out = trap_puts(&reg, &mem);
    assert_eq!(out, b"Hi".to_vec());
}

#[test]
fn puts_takes_only_the_low_byte_of_each_word() {
    let mut reg = zero_regs();
    let mut mem = zero_mem();
    reg[0] = 0x5000;
    mem[0x5000] = 0xFF41;
    let out = trap_puts(&reg, &mem);
    assert_eq!(out, vec![0x41]);
}

#[test]
fn puts_empty_string() {
    let mut reg = zero_regs();
    let mem = zero_mem();
    reg[0] = 0x5000;
    assert!(trap_puts(&reg, &mem).is_empty());
}

#[test]
fn puts_stops_at_the_edge_of_memory() {
    let mut reg = zero_regs();
    let mut mem = zero_mem();
    reg[0] = 0xFFFF;
    mem[0xFFFF] = 72;
    let out = trap_puts(&reg, &mem);
    assert_eq!(out, vec![72]);
}

#[test]
fn putsp_packs_two_characters_per_word() {
    let mut reg = zero_regs();
    let mut mem = zero_mem();
    reg[0] = 0x5000;
    mem[0x5000] = 0x6261;
    let out = trap_putsp(&reg, &mem);
    assert_eq!(out, b"ab".to_vec());
}

#[test]
fn putsp_zero_high_byte_gives_one_character() {
    let mut reg = zero_regs();
    let mut mem = zero_mem();
    reg[0] = 0x5000;
    mem[0x5000] = 0x0041;
    mem[0x5001] = 0x6463;
    let out = trap_putsp(&reg, &mem);
    assert_eq!(out, vec![0x41, 0x63, 0x64]);
}
