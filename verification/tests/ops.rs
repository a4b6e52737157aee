use lc3_vm::opcode::{
    op_add, op_and, op_branch, op_jsr, op_jump, op_ldi, op_ldr, op_lea, op_load, op_not, op_st,
    op_sti, op_str,
};
use lc3_vm::CondFlags;
use lc3_vm::MEMORY_SIZE;

const PC: usize = 8;
const COND: usize = 9;

fn zero_regs() -> Vec<u16> {
    vec![0u16; 10]
}

fn zero_mem() -> Vec<u16> {
    vec![0u16; MEMORY_SIZE]
}

#[test]
fn add_immediate_minus_one() {
    // ADD R0, R1, #-1 with R1 = 5
    let mut reg = zero_regs();
    reg[1] = 5;
    op_add(&mut reg, 0x107F);
    assert_eq!(reg[0], 4);
    assert_eq!(reg[COND], CondFlags::FL_POS.as_u16());
}

#[test]
fn add_register_wraparound() {
    // ADD R0, R1, R2 with R1 = 0xFFFF, R2 = 1
    let mut reg = zero_regs();
    reg[1] = 0xFFFF;
    reg[2] = 1;
    op_add(&mut reg, 0x1042);
    assert_eq!(reg[0], 0x0000);
    assert_eq!(reg[COND], CondFlags::FL_ZRO.as_u16());
}

#[test]
fn and_register_and_immediate() {
    // AND R0, R1, R2
    let mut reg = zero_regs();
    reg[1] = 0xF0F0;
    reg[2] = 0x0FF0;
    op_and(&mut reg, 0x5042);
    assert_eq!(reg[0], 0x00F0);
    assert_eq!(reg[COND], CondFlags::FL_POS.as_u16());

    // AND R0, R1, #0 clears
    op_and(&mut reg, 0x5060);
    assert_eq!(reg[0], 0);
    assert_eq!(reg[COND], CondFlags::FL_ZRO.as_u16());
}

#[test]
fn not_complements_and_sets_flag() {
    // NOT R0, R1 with R1 = 0x00FF
    let mut reg = zero_regs();
    reg[1] = 0x00FF;
    op_not(&mut reg, 0x9040);
    assert_eq!(reg[0], 0xFF00);
    assert_eq!(reg[COND], CondFlags::FL_NEG.as_u16());
}

#[test]
fn branch_taken_and_not_taken() {
    // BRz #5 with ZERO set: taken
    let mut reg = zero_regs();
    reg[PC] = 0x3001;
    reg[COND] = CondFlags::FL_ZRO.as_u16();
    op_branch(&mut reg, 0x0405);
    assert_eq!(reg[PC], 0x3006);

    // BRp #5 with ZERO set: not taken
    let mut reg = zero_regs();
    reg[PC] = 0x3001;
    reg[COND] = CondFlags::FL_ZRO.as_u16();
    op_branch(&mut reg, 0x0205);
    assert_eq!(reg[PC], 0x3001);
}

#[test]
fn branch_backwards() {
    // BRnzp #-2: offset9 = 0x1FE
    let mut reg = zero_regs();
    reg[PC] = 0x3001;
    reg[COND] = CondFlags::FL_POS.as_u16();
    op_branch(&mut reg, 0x0FFE);
    assert_eq!(reg[PC], 0x2FFF);
}

#[test]
fn jump_sets_pc_from_base() {
    // JMP R3
    let mut reg = zero_regs();
    reg[3] = 0x4242;
    reg[PC] = 0x3001;
    op_jump(&mut reg, 0xC0C0);
    assert_eq!(reg[PC], 0x4242);
}

#[test]
fn jsr_long_saves_return_and_offsets_pc() {
    // JSR #16
    let mut reg = zero_regs();
    reg[PC] = 0x3001;
    op_jsr(&mut reg, 0x4810);
    assert_eq!(reg[7], 0x3001);
    assert_eq!(reg[PC], 0x3011);
}

#[test]
fn jsrr_jumps_through_base() {
    // JSRR R2
    let mut reg = zero_regs();
    reg[2] = 0x5000;
    reg[PC] = 0x3001;
    op_jsr(&mut reg, 0x4080);
    assert_eq!(reg[7], 0x3001);
    assert_eq!(reg[PC], 0x5000);
}

#[test]
fn jsrr_through_r7_uses_saved_return_address() {
    // JSRR R7: the base is read after R7 received the return address
    let mut reg = zero_regs();
    reg[7] = 0x1111;
    reg[PC] = 0x3001;
    op_jsr(&mut reg, 0x41C0);
    assert_eq!(reg[7], 0x3001);
    assert_eq!(reg[PC], 0x3001);
}

#[test]
fn load_pc_relative() {
    // LD R0, #2 with PC = 0x3001
    let mut reg = zero_regs();
    let mut mem = zero_mem();
    reg[PC] = 0x3001;
    mem[0x3003] = 0x8001;
    op_load(&mut reg, 0x2002, &mut mem);
    assert_eq!(reg[0], 0x8001);
    assert_eq!(reg[COND], CondFlags::FL_NEG.as_u16());
}

#[test]
fn load_indirect_double_indirection() {
    // LDI R0, #1 with PC = 0x3001
    let mut reg = zero_regs();
    let mut mem = zero_mem();
    reg[PC] = 0x3001;
    mem[0x3002] = 0x4000;
    mem[0x4000] = 42;
    op_ldi(&mut reg, 0xA001, &mut mem);
    assert_eq!(reg[0], 42);
    assert_eq!(reg[COND], CondFlags::FL_POS.as_u16());
}

#[test]
fn load_register_with_negative_offset() {
    // LDR R0, R1, #-1 with R1 = 0x4000
    let mut reg = zero_regs();
    let mut mem = zero_mem();
    reg[1] = 0x4000;
    mem[0x3FFF] = 7;
    op_ldr(&mut reg, 0x607F, &mut mem);
    assert_eq!(reg[0], 7);
    assert_eq!(reg[COND], CondFlags::FL_POS.as_u16());
}

#[test]
fn lea_loads_address_and_sets_flag() {
    // LEA R0, #3 with PC = 0x3001
    let mut reg = zero_regs();
    reg[PC] = 0x3001;
    op_lea(&mut reg, 0xE003);
    assert_eq!(reg[0], 0x3004);
    assert_eq!(reg[COND], CondFlags::FL_POS.as_u16());
}

#[test]
fn store_pc_relative() {
    // ST R4, #1 with PC = 0x3001
    let mut reg = zero_regs();
    let mut mem = zero_mem();
    reg[4] = 0xCAFE;
    reg[PC] = 0x3001;
    op_st(&mut reg, 0x3801, &mut mem);
    assert_eq!(mem[0x3002], 0xCAFE);
    assert_eq!(reg[COND], 0, "a store never touches the condition code");
}

#[test]
fn store_indirect() {
    // STI R4, #1 with PC = 0x3001
    let mut reg = zero_regs();
    let mut mem = zero_mem();
    reg[4] = 0xCAFE;
    reg[PC] = 0x3001;
    mem[0x3002] = 0x5000;
    op_sti(&mut reg, 0xB801, &mut mem);
    assert_eq!(mem[0x5000], 0xCAFE);
}

#[test]
fn store_register_based() {
    // STR R4, R1, #2 with R1 = 0x6000
    let mut reg = zero_regs();
    let mut mem = zero_mem();
    reg[4] = 0xCAFE;
    reg[1] = 0x6000;
    op_str(&mut reg, 0x7842, &mut mem);
    assert_eq!(mem[0x6002], 0xCAFE);
}
