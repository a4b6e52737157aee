//! The sixteen instruction semantics. Every handler is specified against the
//! spec functions below, which state the new register file (and memory, for
//! the stores) as a function of the old state and the raw 16-bit instruction.
//!
//! All fields come from fixed bit positions; all offsets are sign-extended;
//! all address and value arithmetic wraps modulo 65536. PC-relative offsets
//! are taken from the already-incremented program counter. The handlers that
//! read memory take it plainly: the console poll a read of the keyboard
//! status address triggers is applied beforehand by the machine's step
//! function (see `crate::machine`).

use vstd::prelude::*;

use crate::flag_for;
use crate::mem_read;
use crate::mem_write;
use crate::register::COND_IDX;
use crate::register::NUM_REGS;
use crate::register::PC_IDX;
use crate::register::Reg;
use crate::sign_extend;
use crate::spec_sign_extend;
use crate::update_flags;
use crate::wadd;
use crate::MEMORY_SIZE;

verus! {

/// Destination (or, for the stores, source) register field, bits 11:9.
pub open spec fn field_dr(i: u16) -> int {
    ((i >> 9) & 0x7) as int
}

/// First source (or base) register field, bits 8:6.
pub open spec fn field_sr1(i: u16) -> int {
    ((i >> 6) & 0x7) as int
}

/// Second source register field, bits 2:0.
pub open spec fn field_sr2(i: u16) -> int {
    (i & 0x7) as int
}

/// Immediate-mode flag, bit 5.
pub open spec fn imm_mode(i: u16) -> bool {
    (i >> 5) & 1 == 1
}

/// The sign-extended 5-bit immediate, bits 4:0.
pub open spec fn imm5(i: u16) -> u16 {
    spec_sign_extend(i & 0x1F, 5)
}

/// The sign-extended 6-bit offset, bits 5:0.
pub open spec fn offset6(i: u16) -> u16 {
    spec_sign_extend(i & 0x3F, 6)
}

/// The sign-extended 9-bit offset, bits 8:0.
pub open spec fn offset9(i: u16) -> u16 {
    spec_sign_extend(i & 0x1FF, 9)
}

/// The sign-extended 11-bit offset, bits 10:0.
pub open spec fn offset11(i: u16) -> u16 {
    spec_sign_extend(i & 0x7FF, 11)
}

/// JSR's long flag, bit 11: offset form rather than base-register form.
pub open spec fn long_mode(i: u16) -> bool {
    (i >> 11) & 1 == 1
}

/// BR's condition mask, bits 11:9.
pub open spec fn cond_mask(i: u16) -> u16 {
    (i >> 9) & 0x7
}

/// Registers after `v` lands in destination slot `d` and the condition code
/// is recomputed from `v`'s sign — the inseparable pair of effects every
/// destination-register write has.
pub open spec fn with_dest(reg: Seq<u16>, d: int, v: u16) -> Seq<u16> {
    reg.update(d, v).update(COND_IDX as int, flag_for(v))
}

/// Extract the destination/source register field, bits 11:9.
pub(crate) fn dst(i: u16) -> (r: usize)
    ensures
        r as int == field_dr(i),
        r < 8,
{
    let d = (i >> 9) & 0x7;
    assert(d < 8) by (bit_vector)
        requires
            d == (i >> 9) & 0x7,
    ;
    d as usize
}

/// Extract the first source / base register field, bits 8:6.
pub(crate) fn src1(i: u16) -> (r: usize)
    ensures
        r as int == field_sr1(i),
        r < 8,
{
    let d = (i >> 6) & 0x7;
    assert(d < 8) by (bit_vector)
        requires
            d == (i >> 6) & 0x7,
    ;
    d as usize
}

/// Extract the second source register field, bits 2:0.
fn src2(i: u16) -> (r: usize)
    ensures
        r as int == field_sr2(i),
        r < 8,
{
    let d = i & 0x7;
    assert(d < 8) by (bit_vector)
        requires
            d == i & 0x7,
    ;
    d as usize
}

/// ADD: destination = source one plus (register or immediate) operand,
/// wrapping; condition code from the sum.
pub open spec fn spec_op_add(reg: Seq<u16>, i: u16) -> Seq<u16> {
    let v = if imm_mode(i) {
        wadd(reg[field_sr1(i)], imm5(i))
    } else {
        wadd(reg[field_sr1(i)], reg[field_sr2(i)])
    };
    with_dest(reg, field_dr(i), v)
}

pub fn op_add(reg: &mut Vec<u16>, instr: u16)
    requires
        old(reg).len() == NUM_REGS,
    ensures
        final(reg)@ == spec_op_add(old(reg)@, instr),
        final(reg)@.len() == old(reg)@.len(),
{
    let r0 = dst(instr);
    let r1 = src1(instr);
    let imm_flag = (instr >> 5) & 0x01;

    if imm_flag == 1 {
        let imm: u16 = sign_extend(instr & 0x1F, 5);
        let v = u16::wrapping_add(reg[r1], imm);
        reg.set(r0, v);
    } else {
        let r2 = src2(instr);
        let v = u16::wrapping_add(reg[r1], reg[r2]);
        reg.set(r0, v);
    }

    update_flags(r0, reg);
}

/// AND: destination = source one bitwise-and (register or immediate)
/// operand; condition code from the result.
pub open spec fn spec_op_and(reg: Seq<u16>, i: u16) -> Seq<u16> {
    let v = if imm_mode(i) {
        reg[field_sr1(i)] & imm5(i)
    } else {
        reg[field_sr1(i)] & reg[field_sr2(i)]
    };
    with_dest(reg, field_dr(i), v)
}

pub fn op_and(reg: &mut Vec<u16>, instr: u16)
    requires
        old(reg).len() == NUM_REGS,
    ensures
        final(reg)@ == spec_op_and(old(reg)@, instr),
        final(reg)@.len() == old(reg)@.len(),
{
    let r0 = dst(instr);
    let r1 = src1(instr);
    let imm_flag = (instr >> 5) & 0x01;

    if imm_flag == 1 {
        let imm: u16 = sign_extend(instr & 0x1F, 5);
        let v = reg[r1] & imm;
        reg.set(r0, v);
    } else {
        let r2 = src2(instr);
        let v = reg[r1] & reg[r2];
        reg.set(r0, v);
    }

    update_flags(r0, reg);
}

/// NOT: destination = bitwise complement of the source; condition code from
/// the result.
pub open spec fn spec_op_not(reg: Seq<u16>, i: u16) -> Seq<u16> {
    with_dest(reg, field_dr(i), !reg[field_sr1(i)])
}

pub fn op_not(reg: &mut Vec<u16>, instr: u16)
    requires
        old(reg).len() == NUM_REGS,
    ensures
        final(reg)@ == spec_op_not(old(reg)@, instr),
        final(reg)@.len() == old(reg)@.len(),
{
    let r0 = dst(instr);
    let r1 = src1(instr);

    let v = !reg[r1];
    reg.set(r0, v);
    update_flags(r0, reg);
}

/// BR: when the condition mask meets the current condition code, the PC
/// moves by the sign-extended 9-bit offset; otherwise nothing changes. The
/// condition code itself is never written.
pub open spec fn spec_op_branch(reg: Seq<u16>, i: u16) -> Seq<u16> {
    if cond_mask(i) & reg[COND_IDX as int] > 0 {
        reg.update(PC_IDX as int, wadd(reg[PC_IDX as int], offset9(i)))
    } else {
        reg
    }
}

pub fn op_branch(reg: &mut Vec<u16>, instr: u16)
    requires
        old(reg).len() == NUM_REGS,
    ensures
        final(reg)@ == spec_op_branch(old(reg)@, instr),
        final(reg)@.len() == old(reg)@.len(),
{
    let pc_offset: u16 = sign_extend(instr & 0x1FF, 9);
    let cond_flag: u16 = (instr >> 9) & 0x07;

    if cond_flag & reg[Reg::COND.idx()] > 0 {
        let target = u16::wrapping_add(reg[Reg::PC.idx()], pc_offset);
        reg.set(Reg::PC.idx(), target);
    }
}

/// JMP (and its special case RET): the PC becomes the base register's value.
pub open spec fn spec_op_jump(reg: Seq<u16>, i: u16) -> Seq<u16> {
    reg.update(PC_IDX as int, reg[field_sr1(i)])
}

pub fn op_jump(reg: &mut Vec<u16>, instr: u16)
    requires
        old(reg).len() == NUM_REGS,
    ensures
        final(reg)@ == spec_op_jump(old(reg)@, instr),
        final(reg)@.len() == old(reg)@.len(),
{
    let r1 = src1(instr);
    let target = reg[r1];
    reg.set(Reg::PC.idx(), target);
}

/// JSR/JSRR: R7 receives the return address (the incremented PC); then the
/// PC moves by the sign-extended 11-bit offset (long form) or to the base
/// register's value as it stands after the R7 write (register form).
pub open spec fn spec_op_jsr(reg: Seq<u16>, i: u16) -> Seq<u16> {
    let saved = reg.update(7, reg[PC_IDX as int]);
    if long_mode(i) {
        saved.update(PC_IDX as int, wadd(saved[PC_IDX as int], offset11(i)))
    } else {
        saved.update(PC_IDX as int, saved[field_sr1(i)])
    }
}

pub fn op_jsr(reg: &mut Vec<u16>, instr: u16)
    requires
        old(reg).len() == NUM_REGS,
    ensures
        final(reg)@ == spec_op_jsr(old(reg)@, instr),
        final(reg)@.len() == old(reg)@.len(),
{
    let long_flag: u16 = (instr >> 11) & 1;
    let pc = reg[Reg::PC.idx()];
    reg.set(Reg::R7.idx(), pc);

    if long_flag == 1 {
        let long_pc_offset = sign_extend(instr & 0x7FF, 11);
        let target = u16::wrapping_add(reg[Reg::PC.idx()], long_pc_offset);
        reg.set(Reg::PC.idx(), target);
    } else {
        let r1 = src1(instr);
        let target = reg[r1];
        reg.set(Reg::PC.idx(), target);
    }
}

/// The PC-relative address a 9-bit-offset instruction works on.
pub open spec fn pc_rel_addr(reg: Seq<u16>, i: u16) -> u16 {
    wadd(reg[PC_IDX as int], offset9(i))
}

/// LD: destination = memory at PC plus offset; condition code from the
/// loaded value.
pub open spec fn spec_op_load(reg: Seq<u16>, mem: Seq<u16>, i: u16) -> Seq<u16> {
    with_dest(reg, field_dr(i), mem[pc_rel_addr(reg, i) as int])
}

pub fn op_load(reg: &mut Vec<u16>, instr: u16, memory: &mut Vec<u16>)
    requires
        old(reg).len() == NUM_REGS,
        old(memory).len() == MEMORY_SIZE,
    ensures
        final(reg)@ == spec_op_load(old(reg)@, old(memory)@, instr),
        final(reg)@.len() == old(reg)@.len(),
        final(memory)@ == old(memory)@,
{
    let r0 = dst(instr);
    let pc_offset: u16 = sign_extend(instr & 0x1FF, 9);

    let addr = u16::wrapping_add(reg[Reg::PC.idx()], pc_offset);
    let v = mem_read(addr, memory);
    reg.set(r0, v);
    update_flags(r0, reg);
}

/// LDI: destination = memory at the address stored at PC plus offset;
/// condition code from the loaded value.
pub open spec fn spec_op_ldi(reg: Seq<u16>, mem: Seq<u16>, i: u16) -> Seq<u16> {
    with_dest(reg, field_dr(i), mem[mem[pc_rel_addr(reg, i) as int] as int])
}

pub fn op_ldi(reg: &mut Vec<u16>, instr: u16, memory: &mut Vec<u16>)
    requires
        old(reg).len() == NUM_REGS,
        old(memory).len() == MEMORY_SIZE,
    ensures
        final(reg)@ == spec_op_ldi(old(reg)@, old(memory)@, instr),
        final(reg)@.len() == old(reg)@.len(),
        final(memory)@ == old(memory)@,
{
    let r0 = dst(instr);
    let pc_offset: u16 = sign_extend(instr & 0x1FF, 9);

    let addr = u16::wrapping_add(reg[Reg::PC.idx()], pc_offset);
    let indirect = mem_read(addr, memory);
    let v = mem_read(indirect, memory);
    reg.set(r0, v);
    update_flags(r0, reg);
}

/// LDR: destination = memory at base register plus 6-bit offset; condition
/// code from the loaded value.
pub open spec fn spec_op_ldr(reg: Seq<u16>, mem: Seq<u16>, i: u16) -> Seq<u16> {
    with_dest(reg, field_dr(i), mem[wadd(reg[field_sr1(i)], offset6(i)) as int])
}

pub fn op_ldr(reg: &mut Vec<u16>, instr: u16, memory: &mut Vec<u16>)
    requires
        old(reg).len() == NUM_REGS,
        old(memory).len() == MEMORY_SIZE,
    ensures
        final(reg)@ == spec_op_ldr(old(reg)@, old(memory)@, instr),
        final(reg)@.len() == old(reg)@.len(),
        final(memory)@ == old(memory)@,
{
    let r0 = dst(instr);
    let r1 = src1(instr);
    let offset: u16 = sign_extend(instr & 0x3F, 6);

    let addr = u16::wrapping_add(reg[r1], offset);
    let v = mem_read(addr, memory);
    reg.set(r0, v);
    update_flags(r0, reg);
}

/// LEA: destination = PC plus offset, the address itself; condition code
/// from that address.
pub open spec fn spec_op_lea(reg: Seq<u16>, i: u16) -> Seq<u16> {
    with_dest(reg, field_dr(i), pc_rel_addr(reg, i))
}

pub fn op_lea(reg: &mut Vec<u16>, instr: u16)
    requires
        old(reg).len() == NUM_REGS,
    ensures
        final(reg)@ == spec_op_lea(old(reg)@, instr),
        final(reg)@.len() == old(reg)@.len(),
{
    let r0 = dst(instr);
    let pc_offset: u16 = sign_extend(instr & 0x1FF, 9);

    let v = u16::wrapping_add(reg[Reg::PC.idx()], pc_offset);
    reg.set(r0, v);
    update_flags(r0, reg);
}

/// ST: the source register's value is stored at PC plus offset. Registers,
/// the condition code included, stay as they are.
pub open spec fn spec_op_st(reg: Seq<u16>, mem: Seq<u16>, i: u16) -> Seq<u16> {
    mem.update(pc_rel_addr(reg, i) as int, reg[field_dr(i)])
}

pub fn op_st(reg: &mut Vec<u16>, instr: u16, memory: &mut Vec<u16>)
    requires
        old(reg).len() == NUM_REGS,
        old(memory).len() == MEMORY_SIZE,
    ensures
        final(memory)@ == spec_op_st(old(reg)@, old(memory)@, instr),
        final(reg)@ == old(reg)@,
{
    let r0 = dst(instr);
    let pc_offset: u16 = sign_extend(instr & 0x1FF, 9);

    let addr = u16::wrapping_add(reg[Reg::PC.idx()], pc_offset);
    mem_write(addr, reg[r0], memory);
}

/// STI: the source register's value is stored at the address held in memory
/// at PC plus offset.
pub open spec fn spec_op_sti(reg: Seq<u16>, mem: Seq<u16>, i: u16) -> Seq<u16> {
    mem.update(mem[pc_rel_addr(reg, i) as int] as int, reg[field_dr(i)])
}

pub fn op_sti(reg: &mut Vec<u16>, instr: u16, memory: &mut Vec<u16>)
    requires
        old(reg).len() == NUM_REGS,
        old(memory).len() == MEMORY_SIZE,
    ensures
        final(memory)@ == spec_op_sti(old(reg)@, old(memory)@, instr),
        final(reg)@ == old(reg)@,
{
    let r0 = dst(instr);
    let pc_offset: u16 = sign_extend(instr & 0x1FF, 9);

    let addr = u16::wrapping_add(reg[Reg::PC.idx()], pc_offset);
    let target = mem_read(addr, memory);
    mem_write(target, reg[r0], memory);
}

/// STR: the source register's value is stored at base register plus 6-bit
/// offset.
pub open spec fn spec_op_str(reg: Seq<u16>, mem: Seq<u16>, i: u16) -> Seq<u16> {
    mem.update(wadd(reg[field_sr1(i)], offset6(i)) as int, reg[field_dr(i)])
}

pub fn op_str(reg: &mut Vec<u16>, instr: u16, memory: &mut Vec<u16>)
    requires
        old(reg).len() == NUM_REGS,
        old(memory).len() == MEMORY_SIZE,
    ensures
        final(memory)@ == spec_op_str(old(reg)@, old(memory)@, instr),
        final(reg)@ == old(reg)@,
{
    let r0 = dst(instr);
    let r1 = src1(instr);
    let offset: u16 = sign_extend(instr & 0x3F, 6);

    let addr = u16::wrapping_add(reg[r1], offset);
    mem_write(addr, reg[r0], memory);
}


/// Instructions that write no destination register never touch the condition
/// code: BR, JMP and JSR leave the condition-code slot exactly as it was.
/// (ST, STI and STR leave every register as it was: their contracts say so.)
pub proof fn lemma_no_dest_no_flag_change(reg: Seq<u16>, i: u16)
    requires
        reg.len() == NUM_REGS,
    ensures
        spec_op_branch(reg, i)[COND_IDX as int] == reg[COND_IDX as int],
        spec_op_jump(reg, i)[COND_IDX as int] == reg[COND_IDX as int],
        spec_op_jsr(reg, i)[COND_IDX as int] == reg[COND_IDX as int],
{
}

} // verus!
