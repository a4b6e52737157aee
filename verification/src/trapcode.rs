//! The six console trap routines, as pure computation. Reading a key and
//! writing bytes to the console happen outside this crate: the routines that
//! consume a key take it as an argument, and the routines that produce
//! output return the exact bytes to write.

use vstd::prelude::*;

use crate::register::NUM_REGS;
use crate::register::Reg;
use crate::MEMORY_SIZE;

verus! {

/// The low 8 bits of a word: the character a word carries for OUT and PUTS,
/// and the first packed character for PUTSP.
pub open spec fn low_byte(w: u16) -> u8 {
    (w & 0xFF) as u8
}

/// The high 8 bits of a word: the second packed character for PUTSP.
pub open spec fn high_byte(w: u16) -> u8 {
    (w >> 8) as u8
}

fn lo8(w: u16) -> (b: u8)
    ensures
        b == low_byte(w),
{
    let m = w & 0xFF;
    assert(m < 256) by (bit_vector)
        requires
            m == w & 0xFF,
    ;
    m as u8
}

fn hi8(w: u16) -> (b: u8)
    ensures
        b == high_byte(w),
{
    let m = w >> 8;
    assert(m < 256) by (bit_vector)
        requires
            m == w >> 8,
    ;
    m as u8
}

/// The bytes PUTS writes for the string of words starting at index `i`: one
/// character per word, the word's low 8 bits, up to but not including the
/// first zero word; a string that runs to the edge of memory ends there.
pub open spec fn puts_seq(mem: Seq<u16>, i: int) -> Seq<u8>
    decreases mem.len() - i,
{
    if i < 0 || i >= mem.len() || mem[i] == 0 {
        Seq::empty()
    } else {
        seq![low_byte(mem[i])] + puts_seq(mem, i + 1)
    }
}

/// The one or two characters PUTSP writes for a nonzero packed word: the low
/// byte, then the high byte when that is nonzero.
pub open spec fn putsp_word(w: u16) -> Seq<u8> {
    if high_byte(w) == 0 {
        seq![low_byte(w)]
    } else {
        seq![low_byte(w), high_byte(w)]
    }
}

/// The bytes PUTSP writes for the packed string of words starting at index
/// `i`, up to but not including the first zero word.
pub open spec fn putsp_seq(mem: Seq<u16>, i: int) -> Seq<u8>
    decreases mem.len() - i,
{
    if i < 0 || i >= mem.len() || mem[i] == 0 {
        Seq::empty()
    } else {
        putsp_word(mem[i]) + putsp_seq(mem, i + 1)
    }
}

/// GETC: a key read from the console, without echo, lands in R0 as its
/// numeric value. The condition code is not touched.
pub fn trap_getc(reg: &mut Vec<u16>, key: u8)
    requires
        old(reg).len() == NUM_REGS,
    ensures
        final(reg)@ == old(reg)@.update(Reg::R0.position(), key as u16),
{
    reg.set(Reg::R0.idx(), key as u16);
}

/// OUT: the character to write to the console — the low 8 bits of R0.
pub fn trap_out(reg: &Vec<u16>) -> (b: u8)
    requires
        reg.len() == NUM_REGS,
    ensures
        b == low_byte(reg@[Reg::R0.position()]),
{
    lo8(reg[Reg::R0.idx()])
}

/// PUTS: the characters to write to the console — one per word from the
/// address in R0, each word's low 8 bits, stopping at the first zero word
/// without writing it.
pub fn trap_puts(reg: &Vec<u16>, memory: &Vec<u16>) -> (out: Vec<u8>)
    requires
        reg.len() == NUM_REGS,
        memory.len() == MEMORY_SIZE,
    ensures
        out@ == puts_seq(memory@, reg@[Reg::R0.position()] as int),
{
    let mut out: Vec<u8> = Vec::new();
    let mut index: usize = reg[Reg::R0.idx()] as usize;
    let ghost start: int = index as int;

    while index < memory.len() && memory[index] != 0
        invariant
            memory.len() == MEMORY_SIZE,
            0 <= start <= index,
            out@ + puts_seq(memory@, index as int) == puts_seq(memory@, start),
        decreases memory.len() - index,
    {
        let b = lo8(memory[index]);
        proof {
            assert(puts_seq(memory@, index as int) == seq![low_byte(memory@[index as int])]
                + puts_seq(memory@, index + 1));
            assert(out@ + puts_seq(memory@, index as int) == (out@ + seq![
                low_byte(memory@[index as int]),
            ]) + puts_seq(memory@, index + 1)) by {
                assert(out@ + (seq![low_byte(memory@[index as int])] + puts_seq(
                    memory@,
                    index + 1,
                )) =~= (out@ + seq![low_byte(memory@[index as int])]) + puts_seq(
                    memory@,
                    index + 1,
                ));
            }
        }
        out.push(b);
        index = index + 1;
    }

    proof {
        assert(puts_seq(memory@, index as int) =~= Seq::<u8>::empty());
        assert(out@ + Seq::<u8>::empty() =~= out@);
    }
    out
}

/// IN: a key read from the console after the prompt, echoed by the console
/// layer, lands in R0 as its numeric value. The condition code is not
/// touched.
pub fn trap_in(reg: &mut Vec<u16>, key: u8)
    requires
        old(reg).len() == NUM_REGS,
    ensures
        final(reg)@ == old(reg)@.update(Reg::R0.position(), key as u16),
{
    reg.set(Reg::R0.idx(), key as u16);
}

/// PUTSP: the characters to write to the console — for each packed word from
/// the address in R0 until the first zero word, the low byte, then the high
/// byte when that is nonzero.
pub fn trap_putsp(reg: &Vec<u16>, memory: &Vec<u16>) -> (out: Vec<u8>)
    requires
        reg.len() == NUM_REGS,
        memory.len() == MEMORY_SIZE,
    ensures
        out@ == putsp_seq(memory@, reg@[Reg::R0.position()] as int),
{
    let mut out: Vec<u8> = Vec::new();
    let mut index: usize = reg[Reg::R0.idx()] as usize;
    let ghost start: int = index as int;

    while index < memory.len() && memory[index] != 0
        invariant
            memory.len() == MEMORY_SIZE,
            0 <= start <= index,
            out@ + putsp_seq(memory@, index as int) == putsp_seq(memory@, start),
        decreases memory.len() - index,
    {
        let word: u16 = memory[index];
        let ghost out_before: Seq<u8> = out@;
        let lo = lo8(word);
        let hi = hi8(word);
        out.push(lo);
        if hi != 0 {
            out.push(hi);
        }
        proof {
            assert(out@ =~= out_before + putsp_word(word));
            assert(putsp_seq(memory@, index as int) == putsp_word(word) + putsp_seq(
                memory@,
                index + 1,
            ));
            assert(out_before + (putsp_word(word) + putsp_seq(memory@, index + 1)) =~= (out_before
                + putsp_word(word)) + putsp_seq(memory@, index + 1));
        }
        index = index + 1;
    }

    proof {
        assert(putsp_seq(memory@, index as int) =~= Seq::<u8>::empty());
        assert(out@ + Seq::<u8>::empty() =~= out@);
    }
    out
}

} // verus!
