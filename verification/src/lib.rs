//! A software CPU for a 16-bit, word-addressed instruction set: 8 general
//! registers, a program counter, a 3-valued condition code, a flat store of
//! 65536 words with two memory-mapped keyboard registers, sixteen opcodes and
//! six console traps. All address and value arithmetic wraps modulo 65536.
//!
//! Console input and output, terminal modes and file reading live outside
//! this crate; every function here is pure computation over registers,
//! memory and plain values, and is verified against the contracts below.

use vstd::prelude::*;

pub mod machine;
pub mod opcode;
pub mod opcodes;
pub mod register;
pub mod trapcode;

use crate::register::COND_IDX;
use crate::register::NUM_REGS;

verus! {

/// Condition flags: the three mutually exclusive values the condition-code
/// register can hold, set from the sign of the last value written to a
/// destination register.
#[allow(non_camel_case_types)]
#[derive(Clone, Copy, Debug, PartialEq, Eq)]
pub enum CondFlags {
    FL_POS,
    FL_ZRO,
    FL_NEG,
}

impl CondFlags {
    /// The bit each flag occupies in the condition-code register.
    pub open spec fn value(self) -> u16 {
        match self {
            CondFlags::FL_POS => 1,
            CondFlags::FL_ZRO => 2,
            CondFlags::FL_NEG => 4,
        }
    }

    pub fn as_u16(self) -> (r: u16)
        ensures
            r == self.value(),
    {
        match self {
            CondFlags::FL_POS => 1,
            CondFlags::FL_ZRO => 2,
            CondFlags::FL_NEG => 4,
        }
    }

    /// The flag a destination-register write of `v` produces: zero, negative
    /// (bit 15 set, a two's-complement negative), or positive.
    pub open spec fn of(v: u16) -> CondFlags {
        if v == 0 {
            CondFlags::FL_ZRO
        } else if v >= 0x8000 {
            CondFlags::FL_NEG
        } else {
            CondFlags::FL_POS
        }
    }
}

/// The condition-code register's contents after a write of `v` to a
/// destination register.
pub open spec fn flag_for(v: u16) -> u16 {
    CondFlags::of(v).value()
}

/// Exactly one of the three condition flags holds after any write: the flag
/// value is 1 (positive), 2 (zero) or 4 (negative), and each appears for
/// exactly the stated sign of the written value.
pub proof fn lemma_flag_exclusive(v: u16)
    ensures
        flag_for(v) == 1 || flag_for(v) == 2 || flag_for(v) == 4,
        (flag_for(v) == 2) <==> v == 0,
        (flag_for(v) == 4) <==> v >= 0x8000,
        (flag_for(v) == 1) <==> (0 < v < 0x8000),
{
}

/// The trap codes: the low 8 bits of a TRAP instruction select one of these
/// six console service routines; any other value is invalid.
#[derive(Clone, Copy, Debug, PartialEq, Eq)]
pub enum TrapCode {
    GETC,
    OUT,
    PUTS,
    IN,
    PUTSP,
    HALT,
}

impl TrapCode {
    /// The 8-bit encoding of this trap code.
    pub open spec fn code(self) -> u16 {
        match self {
            TrapCode::GETC => 0x20,
            TrapCode::OUT => 0x21,
            TrapCode::PUTS => 0x22,
            TrapCode::IN => 0x23,
            TrapCode::PUTSP => 0x24,
            TrapCode::HALT => 0x25,
        }
    }

    pub fn as_u16(self) -> (r: u16)
        ensures
            r == self.code(),
    {
        match self {
            TrapCode::GETC => 0x20,
            TrapCode::OUT => 0x21,
            TrapCode::PUTS => 0x22,
            TrapCode::IN => 0x23,
            TrapCode::PUTSP => 0x24,
            TrapCode::HALT => 0x25,
        }
    }

    /// Decode a trap code: `Some` exactly for the six recognized values.
    pub fn from_u16(c: u16) -> (r: Option<TrapCode>)
        ensures
            r matches Some(t) ==> t.code() == c,
            r is None ==> !(0x20 <= c <= 0x25),
            0x20 <= c <= 0x25 ==> r is Some,
    {
        match c {
            0x20 => Some(TrapCode::GETC),
            0x21 => Some(TrapCode::OUT),
            0x22 => Some(TrapCode::PUTS),
            0x23 => Some(TrapCode::IN),
            0x24 => Some(TrapCode::PUTSP),
            0x25 => Some(TrapCode::HALT),
            _ => None,
        }
    }
}

/// The two memory-mapped keyboard registers: the status register (bit 15 set
/// when a key is available) and the data register (the key's value).
#[allow(non_camel_case_types)]
#[derive(Clone, Copy, Debug, PartialEq, Eq)]
pub enum MemMapReg {
    MR_KBSR,
    MR_KBDR,
}

impl MemMapReg {
    /// The reserved memory address of this device register.
    pub open spec fn address(self) -> u16 {
        match self {
            MemMapReg::MR_KBSR => 0xFE00,
            MemMapReg::MR_KBDR => 0xFE02,
        }
    }

    pub fn addr(self) -> (r: u16)
        ensures
            r == self.address(),
    {
        match self {
            MemMapReg::MR_KBSR => 0xFE00,
            MemMapReg::MR_KBDR => 0xFE02,
        }
    }
}

/// Number of words in memory: the full 16-bit address space.
pub const MEMORY_SIZE: usize = 0x10000;

/// 16-bit addition with defined wraparound modulo 65536.
pub open spec fn wadd(a: u16, b: u16) -> u16 {
    if a + b > 0xFFFF {
        (a + b - 0x10000) as u16
    } else {
        (a + b) as u16
    }
}

/// Widening a `bit_count`-bit two's-complement value to 16 bits: copies of
/// the sign bit fill the high positions, the low `bit_count` bits are kept.
pub open spec fn spec_sign_extend(x: u16, bit_count: u16) -> u16 {
    if (x >> (bit_count - 1) as u16) & 1 == 1 {
        x | (0xFFFFu16 << bit_count) as u16
    } else {
        x
    }
}

/// Sign-extend the low `bit_count` bits of `x` to a full 16-bit word.
pub fn sign_extend(mut x: u16, bit_count: u16) -> (r: u16)
    requires
        1 <= bit_count < 16,
    ensures
        r == spec_sign_extend(x, bit_count),
{
    if (x >> (bit_count - 1)) & 1 == 1 {
        x |= 0xFFFF << bit_count;
    }
    x
}

/// A 16-bit word read as a two's-complement integer in -32768..=32767.
pub open spec fn as_signed(v: u16) -> int {
    if v >= 0x8000 {
        v - 0x10000
    } else {
        v as int
    }
}

/// The low `w` bits of `x` read as a `w`-bit two's-complement integer.
pub open spec fn as_signed_width(x: u16, w: u16) -> int {
    let low = (x & !((0xFFFFu16 << w) as u16)) as int;
    if low >= pow2_int((w - 1) as u16) {
        low - pow2_int(w)
    } else {
        low
    }
}

/// Two to the `w`, as an integer, for widths up to 16.
pub open spec fn pow2_int(w: u16) -> int {
    (1u32 << (w as u32)) as int
}

/// Sign extension preserves the signed value: for a `w`-bit field (a value
/// below two to the `w`), the widened word, read as a 16-bit two's-complement
/// integer, equals the field read as a `w`-bit two's-complement integer.
pub proof fn lemma_sign_extend_signed(x: u16, w: u16)
    requires
        1 <= w < 16,
        x < (1u16 << w),
    ensures
        as_signed(spec_sign_extend(x, w)) == as_signed_width(x, w),
{
    assert(as_signed(spec_sign_extend(x, w)) == as_signed_width(x, w)) by (bit_vector)
        requires
            1 <= w < 16,
            x < (1u16 << w),
    ;
}

/// Registers `reg` with the condition code recomputed from the value in
/// slot `r`.
pub open spec fn spec_update_flags(reg: Seq<u16>, r: int) -> Seq<u16> {
    reg.update(COND_IDX as int, flag_for(reg[r]))
}

/// Recompute the condition-code register from the sign of the value just
/// written to slot `r`.
pub fn update_flags(r: usize, reg: &mut Vec<u16>)
    requires
        old(reg).len() == NUM_REGS,
        r < NUM_REGS,
    ensures
        final(reg)@ == spec_update_flags(old(reg)@, r as int),
{
    let val = reg[r];

    if val == 0 {
        reg.set(COND_IDX, CondFlags::FL_ZRO.as_u16());
    } else if val >> 15 == 1 {
        assert(val >= 0x8000) by (bit_vector)
            requires
                val >> 15 == 1,
        ;
        reg.set(COND_IDX, CondFlags::FL_NEG.as_u16());
    } else {
        assert(val < 0x8000) by (bit_vector)
            requires
                val >> 15 != 1,
        ;
        reg.set(COND_IDX, CondFlags::FL_POS.as_u16());
    }
}

/// Plain memory read. The console poll that a read of the keyboard status
/// register triggers is a separate step: see `mem_poll` and the machine's
/// step function, which applies the poll before every read of that address.
pub fn mem_read(addr: u16, memory: &Vec<u16>) -> (r: u16)
    requires
        memory.len() == MEMORY_SIZE,
    ensures
        r == memory@[addr as int],
{
    memory[addr as usize]
}

/// Store `val` at `addr`, unconditionally.
pub fn mem_write(addr: u16, val: u16, memory: &mut Vec<u16>)
    requires
        old(memory).len() == MEMORY_SIZE,
    ensures
        final(memory)@ == old(memory)@.update(addr as int, val),
{
    memory.set(addr as usize, val);
}

/// Memory after one console poll that obtained the byte `key`: a nonzero
/// key sets the status register's bit 15 and stores the key in the data
/// register; a zero byte clears the status register.
pub open spec fn spec_poll(mem: Seq<u16>, key: u8) -> Seq<u16> {
    if key != 0 {
        mem.update(MemMapReg::MR_KBSR.address() as int, 0x8000u16).update(
            MemMapReg::MR_KBDR.address() as int,
            key as u16,
        )
    } else {
        mem.update(MemMapReg::MR_KBSR.address() as int, 0u16)
    }
}

/// Record in the memory-mapped keyboard registers the outcome of one
/// console poll that obtained the byte `key`.
pub fn mem_poll(memory: &mut Vec<u16>, key: u8)
    requires
        old(memory).len() == MEMORY_SIZE,
    ensures
        final(memory)@ == spec_poll(old(memory)@, key),
{
    if key != 0 {
        let ready: u16 = 1u16 << 15;
        assert(ready == 0x8000) by (bit_vector)
            requires
                ready == 1u16 << 15,
        ;
        memory.set(MemMapReg::MR_KBSR.addr() as usize, ready);
        memory.set(MemMapReg::MR_KBDR.addr() as usize, key as u16);
    } else {
        memory.set(MemMapReg::MR_KBSR.addr() as usize, 0);
    }
}

/// The 16-bit word formed from two big-endian bytes.
pub open spec fn be_word(hi: u8, lo: u8) -> u16 {
    ((hi as int) * 256 + lo as int) as u16
}

/// Memory after the words encoded big-endian in `data` are stored at
/// consecutive addresses from `addr` on, wrapping modulo 65536; a trailing
/// odd byte encodes no word and is ignored.
pub open spec fn store_image(mem: Seq<u16>, addr: u16, data: Seq<u8>) -> Seq<u16>
    decreases data.len(),
{
    if data.len() < 2 {
        mem
    } else {
        store_image(
            mem.update(addr as int, be_word(data[0], data[1])),
            wadd(addr, 1),
            data.skip(2),
        )
    }
}

/// Load a program image, given as its file's bytes, into memory. The first
/// big-endian word is the load address; every following word is stored at
/// consecutive addresses from there, wrapping modulo 65536, later words
/// overwriting earlier ones on collision. Returns false, leaving memory
/// unchanged, exactly when the bytes hold no load address.
pub fn read_image(data: &Vec<u8>, memory: &mut Vec<u16>) -> (ok: bool)
    requires
        old(memory).len() == MEMORY_SIZE,
    ensures
        ok == (data@.len() >= 2),
        ok ==> final(memory)@ == store_image(
            old(memory)@,
            be_word(data@[0], data@[1]),
            data@.skip(2),
        ),
        !ok ==> final(memory)@ == old(memory)@,
{
    if data.len() < 2 {
        return false;
    }

    let mut addr: u16 = join_be(data[0], data[1]);
    let ghost origin: u16 = addr;
    let mut i: usize = 2;

    while i + 1 < data.len()
        invariant
            memory.len() == MEMORY_SIZE,
            2 <= i <= data.len(),
            i % 2 == 0,
            store_image(old(memory)@, origin, data@.skip(2)) == store_image(
                memory@,
                addr,
                data@.skip(i as int),
            ),
        decreases data.len() - i,
    {
        let w = join_be(data[i], data[i + 1]);
        proof {
            assert(data@.skip(i as int)[0] == data@[i as int]);
            assert(data@.skip(i as int)[1] == data@[i + 1]);
            assert(data@.skip(i as int).skip(2) =~= data@.skip(i + 2));
        }
        memory.set(addr as usize, w);
        addr = addr.wrapping_add(1);
        i = i + 2;
    }

    proof {
        assert(data@.skip(i as int).len() < 2);
    }
    true
}

/// Join two big-endian bytes into one word.
fn join_be(hi: u8, lo: u8) -> (r: u16)
    ensures
        r == be_word(hi, lo),
{
    let r = (hi as u16) << 8 | lo as u16;
    assert(r == hi as u16 * 256 + lo as u16) by (bit_vector)
        requires
            r == (hi as u16) << 8 | lo as u16,
    ;
    r
}

/// The address the `k`-th stored word of an image based at `addr` lands on:
/// `k` past `addr`, wrapping modulo 65536.
pub open spec fn image_addr(addr: u16, k: int) -> int {
    (addr + k) % 0x10000
}

/// Loading an image touches only the run of addresses it stores words at:
/// any address `a` that is not among the first `data.len() / 2` addresses
/// counted from `addr` (modulo 65536) keeps its old contents.
pub proof fn lemma_store_image_untouched(mem: Seq<u16>, addr: u16, data: Seq<u8>, a: int)
    requires
        0 <= a < mem.len(),
        mem.len() == 0x10000,
        forall|k: int| 0 <= k < data.len() / 2 ==> a != #[trigger] image_addr(addr, k),
    ensures
        store_image(mem, addr, data)[a] == mem[a],
    decreases data.len(),
{
    if data.len() < 2 {
    } else {
        assert(image_addr(addr, 0) == addr) by {
            vstd::arithmetic::div_mod::lemma_small_mod(addr as nat, 0x10000nat);
        }
        assert(a != addr) by {
            assert(0 < data.len() / 2);
        }
        let mem1 = mem.update(addr as int, be_word(data[0], data[1]));
        let addr1 = wadd(addr, 1);
        assert(addr1 as int == (addr + 1) % 0x10000) by {
            if addr == 0xFFFF {
                vstd::arithmetic::div_mod::lemma_mod_self_0(0x10000);
            } else {
                vstd::arithmetic::div_mod::lemma_small_mod((addr + 1) as nat, 0x10000nat);
            }
        }
        assert forall|k: int| 0 <= k < data.skip(2).len() / 2 implies a != #[trigger] image_addr(
            addr1,
            k,
        ) by {
            vstd::arithmetic::div_mod::lemma_add_mod_noop_right(k, addr + 1, 0x10000);
            assert(image_addr(addr1, k) == image_addr(addr, k + 1));
            assert(0 <= k + 1 < data.len() / 2);
        }
        lemma_store_image_untouched(mem1, addr1, data.skip(2), a);
    }
}

} // verus!

