//! The machine: register file, memory, and the fetch-decode-execute cycle.
//!
//! Console input blocks the whole system, so the cycle is cut into
//! micro-steps at exactly the points that may wait for a key: the fetch, a
//! load whose address is the keyboard status register, the second read of
//! LDI, and the GETC and IN traps. `step` performs one micro-step. When the
//! next micro-step needs a key and none is buffered, `step` changes nothing
//! and asks for one; the caller reads a key from the console, hands it in
//! through `provide_key`, and calls `step` again. Output is returned as the
//! exact bytes to write. The relation `step_rel` pins down every transition.
//!
//! A deliberate compatibility choice: every read of the keyboard status
//! register waits for and consumes one key, so a program that polls the
//! status register before deciding whether to read suspends until a key
//! arrives, rather than seeing "no key yet" and moving on.

use vstd::prelude::*;

use crate::mem_poll;
use crate::update_flags;
use crate::mem_read;
use crate::opcode::dst;
use crate::opcode::field_dr;
use crate::opcode::field_sr1;
use crate::opcode::src1;
use crate::opcode::offset6;
use crate::opcode::op_add;
use crate::opcode::op_and;
use crate::opcode::op_branch;
use crate::opcode::op_jsr;
use crate::opcode::op_jump;
use crate::opcode::op_ldr;
use crate::opcode::op_lea;
use crate::opcode::op_load;
use crate::opcode::op_not;
use crate::opcode::op_st;
use crate::opcode::op_sti;
use crate::opcode::op_str;
use crate::opcode::pc_rel_addr;
use crate::opcode::spec_op_add;
use crate::opcode::spec_op_and;
use crate::opcode::spec_op_branch;
use crate::opcode::spec_op_jsr;
use crate::opcode::spec_op_jump;
use crate::opcode::spec_op_ldi;
use crate::opcode::spec_op_lea;
use crate::opcode::spec_op_not;
use crate::opcode::spec_op_st;
use crate::opcode::spec_op_sti;
use crate::opcode::spec_op_str;
use crate::opcode::with_dest;
use crate::opcodes::OpCodes;
use crate::register::NUM_REGS;
use crate::register::PC_IDX;
use crate::register::Reg;
use crate::sign_extend;
use crate::spec_poll;
use crate::trapcode::low_byte;
use crate::trapcode::puts_seq;
use crate::trapcode::putsp_seq;
use crate::trapcode::trap_getc;
use crate::trapcode::trap_in;
use crate::trapcode::trap_out;
use crate::trapcode::trap_puts;
use crate::trapcode::trap_putsp;
use crate::wadd;
use crate::MemMapReg;
use crate::TrapCode;
use crate::MEMORY_SIZE;

verus! {

/// The address programs start at unless an image says otherwise.
pub const PC_START: u16 = 0x3000;

/// Where the cycle stands between micro-steps.
#[derive(Clone, Copy, Debug, PartialEq, Eq)]
pub enum Mode {
    /// About to fetch the instruction at the PC.
    Fetch,
    /// Fetched, PC already incremented; about to execute.
    Execute(u16),
    /// LDI did its first read; the second read, at the carried address, will
    /// land in the carried destination slot.
    LdiSecond(usize, u16),
    /// The HALT trap ran; the machine is done.
    Halted,
}

/// The fatal conditions: each one terminates the run with its own exit code.
#[derive(Clone, Copy, Debug, PartialEq, Eq)]
pub enum VmError {
    /// One of the two architecturally reserved opcodes was executed.
    ReservedOpcode,
    /// An opcode outside the sixteen defined codes was executed.
    UndefinedOpcode,
    /// A TRAP instruction carried an unrecognized trap code.
    UndefinedTrap,
}

impl VmError {
    /// The process exit code each fatal condition calls for.
    pub open spec fn spec_exit_code(self) -> i32 {
        match self {
            VmError::ReservedOpcode => 10,
            VmError::UndefinedOpcode => 20,
            VmError::UndefinedTrap => 21,
        }
    }

    pub fn exit_code(self) -> (c: i32)
        ensures
            c == self.spec_exit_code(),
    {
        match self {
            VmError::ReservedOpcode => 10,
            VmError::UndefinedOpcode => 20,
            VmError::UndefinedTrap => 21,
        }
    }
}

/// What one micro-step asks of its caller.
#[derive(Debug, PartialEq, Eq)]
pub enum Step {
    /// Progress was made; call `step` again.
    Working,
    /// A console read is pending: read one key, without echo or prompt, and
    /// hand it in through `provide_key`.
    NeedKey,
    /// The IN trap is pending: show the prompt, read one key, echo it, and
    /// hand it in through `provide_key`.
    NeedKeyPrompted,
    /// Write these bytes to the console, then call `step` again.
    Output(Vec<u8>),
    /// The HALT trap ran: the machine stopped gracefully.
    Halted,
    /// A fatal condition: terminate with the error's exit code.
    Fatal(VmError),
}

/// The whole machine state as one owned value, threaded mutably through the
/// run.
pub struct Machine {
    pub reg: Vec<u16>,
    pub mem: Vec<u16>,
    pub mode: Mode,
    /// The one-key buffer the console layer fills on request.
    pub key: Option<u8>,
}

/// The machine's state as mathematical values, for contracts.
pub struct VmView {
    pub reg: Seq<u16>,
    pub mem: Seq<u16>,
    pub mode: Mode,
    pub key: Option<u8>,
}

impl Machine {
    pub open spec fn view(self) -> VmView {
        VmView { reg: self.reg@, mem: self.mem@, mode: self.mode, key: self.key }
    }

    /// Well-formed: full-size register file and memory, and a meaningful
    /// destination slot when an LDI is half done.
    pub open spec fn wf(self) -> bool {
        &&& self.reg@.len() == NUM_REGS
        &&& self.mem@.len() == MEMORY_SIZE
        &&& match self.mode {
            Mode::LdiSecond(dr, _) => dr < 8,
            _ => true,
        }
    }

    /// A machine at startup: zeroed registers and memory, the PC at the
    /// default start address, about to fetch, no key buffered.
    pub fn new() -> (m: Machine)
        ensures
            m.wf(),
            m@.reg.len() == NUM_REGS,
            m@.reg[PC_IDX as int] == PC_START,
            forall|i: int| 0 <= i < NUM_REGS && i != PC_IDX ==> m@.reg[i] == 0,
            forall|a: int| 0 <= a < MEMORY_SIZE ==> m@.mem[a] == 0,
            m@.mode == Mode::Fetch,
            m@.key is None,
    {
        let mut reg = zero_words(NUM_REGS);
        let mem = zero_words(MEMORY_SIZE);
        reg.set(PC_IDX, PC_START);
        Machine { reg, mem, mode: Mode::Fetch, key: None }
    }

    /// Buffer the key the console produced for the pending request.
    pub fn provide_key(&mut self, k: u8)
        requires
            old(self).wf(),
        ensures
            final(self).wf(),
            final(self)@.reg == old(self)@.reg,
            final(self)@.mem == old(self)@.mem,
            final(self)@.mode == old(self)@.mode,
            final(self)@.key == Some(k),
    {
        self.key = Some(k);
    }
}

/// A vector of `n` zero words.
fn zero_words(n: usize) -> (v: Vec<u16>)
    ensures
        v@.len() == n,
        forall|i: int| 0 <= i < n ==> v@[i] == 0,
{
    let mut v: Vec<u16> = Vec::new();
    while v.len() < n
        invariant
            v@.len() <= n,
            forall|i: int| 0 <= i < v@.len() ==> v@[i] == 0,
        decreases n - v.len(),
    {
        v.push(0);
    }
    v
}

/// The key a buffered `Some` carries.
pub open spec fn key_val(key: Option<u8>) -> u8 {
    match key {
        Some(k) => k,
        None => 0,
    }
}

/// Whether a read of `addr` must wait: it polls the console (it reads the
/// keyboard status register) and no key is buffered.
pub open spec fn read_stalls(addr: u16, key: Option<u8>) -> bool {
    addr == MemMapReg::MR_KBSR.address() && key is None
}

/// Memory after the poll a read of `addr` triggers: a read of the keyboard
/// status register consumes the buffered key and records it in the mapped
/// registers; a read anywhere else leaves memory alone.
pub open spec fn polled_mem(mem: Seq<u16>, addr: u16, key: Option<u8>) -> Seq<u16> {
    if addr == MemMapReg::MR_KBSR.address() {
        spec_poll(mem, key_val(key))
    } else {
        mem
    }
}

/// The key buffer after a read of `addr`: a poll consumes it.
pub open spec fn key_after(addr: u16, key: Option<u8>) -> Option<u8> {
    if addr == MemMapReg::MR_KBSR.address() {
        None
    } else {
        key
    }
}

/// The fetch micro-step: read the instruction at the PC (polling first when
/// the PC sits on the keyboard status register), increment the PC with
/// wraparound, and stand ready to execute.
pub open spec fn fetch_rel(pre: VmView, post: VmView, s: Step) -> bool {
    let pc = pre.reg[PC_IDX as int];
    if read_stalls(pc, pre.key) {
        s is NeedKey && post == pre
    } else {
        let mem1 = polled_mem(pre.mem, pc, pre.key);
        &&& s is Working
        &&& post.mem == mem1
        &&& post.reg == pre.reg.update(PC_IDX as int, wadd(pc, 1))
        &&& post.mode == Mode::Execute(mem1[pc as int])
        &&& post.key == key_after(pc, pre.key)
    }
}

/// An execute micro-step that only rewrites registers: memory and the key
/// buffer stay, and the next micro-step is a fetch.
pub open spec fn regs_become(pre: VmView, post: VmView, s: Step, reg2: Seq<u16>) -> bool {
    &&& s is Working
    &&& post.reg == reg2
    &&& post.mem == pre.mem
    &&& post.mode == Mode::Fetch
    &&& post.key == pre.key
}

/// An execute micro-step that only rewrites memory.
pub open spec fn mem_becomes(pre: VmView, post: VmView, s: Step, mem2: Seq<u16>) -> bool {
    &&& s is Working
    &&& post.reg == pre.reg
    &&& post.mem == mem2
    &&& post.mode == Mode::Fetch
    &&& post.key == pre.key
}

/// A load micro-step: poll if the address is the keyboard status register
/// (waiting if no key is there), then the word at `addr` lands in
/// destination slot `dr` and the condition code follows it.
pub open spec fn load_rel(pre: VmView, post: VmView, s: Step, dr: int, addr: u16) -> bool {
    if read_stalls(addr, pre.key) {
        s is NeedKey && post == pre
    } else {
        let mem1 = polled_mem(pre.mem, addr, pre.key);
        &&& s is Working
        &&& post.reg == with_dest(pre.reg, dr, mem1[addr as int])
        &&& post.mem == mem1
        &&& post.mode == Mode::Fetch
        &&& post.key == key_after(addr, pre.key)
    }
}

/// The first half of LDI: read the indirect address at PC plus offset
/// (polling first when needed); the second read is left pending.
pub open spec fn ldi_first_rel(pre: VmView, post: VmView, s: Step, instr: u16) -> bool {
    let a1 = pc_rel_addr(pre.reg, instr);
    if read_stalls(a1, pre.key) {
        s is NeedKey && post == pre
    } else {
        let mem1 = polled_mem(pre.mem, a1, pre.key);
        &&& s is Working
        &&& post.reg == pre.reg
        &&& post.mem == mem1
        &&& post.mode == Mode::LdiSecond(field_dr(instr) as usize, mem1[a1 as int])
        &&& post.key == key_after(a1, pre.key)
    }
}

/// STI's micro-step: read the target address at PC plus offset (polling
/// first when needed), then store the source register there.
pub open spec fn sti_rel(pre: VmView, post: VmView, s: Step, instr: u16) -> bool {
    let a1 = pc_rel_addr(pre.reg, instr);
    if read_stalls(a1, pre.key) {
        s is NeedKey && post == pre
    } else {
        let mem1 = polled_mem(pre.mem, a1, pre.key);
        &&& s is Working
        &&& post.reg == pre.reg
        &&& post.mem == spec_op_sti(pre.reg, mem1, instr)
        &&& post.mode == Mode::Fetch
        &&& post.key == key_after(a1, pre.key)
    }
}

/// A trap that consumes a key into R0 (GETC and IN): waits when none is
/// buffered; the condition code is not touched.
pub open spec fn key_trap_rel(pre: VmView, post: VmView, s: Step, wait: Step) -> bool {
    if pre.key is None {
        s == wait && post == pre
    } else {
        &&& s is Working
        &&& post.reg == pre.reg.update(Reg::R0.position(), key_val(pre.key) as u16)
        &&& post.mem == pre.mem
        &&& post.mode == Mode::Fetch
        &&& post.key == Option::<u8>::None
    }
}

/// A trap that only produces output: the machine fetches next, and the
/// caller writes `bytes` to the console.
pub open spec fn output_trap_rel(pre: VmView, post: VmView, s: Step, bytes: Seq<u8>) -> bool {
    &&& (s matches Step::Output(b) && b@ == bytes)
    &&& post.reg == pre.reg
    &&& post.mem == pre.mem
    &&& post.mode == Mode::Fetch
    &&& post.key == pre.key
}

/// The machine stops: on HALT with the graceful `Halted`, on a fatal
/// condition with `Fatal`; nothing else changes.
pub open spec fn stop_rel(pre: VmView, post: VmView, s: Step, what: Step) -> bool {
    &&& s == what
    &&& post.reg == pre.reg
    &&& post.mem == pre.mem
    &&& post.mode == Mode::Halted
    &&& post.key == pre.key
}

/// The execute micro-step, by opcode (the top 4 bits of the instruction).
pub open spec fn execute_rel(pre: VmView, post: VmView, s: Step, instr: u16) -> bool {
    let op = instr >> 12;
    if op == OpCodes::OP_ADD.code() {
        regs_become(pre, post, s, spec_op_add(pre.reg, instr))
    } else if op == OpCodes::OP_AND.code() {
        regs_become(pre, post, s, spec_op_and(pre.reg, instr))
    } else if op == OpCodes::OP_NOT.code() {
        regs_become(pre, post, s, spec_op_not(pre.reg, instr))
    } else if op == OpCodes::OP_BR.code() {
        regs_become(pre, post, s, spec_op_branch(pre.reg, instr))
    } else if op == OpCodes::OP_JMP.code() {
        regs_become(pre, post, s, spec_op_jump(pre.reg, instr))
    } else if op == OpCodes::OP_JSR.code() {
        regs_become(pre, post, s, spec_op_jsr(pre.reg, instr))
    } else if op == OpCodes::OP_LEA.code() {
        regs_become(pre, post, s, spec_op_lea(pre.reg, instr))
    } else if op == OpCodes::OP_LD.code() {
        load_rel(pre, post, s, field_dr(instr), pc_rel_addr(pre.reg, instr))
    } else if op == OpCodes::OP_LDR.code() {
        load_rel(pre, post, s, field_dr(instr), wadd(pre.reg[field_sr1(instr)], offset6(instr)))
    } else if op == OpCodes::OP_LDI.code() {
        ldi_first_rel(pre, post, s, instr)
    } else if op == OpCodes::OP_ST.code() {
        mem_becomes(pre, post, s, spec_op_st(pre.reg, pre.mem, instr))
    } else if op == OpCodes::OP_STR.code() {
        mem_becomes(pre, post, s, spec_op_str(pre.reg, pre.mem, instr))
    } else if op == OpCodes::OP_STI.code() {
        sti_rel(pre, post, s, instr)
    } else if op == OpCodes::OP_TRAP.code() {
        trap_rel(pre, post, s, instr)
    } else if op == OpCodes::OP_RES.code() || op == OpCodes::OP_RTI.code() {
        stop_rel(pre, post, s, Step::Fatal(VmError::ReservedOpcode))
    } else {
        stop_rel(pre, post, s, Step::Fatal(VmError::UndefinedOpcode))
    }
}

/// The trap dispatch, by the low 8 bits of the TRAP instruction.
pub open spec fn trap_rel(pre: VmView, post: VmView, s: Step, instr: u16) -> bool {
    let tc = instr & 0xFF;
    if tc == TrapCode::GETC.code() {
        key_trap_rel(pre, post, s, Step::NeedKey)
    } else if tc == TrapCode::OUT.code() {
        output_trap_rel(pre, post, s, seq![low_byte(pre.reg[Reg::R0.position()])])
    } else if tc == TrapCode::PUTS.code() {
        output_trap_rel(pre, post, s, puts_seq(pre.mem, pre.reg[Reg::R0.position()] as int))
    } else if tc == TrapCode::IN.code() {
        key_trap_rel(pre, post, s, Step::NeedKeyPrompted)
    } else if tc == TrapCode::PUTSP.code() {
        output_trap_rel(pre, post, s, putsp_seq(pre.mem, pre.reg[Reg::R0.position()] as int))
    } else if tc == TrapCode::HALT.code() {
        stop_rel(pre, post, s, Step::Halted)
    } else {
        stop_rel(pre, post, s, Step::Fatal(VmError::UndefinedTrap))
    }
}

/// The second half of LDI: the word at the pending address lands in the
/// pending destination slot (polling first when needed).
pub open spec fn ldi_second_rel(pre: VmView, post: VmView, s: Step, dr: int, addr: u16) -> bool {
    load_rel(pre, post, s, dr, addr)
}

/// One micro-step of the machine, whatever its mode: a halted machine says
/// so and stays put; otherwise the pending fetch, execute, or second LDI
/// read runs as the relations above state.
pub open spec fn step_rel(pre: VmView, post: VmView, s: Step) -> bool {
    match pre.mode {
        Mode::Halted => s is Halted && post == pre,
        Mode::Fetch => fetch_rel(pre, post, s),
        Mode::Execute(instr) => execute_rel(pre, post, s, instr),
        Mode::LdiSecond(dr, addr) => ldi_second_rel(pre, post, s, dr as int, addr),
    }
}

/// Apply the poll a read of `addr` triggers. Returns false — changing
/// nothing — exactly when the read must wait for a key.
fn poll_for_read(m: &mut Machine, addr: u16) -> (ok: bool)
    requires
        old(m).wf(),
    ensures
        final(m).wf(),
        ok == !read_stalls(addr, old(m).key),
        !ok ==> *final(m) == *old(m),
        ok ==> final(m)@.mem == polled_mem(old(m)@.mem, addr, old(m).key),
        ok ==> final(m)@.key == key_after(addr, old(m).key),
        ok ==> final(m)@.reg == old(m)@.reg,
        ok ==> final(m)@.mode == old(m)@.mode,
{
    if addr == MemMapReg::MR_KBSR.addr() {
        match m.key {
            None => false,
            Some(k) => {
                mem_poll(&mut m.mem, k);
                m.key = None;
                true
            },
        }
    } else {
        true
    }
}

/// The fetch micro-step.
fn step_fetch(m: &mut Machine) -> (s: Step)
    requires
        old(m).wf(),
        old(m).mode == Mode::Fetch,
    ensures
        final(m).wf(),
        fetch_rel(old(m)@, final(m)@, s),
{
    let pc = m.reg[PC_IDX];
    if !poll_for_read(m, pc) {
        return Step::NeedKey;
    }
    let instr = mem_read(pc, &m.mem);
    let next_pc = u16::wrapping_add(pc, 1);
    m.reg.set(PC_IDX, next_pc);
    m.mode = Mode::Execute(instr);
    Step::Working
}

/// The execute micro-step: dispatch on the top 4 bits.
fn step_execute(m: &mut Machine, instr: u16) -> (s: Step)
    requires
        old(m).wf(),
        old(m).mode == Mode::Execute(instr),
    ensures
        final(m).wf(),
        execute_rel(old(m)@, final(m)@, s, instr),
{
    let op = instr >> 12;
    assert(op <= 15) by (bit_vector)
        requires
            op == instr >> 12,
    ;
    match OpCodes::from_u16(op) {
        Some(OpCodes::OP_ADD) => {
            op_add(&mut m.reg, instr);
            m.mode = Mode::Fetch;
            Step::Working
        },
        Some(OpCodes::OP_AND) => {
            op_and(&mut m.reg, instr);
            m.mode = Mode::Fetch;
            Step::Working
        },
        Some(OpCodes::OP_NOT) => {
            op_not(&mut m.reg, instr);
            m.mode = Mode::Fetch;
            Step::Working
        },
        Some(OpCodes::OP_BR) => {
            op_branch(&mut m.reg, instr);
            m.mode = Mode::Fetch;
            Step::Working
        },
        Some(OpCodes::OP_JMP) => {
            op_jump(&mut m.reg, instr);
            m.mode = Mode::Fetch;
            Step::Working
        },
        Some(OpCodes::OP_JSR) => {
            op_jsr(&mut m.reg, instr);
            m.mode = Mode::Fetch;
            Step::Working
        },
        Some(OpCodes::OP_LEA) => {
            op_lea(&mut m.reg, instr);
            m.mode = Mode::Fetch;
            Step::Working
        },
        Some(OpCodes::OP_LD) => {
            let pc_offset = sign_extend(instr & 0x1FF, 9);
            let addr = u16::wrapping_add(m.reg[PC_IDX], pc_offset);
            if !poll_for_read(m, addr) {
                return Step::NeedKey;
            }
            op_load(&mut m.reg, instr, &mut m.mem);
            m.mode = Mode::Fetch;
            Step::Working
        },
        Some(OpCodes::OP_LDR) => {
            let r1 = src1(instr);
            let offset = sign_extend(instr & 0x3F, 6);
            let addr = u16::wrapping_add(m.reg[r1], offset);
            if !poll_for_read(m, addr) {
                return Step::NeedKey;
            }
            op_ldr(&mut m.reg, instr, &mut m.mem);
            m.mode = Mode::Fetch;
            Step::Working
        },
        Some(OpCodes::OP_LDI) => {
            let pc_offset = sign_extend(instr & 0x1FF, 9);
            let addr = u16::wrapping_add(m.reg[PC_IDX], pc_offset);
            if !poll_for_read(m, addr) {
                return Step::NeedKey;
            }
            let indirect = mem_read(addr, &m.mem);
            let dr = dst(instr);
            m.mode = Mode::LdiSecond(dr, indirect);
            Step::Working
        },
        Some(OpCodes::OP_ST) => {
            op_st(&mut m.reg, instr, &mut m.mem);
            m.mode = Mode::Fetch;
            Step::Working
        },
        Some(OpCodes::OP_STR) => {
            op_str(&mut m.reg, instr, &mut m.mem);
            m.mode = Mode::Fetch;
            Step::Working
        },
        Some(OpCodes::OP_STI) => {
            let pc_offset = sign_extend(instr & 0x1FF, 9);
            let addr = u16::wrapping_add(m.reg[PC_IDX], pc_offset);
            if !poll_for_read(m, addr) {
                return Step::NeedKey;
            }
            op_sti(&mut m.reg, instr, &mut m.mem);
            m.mode = Mode::Fetch;
            Step::Working
        },
        Some(OpCodes::OP_TRAP) => step_trap(m, instr),
        Some(OpCodes::OP_RES) => {
            m.mode = Mode::Halted;
            Step::Fatal(VmError::ReservedOpcode)
        },
        Some(OpCodes::OP_RTI) => {
            m.mode = Mode::Halted;
            Step::Fatal(VmError::ReservedOpcode)
        },
        None => {
            m.mode = Mode::Halted;
            Step::Fatal(VmError::UndefinedOpcode)
        },
    }
}

/// The trap dispatch on the low 8 bits of a TRAP instruction.
fn step_trap(m: &mut Machine, instr: u16) -> (s: Step)
    requires
        old(m).wf(),
        instr >> 12 == OpCodes::OP_TRAP.code(),
    ensures
        final(m).wf(),
        trap_rel(old(m)@, final(m)@, s, instr),
{
    let tc = instr & 0xFF;
    match TrapCode::from_u16(tc) {
        Some(TrapCode::GETC) => {
            match m.key {
                None => Step::NeedKey,
                Some(k) => {
                    trap_getc(&mut m.reg, k);
                    m.key = None;
                    m.mode = Mode::Fetch;
                    Step::Working
                },
            }
        },
        Some(TrapCode::OUT) => {
            let b = trap_out(&m.reg);
            let mut out: Vec<u8> = Vec::new();
            out.push(b);
            assert(out@ =~= seq![low_byte(m.reg@[Reg::R0.position()])]);
            m.mode = Mode::Fetch;
            Step::Output(out)
        },
        Some(TrapCode::PUTS) => {
            let out = trap_puts(&m.reg, &m.mem);
            m.mode = Mode::Fetch;
            Step::Output(out)
        },
        Some(TrapCode::IN) => {
            match m.key {
                None => Step::NeedKeyPrompted,
                Some(k) => {
                    trap_in(&mut m.reg, k);
                    m.key = None;
                    m.mode = Mode::Fetch;
                    Step::Working
                },
            }
        },
        Some(TrapCode::PUTSP) => {
            let out = trap_putsp(&m.reg, &m.mem);
            m.mode = Mode::Fetch;
            Step::Output(out)
        },
        Some(TrapCode::HALT) => {
            m.mode = Mode::Halted;
            Step::Halted
        },
        None => {
            m.mode = Mode::Halted;
            Step::Fatal(VmError::UndefinedTrap)
        },
    }
}

/// The second read of LDI.
fn step_ldi_second(m: &mut Machine, dr: usize, addr: u16) -> (s: Step)
    requires
        old(m).wf(),
        old(m).mode == Mode::LdiSecond(dr, addr),
    ensures
        final(m).wf(),
        ldi_second_rel(old(m)@, final(m)@, s, dr as int, addr),
{
    if !poll_for_read(m, addr) {
        return Step::NeedKey;
    }
    let v = mem_read(addr, &m.mem);
    m.reg.set(dr, v);
    update_flags(dr, &mut m.reg);
    m.mode = Mode::Fetch;
    Step::Working
}

/// One micro-step: fetch, execute, or the pending second LDI read, as
/// `step_rel` states. When a key is needed and none is buffered, nothing
/// changes and the caller is asked for one.
pub fn step(m: &mut Machine) -> (s: Step)
    requires
        old(m).wf(),
    ensures
        final(m).wf(),
        step_rel(old(m)@, final(m)@, s),
{
    match m.mode {
        Mode::Halted => Step::Halted,
        Mode::Fetch => step_fetch(m),
        Mode::Execute(instr) => step_execute(m, instr),
        Mode::LdiSecond(dr, addr) => step_ldi_second(m, dr, addr),
    }
}

/// Splitting LDI into two micro-steps changes nothing: when neither of its
/// reads lands on the keyboard status register, the execute micro-step and
/// the pending second read together have exactly `op_ldi`'s effect — the
/// doubly indirect word in the destination register, memory untouched.
pub proof fn lemma_ldi_micro_steps_match(
    pre: VmView,
    mid: VmView,
    post: VmView,
    s1: Step,
    s2: Step,
    instr: u16,
    dr: usize,
    addr: u16,
)
    requires
        instr >> 12 == OpCodes::OP_LDI.code(),
        pc_rel_addr(pre.reg, instr) != MemMapReg::MR_KBSR.address(),
        pre.mem[pc_rel_addr(pre.reg, instr) as int] != MemMapReg::MR_KBSR.address(),
        execute_rel(pre, mid, s1, instr),
        mid.mode == Mode::LdiSecond(dr, addr),
        ldi_second_rel(mid, post, s2, dr as int, addr),
    ensures
        post.reg == spec_op_ldi(pre.reg, pre.mem, instr),
        post.mem == pre.mem,
        post.key == pre.key,
        post.mode == Mode::Fetch,
        s1 is Working,
        s2 is Working,
{
}

} // verus!
