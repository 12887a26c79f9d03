use vstd::prelude::*;

use crate::cpu::{spec_step, ActionV};
use crate::decode::{lemma_decode_wf, spec_decode, Instruction};
use crate::error::Chip8Error;
use crate::state::{tick_view, word_at, CpuView};

verus! {

/// A jump sets the program counter to exactly the decoded 12-bit address,
/// with no adjustment.
pub proof fn lemma_jump_exact(pre: CpuView, rb: u8, nnn: u16)
    requires
        spec_decode(word_at(pre.memory, pre.pc)) == Instruction::Jump(nnn),
    ensures
        spec_step(pre, rb) matches Ok((post, a)) && post.pc == nnn && a == ActionV::Continue,
{
}

/// Loading an immediate into register `x` and then copying register `x`
/// into any register `s` leaves `s` holding exactly the loaded value.
pub proof fn lemma_load_then_copy(
    pre: CpuView,
    mid: CpuView,
    post: CpuView,
    a1: ActionV,
    a2: ActionV,
    rb1: u8,
    rb2: u8,
    x: u8,
    v: u8,
    s: u8,
)
    requires
        pre.wf(),
        spec_decode(word_at(pre.memory, pre.pc)) == Instruction::LoadImm(x, v),
        spec_step(pre, rb1) == Ok::<(CpuView, ActionV), Chip8Error>((mid, a1)),
        spec_decode(word_at(mid.memory, mid.pc)) == Instruction::CopyReg(s, x),
        spec_step(mid, rb2) == Ok::<(CpuView, ActionV), Chip8Error>((post, a2)),
    ensures
        post.regs[s as int] == v,
{
    lemma_decode_wf(word_at(pre.memory, pre.pc));
    lemma_decode_wf(word_at(mid.memory, mid.pc));
}

/// Adding an immediate wraps modulo 256: the sum never leaves the byte
/// range and never fails.
pub proof fn lemma_add_immediate_wraps(pre: CpuView, rb: u8, x: u8, kk: u8)
    requires
        pre.wf(),
        spec_decode(word_at(pre.memory, pre.pc)) == Instruction::AddImm(x, kk),
    ensures
        spec_step(pre, rb) matches Ok((post, a)) && post.regs[x as int] == (pre.regs[x as int]
            + kk) % 256,
{
    lemma_decode_wf(word_at(pre.memory, pre.pc));
}

/// A call pushes the address of the following instruction and jumps; a
/// later return with that same stack restores the program counter to
/// exactly the instruction after the call. The call state may sit at any
/// depth below capacity, so this covers every nesting depth the stack
/// admits.
pub proof fn lemma_call_then_return(
    pre: CpuView,
    mid: CpuView,
    ret: CpuView,
    a1: ActionV,
    rb1: u8,
    rb2: u8,
    nnn: u16,
)
    requires
        pre.wf(),
        pre.sp < 16,
        pre.pc <= 0xFFE,
        spec_decode(word_at(pre.memory, pre.pc)) == Instruction::Call(nnn),
        spec_step(pre, rb1) == Ok::<(CpuView, ActionV), Chip8Error>((mid, a1)),
        ret.wf(),
        ret.stack == mid.stack,
        ret.sp == mid.sp,
        spec_decode(word_at(ret.memory, ret.pc)) == Instruction::Return,
    ensures
        mid.pc == nnn,
        mid.sp == pre.sp + 1,
        spec_step(ret, rb2) matches Ok((post, a)) && post.pc == pre.pc + 2 && post.sp == pre.sp,
{
}

/// A call with the stack already at capacity fails with a stack overflow.
pub proof fn lemma_call_overflow(pre: CpuView, rb: u8, nnn: u16)
    requires
        pre.sp == 16,
        spec_decode(word_at(pre.memory, pre.pc)) == Instruction::Call(nnn),
    ensures
        spec_step(pre, rb) == Err::<(CpuView, ActionV), Chip8Error>(Chip8Error::StackOverflow),
{
}

/// A return with an empty stack fails with a stack underflow.
pub proof fn lemma_return_underflow(pre: CpuView, rb: u8)
    requires
        pre.sp == 0,
        spec_decode(word_at(pre.memory, pre.pc)) == Instruction::Return,
    ensures
        spec_step(pre, rb) == Err::<(CpuView, ActionV), Chip8Error>(Chip8Error::StackUnderflow),
{
}

/// The state after `n` scheduler ticks.
pub open spec fn tick_n(s: CpuView, n: nat) -> CpuView
    decreases n,
{
    if n == 0 {
        s
    } else {
        tick_view(tick_n(s, (n - 1) as nat))
    }
}

/// Ticking a timer counts it down one per tick until it reaches zero, and
/// every further tick leaves it at zero: after `n` ticks a timer started at
/// `v` holds `v - n`, or zero once `n` has reached `v`.
pub proof fn lemma_timers_count_down(s: CpuView, n: nat)
    ensures
        tick_n(s, n).delay == if n >= s.delay { 0 } else { s.delay - n },
        tick_n(s, n).sound == if n >= s.sound { 0 } else { s.sound - n },
        tick_n(s, n) == (CpuView { delay: tick_n(s, n).delay, sound: tick_n(s, n).sound, ..s }),
    decreases n,
{
    if n > 0 {
        lemma_timers_count_down(s, (n - 1) as nat);
    }
}

/// A word whose opcode class is outside the implemented table fails with
/// `UnimplementedOpcode` carrying exactly that word and the program counter
/// it was fetched from. By the contract of the execute step, an `Err`
/// outcome leaves every register, memory byte and stack slot untouched.
pub proof fn lemma_unknown_opcode(pre: CpuView, rb: u8)
    requires
        spec_decode(word_at(pre.memory, pre.pc)) is Unknown,
    ensures
        spec_step(pre, rb) == Err::<(CpuView, ActionV), Chip8Error>(
            Chip8Error::UnimplementedOpcode(word_at(pre.memory, pre.pc), pre.pc),
        ),
{
}

} // verus!
