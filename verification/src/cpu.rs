use vstd::prelude::*;

use crate::decode::{decode, spec_decode, Instruction};
use crate::error::Chip8Error;
use crate::state::{
    font_seq, mem_with_program, reset_view, tick_view, word_at, CpuView,
};

verus! {

/// What the host must do after an execute step. The display is an external
/// collaborator, so a step that needs it hands the request out instead of
/// performing it.
#[derive(Debug)]
pub enum Action {
    /// Nothing to do; go on to the next step.
    Continue,
    /// Ask the display to clear.
    ClearScreen,
    /// Ask the display to draw `sprite` at the given origin, then report the
    /// collision outcome back through [`CPU::apply_draw_result`].
    Draw { sprite: Vec<u8>, x: u8, y: u8 },
}

/// The model of an [`Action`], with the sprite as a sequence.
pub enum ActionV {
    Continue,
    ClearScreen,
    Draw { sprite: Seq<u8>, x: u8, y: u8 },
}

impl View for Action {
    type V = ActionV;

    open spec fn view(&self) -> ActionV {
        match self {
            Action::Continue => ActionV::Continue,
            Action::ClearScreen => ActionV::ClearScreen,
            Action::Draw { sprite, x, y } => (ActionV::Draw {
                sprite: sprite@,
                x: *x,
                y: *y,
            }),
        }
    }
}

/// The `n` sprite rows read from memory starting at the index register,
/// addresses wrapping in the 4096-byte space.
pub open spec fn sprite_at(mem: Seq<u8>, index: u16, n: nat) -> Seq<u8> {
    Seq::new(n, |k: int| mem[(index + k) % 4096])
}

/// What one fetch-decode-execute step does, as a function of the prior state
/// and of the byte `rb` the random source hands back. Only the random-and
/// instruction reads `rb`; every other outcome is independent of it.
///
/// An `Err` outcome leaves the state exactly as it was.
pub open spec fn spec_step(pre: CpuView, rb: u8) -> Result<(CpuView, ActionV), Chip8Error> {
    let w = word_at(pre.memory, pre.pc);
    let pc2 = (pre.pc + 2) as u16;
    match spec_decode(w) {
        Instruction::ClearScreen => Ok((pre.with_pc(pc2), ActionV::ClearScreen)),
        Instruction::Return => if pre.sp == 0 {
            Err(Chip8Error::StackUnderflow)
        } else {
            Ok(
                (
                    (CpuView { pc: pre.stack[pre.sp - 1], sp: pre.sp - 1, ..pre }),
                    ActionV::Continue,
                ),
            )
        },
        Instruction::Jump(nnn) => Ok((pre.with_pc(nnn), ActionV::Continue)),
        Instruction::Call(nnn) => if pre.sp == 16 {
            Err(Chip8Error::StackOverflow)
        } else {
            Ok(
                (
                    (CpuView {
                        stack: pre.stack.update(pre.sp, pc2),
                        sp: pre.sp + 1,
                        pc: nnn,
                        ..pre
                    }),
                    ActionV::Continue,
                ),
            )
        },
        Instruction::SkipEqImm(x, kk) => Ok(
            (
                pre.with_pc(if pre.regs[x as int] == kk { (pre.pc + 4) as u16 } else { pc2 }),
                ActionV::Continue,
            ),
        ),
        Instruction::SkipNeImm(x, kk) => Ok(
            (
                pre.with_pc(if pre.regs[x as int] != kk { (pre.pc + 4) as u16 } else { pc2 }),
                ActionV::Continue,
            ),
        ),
        Instruction::SkipEqReg(x, y) => Ok(
            (
                pre.with_pc(
                    if pre.regs[x as int] == pre.regs[y as int] { (pre.pc + 4) as u16 } else { pc2 },
                ),
                ActionV::Continue,
            ),
        ),
        Instruction::LoadImm(x, kk) => Ok(
            (pre.with_reg(x as int, kk).with_pc(pc2), ActionV::Continue),
        ),
        Instruction::AddImm(x, kk) => Ok(
            (
                pre.with_reg(x as int, ((pre.regs[x as int] + kk) % 256) as u8).with_pc(pc2),
                ActionV::Continue,
            ),
        ),
        Instruction::CopyReg(x, y) => Ok(
            (pre.with_reg(x as int, pre.regs[y as int]).with_pc(pc2), ActionV::Continue),
        ),
        Instruction::OrReg(x, y) => Ok(
            (
                pre.with_reg(x as int, pre.regs[x as int] | pre.regs[y as int]).with_pc(pc2),
                ActionV::Continue,
            ),
        ),
        Instruction::AndReg(x, y) => Ok(
            (
                pre.with_reg(x as int, pre.regs[x as int] & pre.regs[y as int]).with_pc(pc2),
                ActionV::Continue,
            ),
        ),
        Instruction::XorReg(x, y) => Ok(
            (
                pre.with_reg(x as int, pre.regs[x as int] ^ pre.regs[y as int]).with_pc(pc2),
                ActionV::Continue,
            ),
        ),
        Instruction::SkipNeReg(x, y) => Ok(
            (
                pre.with_pc(
                    if pre.regs[x as int] != pre.regs[y as int] { (pre.pc + 4) as u16 } else { pc2 },
                ),
                ActionV::Continue,
            ),
        ),
        Instruction::SetIndex(nnn) => Ok((pre.with_index(nnn).with_pc(pc2), ActionV::Continue)),
        Instruction::JumpOffset(nnn) => Ok(
            (pre.with_pc((nnn + pre.regs[0]) as u16), ActionV::Continue),
        ),
        Instruction::RandomAnd(x, kk) => Ok(
            (pre.with_reg(x as int, rb & kk).with_pc(pc2), ActionV::Continue),
        ),
        Instruction::Draw(x, y, n) => Ok(
            (
                pre.with_pc(pc2),
                (ActionV::Draw {
                    sprite: sprite_at(pre.memory, pre.index, n as nat),
                    x: pre.regs[x as int],
                    y: pre.regs[y as int],
                }),
            ),
        ),
        Instruction::SetDelayTimer(x) => Ok(
            (pre.with_delay(pre.regs[x as int]).with_pc(pc2), ActionV::Continue),
        ),
        Instruction::SetSoundTimer(x) => Ok(
            (pre.with_sound(pre.regs[x as int]).with_pc(pc2), ActionV::Continue),
        ),
        Instruction::AddToIndex(x) => Ok(
            (
                pre.with_index(((pre.index + pre.regs[x as int]) % 0x1000) as u16).with_pc(pc2),
                ActionV::Continue,
            ),
        ),
        Instruction::Unknown => Err(Chip8Error::UnimplementedOpcode(w, pre.pc)),
    }
}

/// How one call of [`CPU::execute`] relates the prior state, the new state
/// and the returned value, for a given byte `rb` from the random source.
pub open spec fn step_matches(
    pre: CpuView,
    post: CpuView,
    r: Result<Action, Chip8Error>,
    rb: u8,
) -> bool {
    match spec_step(pre, rb) {
        Ok((p, a)) => r matches Ok(act) && act@ == a && post == p,
        Err(e) => r matches Err(got) && got == e && post == pre,
    }
}

/// The interpreter state: single owner of all mutable CPU state. Every
/// mutation goes through the operations below.
pub struct CPU {
    regs: Vec<u8>,
    memory: Vec<u8>,
    pc: u16,
    stack: Vec<u16>,
    sp: usize,
    i: u16,
    delay_timer: u8,
    sound_timer: u8,
}

impl View for CPU {
    type V = CpuView;

    closed spec fn view(&self) -> CpuView {
        CpuView {
            regs: self.regs@,
            memory: self.memory@,
            pc: self.pc,
            stack: self.stack@,
            sp: self.sp as int,
            index: self.i,
            delay: self.delay_timer,
            sound: self.sound_timer,
        }
    }
}

/// Relies on rand::random: draws a value from the thread-local generator.
/// Nothing is promised of the value; the caller states what holds of every
/// outcome.
pub assume_specification<T>[ rand::random::<T> ]() -> (r: T)
    where
        rand::distr::StandardUniform: rand::distr::Distribution<T>,
;

/// A vector of `n` copies of the byte `v`.
fn filled_bytes(n: usize, v: u8) -> (r: Vec<u8>)
    ensures
        r@.len() == n,
        forall|j: int| 0 <= j < n ==> r@[j] == v,
{
    let mut out: Vec<u8> = Vec::new();
    let mut k: usize = 0;
    while k < n
        invariant
            k <= n,
            out@.len() == k,
            forall|j: int| 0 <= j < k ==> out@[j] == v,
        decreases n - k,
    {
        out.push(v);
        k += 1;
    }
    out
}

/// A vector of `n` copies of the word `v`.
fn filled_words(n: usize, v: u16) -> (r: Vec<u16>)
    ensures
        r@.len() == n,
        forall|j: int| 0 <= j < n ==> r@[j] == v,
{
    let mut out: Vec<u16> = Vec::new();
    let mut k: usize = 0;
    while k < n
        invariant
            k <= n,
            out@.len() == k,
            forall|j: int| 0 <= j < k ==> out@[j] == v,
        decreases n - k,
    {
        out.push(v);
        k += 1;
    }
    out
}

/// The font table as bytes, exactly [`font_seq`].
fn font_table() -> (r: Vec<u8>)
    ensures
        r@ == font_seq(),
{
    let mut f: Vec<u8> = Vec::new();
    f.push(0xF0); f.push(0x90); f.push(0x90); f.push(0x90); f.push(0xF0);
    f.push(0x20); f.push(0x60); f.push(0x20); f.push(0x20); f.push(0x70);
    f.push(0xF0); f.push(0x10); f.push(0xF0); f.push(0x80); f.push(0xF0);
    f.push(0xF0); f.push(0x10); f.push(0xF0); f.push(0x10); f.push(0xF0);
    f.push(0x90); f.push(0x90); f.push(0xF0); f.push(0x10); f.push(0x10);
    f.push(0xF0); f.push(0x80); f.push(0xF0); f.push(0x10); f.push(0xF0);
    f.push(0xF0); f.push(0x80); f.push(0xF0); f.push(0x90); f.push(0xF0);
    f.push(0xF0); f.push(0x10); f.push(0x20); f.push(0x40); f.push(0x40);
    f.push(0xF0); f.push(0x90); f.push(0xF0); f.push(0x90); f.push(0xF0);
    f.push(0xF0); f.push(0x90); f.push(0xF0); f.push(0x10); f.push(0xF0);
    f.push(0xF0); f.push(0x90); f.push(0xF0); f.push(0x90); f.push(0x90);
    f.push(0xE0); f.push(0x90); f.push(0xE0); f.push(0x90); f.push(0xE0);
    f.push(0xF0); f.push(0x80); f.push(0x80); f.push(0x80); f.push(0xF0);
    f.push(0xE0); f.push(0x90); f.push(0x90); f.push(0x90); f.push(0xE0);
    f.push(0xF0); f.push(0x80); f.push(0xF0); f.push(0x80); f.push(0xF0);
    f.push(0xF0); f.push(0x80); f.push(0xF0); f.push(0x80); f.push(0x80);
    proof {
        assert(f@ =~= font_seq());
    }
    f
}

impl CPU {
    /// A fresh session: everything zero but the font table, the program
    /// counter at the base of program space.
    pub fn new() -> (c: CPU)
        ensures
            c@ == reset_view(),
            c@.wf(),
    {
        let mut c = CPU {
            regs: filled_bytes(16, 0),
            memory: filled_bytes(4096, 0),
            pc: 0x200,
            stack: filled_words(16, 0),
            sp: 0,
            i: 0,
            delay_timer: 0,
            sound_timer: 0,
        };
        c.reset();
        c
    }

    /// Zero all registers, memory, stack and timers, set the program counter
    /// to the base of program space, and install the font table at address 0.
    pub fn reset(&mut self)
        requires
            old(self)@.wf(),
        ensures
            final(self)@ == reset_view(),
            final(self)@.wf(),
    {
        self.regs = filled_bytes(16, 0);
        self.memory = filled_bytes(4096, 0);
        self.pc = 0x200;
        self.stack = filled_words(16, 0);
        self.sp = 0;
        self.i = 0;
        self.delay_timer = 0;
        self.sound_timer = 0;
        let f = font_table();
        let mut k: usize = 0;
        while k < 80
            invariant
                k <= 80,
                f@ == font_seq(),
                self.memory@.len() == 4096,
                forall|j: int| 0 <= j < k ==> self.memory@[j] == font_seq()[j],
                forall|j: int| k <= j < 4096 ==> self.memory@[j] == 0u8,
                self.regs@.len() == 16,
                forall|j: int| 0 <= j < 16 ==> self.regs@[j] == 0u8,
                self.stack@.len() == 16,
                forall|j: int| 0 <= j < 16 ==> self.stack@[j] == 0u16,
                self.pc == 0x200,
                self.sp == 0,
                self.i == 0,
                self.delay_timer == 0,
                self.sound_timer == 0,
            decreases 80 - k,
        {
            self.memory[k] = f[k];
            k += 1;
        }
        proof {
            assert(self@ =~= reset_view());
        }
    }

    /// Copy a program into memory at the base of program space, or refuse it
    /// whole if it does not fit. Succeeds exactly when the program fits; on
    /// failure nothing moves.
    pub fn load_program(&mut self, program: &[u8]) -> (r: Result<(), Chip8Error>)
        requires
            old(self)@.wf(),
        ensures
            final(self)@.wf(),
            program@.len() <= 0xE00 ==> r == Ok::<(), Chip8Error>(()) && final(self)@ == (CpuView {
                memory: mem_with_program(old(self)@.memory, program@),
                ..old(self)@
            }),
            program@.len() > 0xE00 ==> r == Err::<(), Chip8Error>(Chip8Error::ProgramTooLarge)
                && final(self)@ == old(self)@,
    {
        if program.len() > 0xE00 {
            return Err(Chip8Error::ProgramTooLarge);
        }
        let ghost pre = self@;
        let mut k: usize = 0;
        while k < program.len()
            invariant
                self@.wf(),
                program@.len() <= 0xE00,
                k <= program@.len(),
                self@ == (CpuView { memory: self@.memory, ..pre }),
                forall|j: int| 0x200 <= j < 0x200 + k ==> self@.memory[j] == program@[j - 0x200],
                forall|j: int|
                    0 <= j < 4096 && !(0x200 <= j < 0x200 + k) ==> self@.memory[j] == pre.memory[j],
            decreases program@.len() - k,
        {
            self.memory[0x200 + k] = program[k];
            k += 1;
        }
        proof {
            assert(self@.memory =~= mem_with_program(pre.memory, program@));
            assert(self@ =~= (CpuView { memory: mem_with_program(pre.memory, program@), ..pre }));
        }
        Ok(())
    }

    /// Store a return address on the call stack. Fails with `StackOverflow`,
    /// moving nothing, exactly when the stack already holds its capacity.
    pub fn push_return(&mut self, addr: u16) -> (r: Result<(), Chip8Error>)
        requires
            old(self)@.wf(),
        ensures
            final(self)@.wf(),
            old(self)@.sp == 16 ==> r == Err::<(), Chip8Error>(Chip8Error::StackOverflow)
                && final(self)@ == old(self)@,
            old(self)@.sp < 16 ==> r == Ok::<(), Chip8Error>(()) && final(self)@ == (CpuView {
                stack: old(self)@.stack.update(old(self)@.sp, addr),
                sp: old(self)@.sp + 1,
                ..old(self)@
            }),
    {
        if self.sp == 16 {
            Err(Chip8Error::StackOverflow)
        } else {
            self.stack[self.sp] = addr;
            self.sp = self.sp + 1;
            Ok(())
        }
    }

    /// Take the most recent return address off the call stack. Fails with
    /// `StackUnderflow`, moving nothing, exactly when the stack is empty.
    pub fn pop_return(&mut self) -> (r: Result<u16, Chip8Error>)
        requires
            old(self)@.wf(),
        ensures
            final(self)@.wf(),
            old(self)@.sp == 0 ==> r == Err::<u16, Chip8Error>(Chip8Error::StackUnderflow)
                && final(self)@ == old(self)@,
            old(self)@.sp > 0 ==> r == Ok::<u16, Chip8Error>(
                old(self)@.stack[old(self)@.sp - 1],
            ) && final(self)@ == (CpuView { sp: old(self)@.sp - 1, ..old(self)@ }),
    {
        if self.sp == 0 {
            Err(Chip8Error::StackUnderflow)
        } else {
            self.sp = self.sp - 1;
            Ok(self.stack[self.sp])
        }
    }

    /// One fetch-decode-execute step: read the two bytes at the program
    /// counter as a big-endian instruction word, decode it, apply its effect,
    /// and advance the counter by two unless the instruction set the counter
    /// itself. The whole behavior is [`spec_step`]; only the random-and
    /// instruction depends on the drawn byte, every other outcome is pinned
    /// with the byte taken as zero.
    pub fn execute(&mut self) -> (r: Result<Action, Chip8Error>)
        requires
            old(self)@.wf(),
            old(self)@.pc <= 0xFFE,
        ensures
            final(self)@.wf(),
            spec_decode(word_at(old(self)@.memory, old(self)@.pc)) is RandomAnd ==> exists|rb: u8|
                step_matches(old(self)@, final(self)@, r, rb),
            !(spec_decode(word_at(old(self)@.memory, old(self)@.pc)) is RandomAnd)
                ==> step_matches(old(self)@, final(self)@, r, 0),
    {
        let ghost pre = self@;
        let hi = self.memory[self.pc as usize];
        let lo = self.memory[self.pc as usize + 1];
        let w: u16 = (hi as u16) * 256 + (lo as u16);
        let pc2: u16 = self.pc + 2;
        let ins = decode(w);
        match ins {
            Instruction::ClearScreen => {
                self.pc = pc2;
                Ok(Action::ClearScreen)
            },
            Instruction::Return => {
                match self.pop_return() {
                    Ok(addr) => {
                        self.pc = addr;
                        Ok(Action::Continue)
                    },
                    Err(e) => Err(e),
                }
            },
            Instruction::Jump(nnn) => {
                self.pc = nnn;
                Ok(Action::Continue)
            },
            Instruction::Call(nnn) => {
                match self.push_return(pc2) {
                    Ok(_u) => {
                        self.pc = nnn;
                        Ok(Action::Continue)
                    },
                    Err(e) => Err(e),
                }
            },
            Instruction::SkipEqImm(x, kk) => {
                self.pc = if self.regs[x as usize] == kk {
                    pc2 + 2
                } else {
                    pc2
                };
                Ok(Action::Continue)
            },
            Instruction::SkipNeImm(x, kk) => {
                self.pc = if self.regs[x as usize] != kk {
                    pc2 + 2
                } else {
                    pc2
                };
                Ok(Action::Continue)
            },
            Instruction::SkipEqReg(x, y) => {
                self.pc = if self.regs[x as usize] == self.regs[y as usize] {
                    pc2 + 2
                } else {
                    pc2
                };
                Ok(Action::Continue)
            },
            Instruction::LoadImm(x, kk) => {
                self.regs[x as usize] = kk;
                self.pc = pc2;
                Ok(Action::Continue)
            },
            Instruction::AddImm(x, kk) => {
                let s: u16 = self.regs[x as usize] as u16 + kk as u16;
                self.regs[x as usize] = (s % 256) as u8;
                self.pc = pc2;
                Ok(Action::Continue)
            },
            Instruction::CopyReg(x, y) => {
                self.regs[x as usize] = self.regs[y as usize];
                self.pc = pc2;
                Ok(Action::Continue)
            },
            Instruction::OrReg(x, y) => {
                self.regs[x as usize] = self.regs[x as usize] | self.regs[y as usize];
                self.pc = pc2;
                Ok(Action::Continue)
            },
            Instruction::AndReg(x, y) => {
                self.regs[x as usize] = self.regs[x as usize] & self.regs[y as usize];
                self.pc = pc2;
                Ok(Action::Continue)
            },
            Instruction::XorReg(x, y) => {
                self.regs[x as usize] = self.regs[x as usize] ^ self.regs[y as usize];
                self.pc = pc2;
                Ok(Action::Continue)
            },
            Instruction::SkipNeReg(x, y) => {
                self.pc = if self.regs[x as usize] != self.regs[y as usize] {
                    pc2 + 2
                } else {
                    pc2
                };
                Ok(Action::Continue)
            },
            Instruction::SetIndex(nnn) => {
                self.i = nnn;
                self.pc = pc2;
                Ok(Action::Continue)
            },
            Instruction::JumpOffset(nnn) => {
                self.pc = nnn + self.regs[0] as u16;
                Ok(Action::Continue)
            },
            Instruction::RandomAnd(x, kk) => {
                let rbyte: u8 = rand::random();
                self.regs[x as usize] = rbyte & kk;
                self.pc = pc2;
                let res = Ok(Action::Continue);
                proof {
                    assert(step_matches(pre, self@, res, rbyte));
                }
                res
            },
            Instruction::Draw(x, y, n) => {
                let mut sprite: Vec<u8> = Vec::new();
                let mut k: usize = 0;
                while k < n as usize
                    invariant
                        self@ == pre,
                        self@.wf(),
                        n < 16,
                        k <= n,
                        sprite@.len() == k,
                        forall|t: int|
                            0 <= t < k ==> sprite@[t] == self@.memory[(self@.index + t) % 4096],
                    decreases n - k,
                {
                    let addr: usize = (self.i as usize + k) % 4096;
                    sprite.push(self.memory[addr]);
                    k += 1;
                }
                proof {
                    assert(sprite@ =~= sprite_at(pre.memory, pre.index, n as nat));
                }
                self.pc = pc2;
                let px = self.regs[x as usize];
                let py = self.regs[y as usize];
                Ok(Action::Draw { sprite, x: px, y: py })
            },
            Instruction::SetDelayTimer(x) => {
                self.delay_timer = self.regs[x as usize];
                self.pc = pc2;
                Ok(Action::Continue)
            },
            Instruction::SetSoundTimer(x) => {
                self.sound_timer = self.regs[x as usize];
                self.pc = pc2;
                Ok(Action::Continue)
            },
            Instruction::AddToIndex(x) => {
                self.i = (self.i + self.regs[x as usize] as u16) % 0x1000;
                self.pc = pc2;
                Ok(Action::Continue)
            },
            Instruction::Unknown => Err(Chip8Error::UnimplementedOpcode(w, self.pc)),
        }
    }

    /// Record the outcome of a draw the host performed: the collision flag,
    /// register 15, becomes 1 when the display reported a collision and 0
    /// when it did not. Nothing else moves.
    pub fn apply_draw_result(&mut self, collision: bool)
        requires
            old(self)@.wf(),
        ensures
            final(self)@.wf(),
            final(self)@ == old(self)@.with_reg(15, if collision { 1u8 } else { 0u8 }),
    {
        self.regs[15] = if collision {
            1
        } else {
            0
        };
        proof {
            assert(self@ =~= old(self)@.with_reg(15, if collision { 1u8 } else { 0u8 }));
        }
    }

    /// One tick of the timer scheduler: each nonzero timer counts down by
    /// one, a timer at zero stays at zero. The host calls this at its own
    /// fixed cadence (60 Hz), never once per instruction.
    pub fn tick_timers(&mut self)
        ensures
            final(self)@ == tick_view(old(self)@),
    {
        if self.delay_timer > 0 {
            self.delay_timer = self.delay_timer - 1;
        }
        if self.sound_timer > 0 {
            self.sound_timer = self.sound_timer - 1;
        }
        proof {
            assert(self@ =~= tick_view(old(self)@));
        }
    }

    /// The value of general-purpose register `x`.
    pub fn reg(&self, x: u8) -> (r: u8)
        requires
            self@.wf(),
            x < 16,
        ensures
            r == self@.regs[x as int],
    {
        self.regs[x as usize]
    }

    /// The program counter.
    pub fn pc(&self) -> (r: u16)
        ensures
            r == self@.pc,
    {
        self.pc
    }

    /// The index register.
    pub fn index_reg(&self) -> (r: u16)
        ensures
            r == self@.index,
    {
        self.i
    }

    /// The delay timer.
    pub fn delay_timer(&self) -> (r: u8)
        ensures
            r == self@.delay,
    {
        self.delay_timer
    }

    /// The sound timer.
    pub fn sound_timer(&self) -> (r: u8)
        ensures
            r == self@.sound,
    {
        self.sound_timer
    }

    /// The byte held at memory address `addr`.
    pub fn mem_at(&self, addr: u16) -> (r: u8)
        requires
            self@.wf(),
            addr < 4096,
        ensures
            r == self@.memory[addr as int],
    {
        self.memory[addr as usize]
    }

    /// How many return addresses the call stack holds.
    pub fn stack_depth(&self) -> (r: usize)
        ensures
            r == self@.sp,
    {
        self.sp
    }
}

} // verus!
