use vstd::prelude::*;

verus! {

/// The mathematical model of the interpreter state: what every contract of
/// the core speaks about. Sixteen 8-bit registers, 4096 bytes of memory, a
/// program counter, a 16-slot call stack with its pointer, a 12-bit index
/// register, and the two countdown timers.
#[verifier::ext_equal]
pub struct CpuView {
    pub regs: Seq<u8>,
    pub memory: Seq<u8>,
    pub pc: u16,
    pub stack: Seq<u16>,
    pub sp: int,
    pub index: u16,
    pub delay: u8,
    pub sound: u8,
}

impl CpuView {
    /// Well-formedness: the shape every reachable state keeps. The program
    /// counter itself is not bounded here, since a jump may aim past the
    /// fetchable range; the execute step demands a fetchable counter instead.
    pub open spec fn wf(self) -> bool {
        &&& self.regs.len() == 16
        &&& self.memory.len() == 4096
        &&& self.stack.len() == 16
        &&& 0 <= self.sp <= 16
        &&& self.index <= 0xFFF
    }

    pub open spec fn with_pc(self, pc: u16) -> CpuView {
        CpuView { pc, ..self }
    }

    pub open spec fn with_reg(self, x: int, v: u8) -> CpuView {
        CpuView { regs: self.regs.update(x, v), ..self }
    }

    pub open spec fn with_index(self, index: u16) -> CpuView {
        CpuView { index, ..self }
    }

    pub open spec fn with_delay(self, delay: u8) -> CpuView {
        CpuView { delay, ..self }
    }

    pub open spec fn with_sound(self, sound: u8) -> CpuView {
        CpuView { sound, ..self }
    }
}

/// The big-endian 16-bit instruction word held at address `pc`.
pub open spec fn word_at(mem: Seq<u8>, pc: u16) -> u16
    recommends
        pc + 1 < mem.len(),
{
    (mem[pc as int] * 256 + mem[pc as int + 1]) as u16
}

/// The built-in font table: sixteen glyphs, one per hexadecimal digit, each
/// five bytes encoding a 5-row, 4-pixel-wide bitmap.
pub open spec fn font_seq() -> Seq<u8> {
    seq![
        0xF0u8, 0x90, 0x90, 0x90, 0xF0,
        0x20, 0x60, 0x20, 0x20, 0x70,
        0xF0, 0x10, 0xF0, 0x80, 0xF0,
        0xF0, 0x10, 0xF0, 0x10, 0xF0,
        0x90, 0x90, 0xF0, 0x10, 0x10,
        0xF0, 0x80, 0xF0, 0x10, 0xF0,
        0xF0, 0x80, 0xF0, 0x90, 0xF0,
        0xF0, 0x10, 0x20, 0x40, 0x40,
        0xF0, 0x90, 0xF0, 0x90, 0xF0,
        0xF0, 0x90, 0xF0, 0x10, 0xF0,
        0xF0, 0x90, 0xF0, 0x90, 0x90,
        0xE0, 0x90, 0xE0, 0x90, 0xE0,
        0xF0, 0x80, 0x80, 0x80, 0xF0,
        0xE0, 0x90, 0x90, 0x90, 0xE0,
        0xF0, 0x80, 0xF0, 0x80, 0xF0,
        0xF0, 0x80, 0xF0, 0x80, 0x80,
    ]
}

/// Memory as `reset` leaves it: the font table at address 0, zero above it.
pub open spec fn reset_memory() -> Seq<u8> {
    Seq::new(4096, |j: int| if j < 80 { font_seq()[j] } else { 0u8 })
}

/// The state every session starts from: all zero but the font table, with
/// the program counter at the base of program space.
pub open spec fn reset_view() -> CpuView {
    CpuView {
        regs: Seq::new(16, |j: int| 0u8),
        memory: reset_memory(),
        pc: 0x200,
        stack: Seq::new(16, |j: int| 0u16),
        sp: 0,
        index: 0,
        delay: 0,
        sound: 0,
    }
}

/// Memory after a program is copied in at the base of program space, every
/// other byte untouched.
pub open spec fn mem_with_program(mem: Seq<u8>, prog: Seq<u8>) -> Seq<u8>
    recommends
        mem.len() == 4096,
        prog.len() <= 0xE00,
{
    Seq::new(mem.len(), |j: int| if 0x200 <= j < 0x200 + prog.len() {
        prog[j - 0x200]
    } else {
        mem[j]
    })
}

/// One scheduler tick: each nonzero timer counts down by one; a timer at
/// zero stays at zero. Nothing else moves.
pub open spec fn tick_view(s: CpuView) -> CpuView {
    CpuView {
        delay: if s.delay > 0 { (s.delay - 1) as u8 } else { 0u8 },
        sound: if s.sound > 0 { (s.sound - 1) as u8 } else { 0u8 },
        ..s
    }
}

} // verus!
