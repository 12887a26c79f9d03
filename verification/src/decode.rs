use vstd::prelude::*;

verus! {

/// One decoded instruction form. Decoding is total: every 16-bit word maps to
/// exactly one variant, and words outside the implemented table map to
/// `Unknown`, which the execute step turns into an error without touching any
/// state.
///
/// Operands follow the conventional field names: `x` and `y` are register
/// indices drawn from the second and third nibble, `n` is the low nibble,
/// `kk` the low byte, and `nnn` the low twelve bits.
#[derive(Clone, Copy, Debug, PartialEq, Eq, Structural)]
pub enum Instruction {
    /// Ask the display collaborator to clear.
    ClearScreen,
    /// Pop a return address and jump there.
    Return,
    /// Set the program counter to `nnn`, absolute.
    Jump(u16),
    /// Push the address of the next instruction, then jump to `nnn`.
    Call(u16),
    /// Skip the next instruction if register `x` equals `kk`.
    SkipEqImm(u8, u8),
    /// Skip the next instruction if register `x` differs from `kk`.
    SkipNeImm(u8, u8),
    /// Skip the next instruction if registers `x` and `y` are equal.
    SkipEqReg(u8, u8),
    /// Set register `x` to `kk`.
    LoadImm(u8, u8),
    /// Add `kk` to register `x` with 8-bit wraparound.
    AddImm(u8, u8),
    /// Copy register `y` into register `x`.
    CopyReg(u8, u8),
    /// Set register `x` to `x | y`.
    OrReg(u8, u8),
    /// Set register `x` to `x & y`.
    AndReg(u8, u8),
    /// Set register `x` to `x ^ y`.
    XorReg(u8, u8),
    /// Skip the next instruction if registers `x` and `y` differ.
    SkipNeReg(u8, u8),
    /// Set the index register to `nnn`.
    SetIndex(u16),
    /// Set the program counter to `nnn` plus register 0.
    JumpOffset(u16),
    /// Set register `x` to a random byte ANDed with `kk`.
    RandomAnd(u8, u8),
    /// Draw `n` sprite rows read from the index register at the position
    /// given by registers `x` and `y`.
    Draw(u8, u8, u8),
    /// Copy register `x` into the delay timer.
    SetDelayTimer(u8),
    /// Copy register `x` into the sound timer.
    SetSoundTimer(u8),
    /// Add register `x` to the index register, wrapping in the 12-bit
    /// address space.
    AddToIndex(u8),
    /// No implemented form; executing it is a fatal error.
    Unknown,
}

/// What every word decodes to, as a function of the word alone.
pub open spec fn spec_decode(w: u16) -> Instruction {
    let a = w >> 12;
    let x = ((w >> 8) & 0xF) as u8;
    let y = ((w >> 4) & 0xF) as u8;
    let n = (w & 0xF) as u8;
    let kk = (w & 0xFF) as u8;
    let nnn = w & 0xFFF;
    if w == 0x00E0 {
        Instruction::ClearScreen
    } else if w == 0x00EE {
        Instruction::Return
    } else if a == 0x1 {
        Instruction::Jump(nnn)
    } else if a == 0x2 {
        Instruction::Call(nnn)
    } else if a == 0x3 {
        Instruction::SkipEqImm(x, kk)
    } else if a == 0x4 {
        Instruction::SkipNeImm(x, kk)
    } else if a == 0x5 && n == 0x0 {
        Instruction::SkipEqReg(x, y)
    } else if a == 0x6 {
        Instruction::LoadImm(x, kk)
    } else if a == 0x7 {
        Instruction::AddImm(x, kk)
    } else if a == 0x8 && n == 0x0 {
        Instruction::CopyReg(x, y)
    } else if a == 0x8 && n == 0x1 {
        Instruction::OrReg(x, y)
    } else if a == 0x8 && n == 0x2 {
        Instruction::AndReg(x, y)
    } else if a == 0x8 && n == 0x3 {
        Instruction::XorReg(x, y)
    } else if a == 0x9 && n == 0x0 {
        Instruction::SkipNeReg(x, y)
    } else if a == 0xA {
        Instruction::SetIndex(nnn)
    } else if a == 0xB {
        Instruction::JumpOffset(nnn)
    } else if a == 0xC {
        Instruction::RandomAnd(x, kk)
    } else if a == 0xD {
        Instruction::Draw(x, y, n)
    } else if a == 0xF && kk == 0x15 {
        Instruction::SetDelayTimer(x)
    } else if a == 0xF && kk == 0x18 {
        Instruction::SetSoundTimer(x)
    } else if a == 0xF && kk == 0x1E {
        Instruction::AddToIndex(x)
    } else {
        Instruction::Unknown
    }
}

/// Field bounds that hold of every decoded instruction: register indices and
/// sprite heights are nibbles, addresses are twelve bits.
pub open spec fn wf_instr(ins: Instruction) -> bool {
    match ins {
        Instruction::ClearScreen => true,
        Instruction::Return => true,
        Instruction::Jump(nnn) => nnn <= 0xFFF,
        Instruction::Call(nnn) => nnn <= 0xFFF,
        Instruction::SkipEqImm(x, _kk) => x < 16,
        Instruction::SkipNeImm(x, _kk) => x < 16,
        Instruction::SkipEqReg(x, y) => x < 16 && y < 16,
        Instruction::LoadImm(x, _kk) => x < 16,
        Instruction::AddImm(x, _kk) => x < 16,
        Instruction::CopyReg(x, y) => x < 16 && y < 16,
        Instruction::OrReg(x, y) => x < 16 && y < 16,
        Instruction::AndReg(x, y) => x < 16 && y < 16,
        Instruction::XorReg(x, y) => x < 16 && y < 16,
        Instruction::SkipNeReg(x, y) => x < 16 && y < 16,
        Instruction::SetIndex(nnn) => nnn <= 0xFFF,
        Instruction::JumpOffset(nnn) => nnn <= 0xFFF,
        Instruction::RandomAnd(x, _kk) => x < 16,
        Instruction::Draw(x, y, n) => x < 16 && y < 16 && n < 16,
        Instruction::SetDelayTimer(x) => x < 16,
        Instruction::SetSoundTimer(x) => x < 16,
        Instruction::AddToIndex(x) => x < 16,
        Instruction::Unknown => true,
    }
}

/// Every word decodes to a well-formed instruction.
pub proof fn lemma_decode_wf(w: u16)
    ensures
        wf_instr(spec_decode(w)),
{
    assert(((w >> 8) & 0xF) < 16 && ((w >> 4) & 0xF) < 16 && (w & 0xF) < 16 && (w & 0xFFF)
        <= 0xFFF) by (bit_vector);
}

/// Decode one instruction word into its form.
pub fn decode(w: u16) -> (r: Instruction)
    ensures
        r == spec_decode(w),
        wf_instr(r),
{
    proof {
        lemma_decode_wf(w);
    }
    let a = w >> 12;
    let x = ((w >> 8) & 0xF) as u8;
    let y = ((w >> 4) & 0xF) as u8;
    let n = (w & 0xF) as u8;
    let kk = (w & 0xFF) as u8;
    let nnn = w & 0xFFF;
    if w == 0x00E0 {
        Instruction::ClearScreen
    } else if w == 0x00EE {
        Instruction::Return
    } else if a == 0x1 {
        Instruction::Jump(nnn)
    } else if a == 0x2 {
        Instruction::Call(nnn)
    } else if a == 0x3 {
        Instruction::SkipEqImm(x, kk)
    } else if a == 0x4 {
        Instruction::SkipNeImm(x, kk)
    } else if a == 0x5 && n == 0x0 {
        Instruction::SkipEqReg(x, y)
    } else if a == 0x6 {
        Instruction::LoadImm(x, kk)
    } else if a == 0x7 {
        Instruction::AddImm(x, kk)
    } else if a == 0x8 && n == 0x0 {
        Instruction::CopyReg(x, y)
    } else if a == 0x8 && n == 0x1 {
        Instruction::OrReg(x, y)
    } else if a == 0x8 && n == 0x2 {
        Instruction::AndReg(x, y)
    } else if a == 0x8 && n == 0x3 {
        Instruction::XorReg(x, y)
    } else if a == 0x9 && n == 0x0 {
        Instruction::SkipNeReg(x, y)
    } else if a == 0xA {
        Instruction::SetIndex(nnn)
    } else if a == 0xB {
        Instruction::JumpOffset(nnn)
    } else if a == 0xC {
        Instruction::RandomAnd(x, kk)
    } else if a == 0xD {
        Instruction::Draw(x, y, n)
    } else if a == 0xF && kk == 0x15 {
        Instruction::SetDelayTimer(x)
    } else if a == 0xF && kk == 0x18 {
        Instruction::SetSoundTimer(x)
    } else if a == 0xF && kk == 0x1E {
        Instruction::AddToIndex(x)
    } else {
        Instruction::Unknown
    }
}

} // verus!
