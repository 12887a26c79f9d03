use vstd::prelude::*;

verus! {

/// The error kinds of the emulation core. All of them are terminal to the
/// current session: CPU state after a failed instruction is not well defined
/// for continuation, so nothing is retried internally.
#[derive(Clone, Copy, Debug, PartialEq, Eq, Structural)]
pub enum Chip8Error {
    /// The program does not fit into memory above the reserved region.
    ProgramTooLarge,
    /// A call was made while the call stack already held its full capacity.
    StackOverflow,
    /// A return was executed with an empty call stack.
    StackUnderflow,
    /// The fetched instruction word decodes to no known form; carries the
    /// word itself and the program counter it was fetched from.
    UnimplementedOpcode(u16, u16),
    /// The display or input collaborator failed; propagated unchanged by the
    /// host. The verified core itself never produces it.
    CollaboratorFailure,
}

} // verus!
