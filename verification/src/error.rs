use vstd::prelude::*;

verus! {

/// The ways in which a machine operation can be refused.
///
/// Every refusal leaves the machine exactly as it was before the operation.
#[derive(Clone, Copy, Debug, PartialEq, Eq, Structural)]
pub enum EmuError {
    /// The opcode matches no instruction of the instruction set.
    UnknownInstruction { opcode: u16 },
    /// The program counter does not leave room for a two-byte opcode inside
    /// memory, or a skip or rewind would carry it outside the `u16` range.
    PcOutOfRange,
    /// An instruction would read or write memory past the last address.
    MemoryOutOfRange,
    /// A call was made with sixteen return addresses already on the stack.
    StackOverflow,
    /// A return was made with no return address on the stack.
    StackUnderflow,
    /// A key index outside `0x0..=0xF` was named by a register or a caller.
    KeyOutOfRange,
    /// A program does not fit between the program origin and the end of memory.
    RomTooLarge,
}

} // verus!
