//! What a compilation produces.

use vstd::prelude::*;

verus! {

/// The shape of the artifact. It is chosen before the first compilation call
/// of a session and does not change afterwards.
#[derive(Debug, Clone, Copy, PartialEq, Eq, Structural)]
pub enum OutputType {
    /// An image in memory, to be relocated and run (the default).
    Memory,
    /// An executable file.
    Exe,
    /// A dynamic library.
    Dll,
    /// An object file.
    Obj,
    /// Preprocessed text only (the engine uses it internally).
    Preprocess,
}

impl OutputType {
    /// The number by which the engine knows this kind.
    pub open spec fn code_spec(self) -> int {
        match self {
            OutputType::Memory => 1,
            OutputType::Exe => 2,
            OutputType::Dll => 3,
            OutputType::Obj => 4,
            OutputType::Preprocess => 5,
        }
    }

    /// The number to hand to the engine's output-type selector.
    pub fn code(self) -> (c: i32)
        ensures
            c == self.code_spec(),
    {
        match self {
            OutputType::Memory => 1,
            OutputType::Exe => 2,
            OutputType::Dll => 3,
            OutputType::Obj => 4,
            OutputType::Preprocess => 5,
        }
    }
}

impl Default for OutputType {
    fn default() -> (r: OutputType)
        ensures
            r == OutputType::Memory,
    {
        OutputType::Memory
    }
}

/// No two kinds share a number, and every number lies between one and five.
pub proof fn lemma_codes_are_distinct(a: OutputType, b: OutputType)
    ensures
        a.code_spec() == b.code_spec() ==> a == b,
        1 <= a.code_spec() <= 5,
{
}

} // verus!
