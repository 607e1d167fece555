use vstd::prelude::*;

verus! {

/// Why a program could not be loaded.
#[derive(Debug, Copy, Clone, PartialEq, Eq, Structural)]
pub enum LoadingError {
    /// The program does not fit between the load address and the end of memory.
    RomTooLarge,
}

/// Why an instruction could not be carried out.
#[derive(Debug, Copy, Clone, PartialEq, Eq, Structural)]
pub enum ExecutionError {
    /// A return was executed while the call stack was empty.
    StackUnderflow,
    /// A register index outside 0..=15 was used.
    RegisterIndexOutOfRange(u8),
    /// A memory cell outside the 4096 bytes of memory was addressed.
    MemoryAccessOutOfBounds,
    /// The instruction word matches no instruction.
    UnknownInstruction(u16),
}

/// Any failure that the machine reports.
#[derive(Debug, Copy, Clone, PartialEq, Eq, Structural)]
pub enum EmulatorError {
    Loading(LoadingError),
    /// A step failed; `address` is where the instruction was fetched and
    /// `instruction` is the raw instruction word.
    Execution { address: u16, instruction: u16, source: ExecutionError },
}

impl From<LoadingError> for EmulatorError {
    fn from(error: LoadingError) -> (result: EmulatorError) {
        EmulatorError::Loading(error)
    }
}

impl vstd::std_specs::convert::FromSpecImpl<LoadingError> for EmulatorError {
    open spec fn obeys_from_spec() -> bool {
        true
    }

    open spec fn from_spec(error: LoadingError) -> EmulatorError {
        EmulatorError::Loading(error)
    }
}

impl EmulatorError {
    /// The cause of a failed step; `None` for a loading failure.
    pub fn execution_source(&self) -> (source: Option<ExecutionError>)
        ensures
            source == match *self {
                EmulatorError::Loading(_) => None::<ExecutionError>,
                EmulatorError::Execution { source, .. } => Some(source),
            },
    {
        match self {
            EmulatorError::Loading(_) => None,
            EmulatorError::Execution { source, .. } => Some(*source),
        }
    }
}

} // verus!
