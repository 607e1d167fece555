use vstd::prelude::*;

verus! {

/// Switches that select between the variants in which some instructions are
/// known.
#[derive(Debug, Copy, Clone, PartialEq, Eq, Structural)]
pub struct InstructionSettings {
    /// `8XY6` shifts the value of register `y` instead of that of register `x`.
    pub use_vy_in_8xy6: bool,
    /// `8XYE` shifts the value of register `y` instead of that of register `x`.
    pub use_vy_in_8xye: bool,
    /// `BNNN` adds the register named by its own high nibble instead of register 0.
    pub use_bxnn_instead_bnnn: bool,
    /// `FX1E` sets the flag register when the index register leaves the memory range.
    pub set_vf_on_overflow_in_fx1e: bool,
    /// `FX55` and `FX65` move the index register past the copied range.
    pub inc_i_in_fx55_and_fx65: bool,
}

impl InstructionSettings {
    /// The settings with every switch off.
    pub open spec fn spec_default() -> InstructionSettings {
        InstructionSettings {
            use_vy_in_8xy6: false,
            use_vy_in_8xye: false,
            use_bxnn_instead_bnnn: false,
            set_vf_on_overflow_in_fx1e: false,
            inc_i_in_fx55_and_fx65: false,
        }
    }
}

impl Default for InstructionSettings {
    fn default() -> (settings: InstructionSettings)
        ensures
            settings == InstructionSettings::spec_default(),
    {
        InstructionSettings {
            use_vy_in_8xy6: false,
            use_vy_in_8xye: false,
            use_bxnn_instead_bnnn: false,
            set_vf_on_overflow_in_fx1e: false,
            inc_i_in_fx55_and_fx65: false,
        }
    }
}

} // verus!
