use vstd::prelude::*;

verus! {

/// The failures that the programs report to the ledger platform.
#[derive(Clone, Copy, Debug, PartialEq, Eq, Structural)]
pub enum ProgramError {
    /// Malformed payload, unknown tag, or a declared record address that
    /// differs from its derivation.
    InvalidInstructionData,
    /// A declared account is not owned by, or not signed for, the expected
    /// program, or a forwarded call was rejected by its target.
    IncorrectProgramId,
    /// Fewer accounts were declared than the instruction needs.
    NotEnoughAccountKeys,
    /// No bump byte yields an off-curve address for the given seeds.
    InvalidSeeds,
    /// A stored record does not have its fixed serialized width.
    BorshIoError,
    /// An error reported by the platform itself, by its numeric code.
    Platform(u64),
}

} // verus!
