use vstd::prelude::*;

verus! {

/// How a translation call failed. Every failure is fatal for that call alone:
/// the converter stays usable for later, independent calls.
///
/// The taxonomy keeps the pipeline stages apart: a source that does not
/// conform to its declared format fails with `Parse`, a well-parsed module
/// that breaks a semantic rule fails with `Validation`, and a validated
/// module the target back-end cannot render fails with `Generation`.
/// `UnknownStage` marks a caller-side contract violation: an explicit stage
/// selector outside the documented domain.
#[derive(Clone, Copy, Debug, PartialEq, Eq, Structural)]
pub enum ConvertError {
    /// The explicit stage selector is not one of the documented codes.
    UnknownStage,
    /// The source does not conform to the declared source format's grammar.
    Parse,
    /// The parsed module fails the validator's semantic rules.
    Validation,
    /// The validated module cannot be rendered in the target format.
    Generation,
}

} // verus!
