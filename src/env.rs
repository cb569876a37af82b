//! The two types of the ink! environment that the engine carries through:
//! account identifiers and the error of a failed transfer. Both are opaque
//! here; the engine never looks inside them.
use vstd::prelude::*;


verus! {

/// ink's 32-byte account identifier, carried through as an opaque value.
#[verifier::external_type_specification]
#[verifier::external_body]
pub struct ExAccountId(ink::primitives::AccountId);

/// The error that ink's environment reports for a failed call, such as a
/// transfer that the chain refused.
#[verifier::external_type_specification]
#[verifier::external_body]
pub struct ExEnvError(ink::env::Error);

} // verus!
