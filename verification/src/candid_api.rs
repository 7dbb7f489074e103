use vstd::prelude::*;

verus! {

#[verifier::external_type_specification]
#[verifier::external_body]
pub struct ExCandidError(candid::Error);

#[verifier::external_type_specification]
#[verifier::external_body]
pub struct ExTypeEnv(candid::TypeEnv);

#[verifier::external_type_specification]
#[verifier::external_body]
pub struct ExFunction(candid::types::Function);

/// Relies on the display rendering of candid::Error for the operator-facing
/// description of a failed candid call.
#[verifier::external_body]
pub fn candid_error_text(e: &candid::Error) -> (r: String) {
    format!("{}", e)
}

} // verus!
