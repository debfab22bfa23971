//! The calls into outside code that the library relies on, each behind a
//! small trusted wrapper.

use vstd::prelude::*;

verus! {

/// Relies on `uuid::Uuid::new_v4` and the `Display` form of `uuid::Uuid`:
/// a randomly generated 128-bit identifier, rendered as the 36-character
/// hyphenated token. Nothing is assumed about which token comes back, only
/// its rendered length. The call aborts the process if the operating
/// system's randomness source fails; that condition is environmental, not a
/// function of any input.
#[verifier::external_body]
pub(crate) fn fresh_user_id() -> (r: String)
    ensures
        r@.len() == 36,
{
    uuid::Uuid::new_v4().to_string()
}

/// Relies on `str`'s `PartialEq`: two string slices compare equal exactly
/// when they hold the same characters.
#[verifier::external_body]
pub(crate) fn str_eq(a: &str, b: &str) -> (r: bool)
    ensures
        r == (a@ == b@),
{
    a == b
}

/// Relies on std's `format!` machinery: formatting two string slices side by
/// side concatenates them.
#[verifier::external_body]
pub(crate) fn join_msg(prefix: &str, detail: &str) -> (r: String)
    ensures
        r@ == prefix@ + detail@,
{
    format!("{prefix}{detail}")
}

} // verus!
