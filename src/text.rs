use vstd::prelude::*;

verus! {

/// Relies on std's `format!` with two `{}` arguments of type `&str`: the
/// result is the first string followed by the second.
#[verifier::external_body]
pub(crate) fn concat(a: &str, b: &str) -> (r: String)
    ensures
        r@ == a@ + b@,
{
    format!("{}{}", a, b)
}

} // verus!
