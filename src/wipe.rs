use vstd::prelude::*;
use zeroize::Zeroize;

verus! {

/// Relies on `zeroize`'s `Zeroize` for `Vec<u8>`: it overwrites every byte of
/// the allocation with zero and then clears the vector.
#[verifier::external_body]
pub fn wipe_bytes(v: &mut Vec<u8>)
    ensures
        final(v)@ == Seq::<u8>::empty(),
    opens_invariants none
    no_unwind
{
    v.zeroize();
}

/// Relies on `zeroize`'s `Zeroize` for `String`: it zeroes the string's
/// buffer as for `Vec<u8>` and leaves the string empty.
#[verifier::external_body]
pub fn wipe_text(s: &mut String)
    ensures
        final(s)@ == Seq::<char>::empty(),
    opens_invariants none
    no_unwind
{
    s.zeroize();
}

/// Relies on `String::new`: an empty string, made without allocating, so
/// that it neither panics nor touches any shared state.
#[verifier::external_body]
pub fn empty_text() -> (r: String)
    ensures
        r@ == Seq::<char>::empty(),
    opens_invariants none
    no_unwind
{
    String::new()
}

} // verus!
