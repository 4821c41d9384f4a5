//! Helpers on bytes and text that several modules share.
use vstd::prelude::*;
use vstd::string::StringExecFns;
use vstd::utf8::encode_utf8_decode_utf8;

verus! {

/// Copies a slice of exactly `N` bytes into an array.
pub fn to_array<const N: usize>(bytes: &[u8]) -> (array: [u8; N])
    requires
        bytes@.len() == N,
    ensures
        array@ == bytes@,
{
    let mut array = [0u8;N];
    let mut i: usize = 0;
    while i < N
        invariant
            bytes@.len() == N,
            i <= N,
            forall|j: int| 0 <= j < i ==> array@[j] == bytes@[j],
        decreases N - i,
    {
        array[i] = bytes[i];
        i += 1;
    }
    assert(array@ =~= bytes@);
    array
}

/// Whether two byte strings are the same.
pub fn same_bytes(left: &[u8], right: &[u8]) -> (same: bool)
    ensures
        same == (left@ == right@),
{
    if left.len() != right.len() {
        return false;
    }
    let mut i: usize = 0;
    while i < left.len()
        invariant
            left@.len() == right@.len(),
            i <= left@.len(),
            forall|j: int| 0 <= j < i ==> left@[j] == right@[j],
        decreases left@.len() - i,
    {
        if left[i] != right[i] {
            return false;
        }
        i += 1;
    }
    assert(left@ =~= right@);
    true
}

/// Whether two texts are the same: they are where their UTF-8 bytes are.
pub fn same_text(left: &str, right: &str) -> (same: bool)
    ensures
        same == (left@ == right@),
{
    proof {
        encode_utf8_decode_utf8(left@);
        encode_utf8_decode_utf8(right@);
    }
    same_bytes(left.as_bytes(), right.as_bytes())
}

/// The two texts one after the other.
pub fn join_text(left: &str, right: &str) -> (joined: String)
    ensures
        joined@ == left@ + right@,
{
    left.to_owned().concat(right)
}

/// Whether an executable result of two texts holds the text, on either
/// side, of its model.
pub open spec fn same_texts(got: Result<String, String>, model: Result<Seq<char>, Seq<char>>) -> bool {
    match got {
        Ok(text) => model == Ok::<Seq<char>, Seq<char>>(text@),
        Err(message) => model == Err::<Seq<char>, Seq<char>>(message@),
    }
}

} // verus!
