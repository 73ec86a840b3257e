//! The clipboard bridge's validity rule: text handed to the host clipboard
//! travels as a NUL-terminated string, so content with an interior NUL
//! byte cannot be represented and is silently dropped; everything else is
//! passed through verbatim.
//!
//! The host clipboard calls themselves happen outside this crate; reading
//! malformed clipboard text likewise resolves to "no text" out there.
use vstd::prelude::*;

verus! {

/// What the clipboard-set call forwards: the bytes verbatim, or nothing
/// when an interior NUL makes them unrepresentable.
pub open spec fn clipboard_set_spec(bytes: Seq<u8>) -> Option<Seq<u8>> {
    if bytes.contains(0u8) {
        None
    } else {
        Some(bytes)
    }
}

/// Filters clipboard content before the host call: content with an
/// interior NUL byte is dropped, all other content passes verbatim.
pub fn clipboard_set_plan(bytes: Vec<u8>) -> (r: Option<Vec<u8>>)
    ensures
        (match r {
            Some(v) => clipboard_set_spec(bytes@) == Some(v@),
            None => clipboard_set_spec(bytes@) is None,
        }),
{
    let mut i: usize = 0;
    while i < bytes.len()
        invariant
            0 <= i <= bytes@.len(),
            forall|j: int| 0 <= j < i ==> bytes@[j] != 0u8,
        decreases bytes@.len() - i,
    {
        if bytes[i] == 0u8 {
            proof {
                assert(bytes@[i as int] == 0u8);
            }
            return None;
        }
        i += 1;
    }
    Some(bytes)
}

} // verus!
