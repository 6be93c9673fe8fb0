//! The form of a display id.
//!
//! A display id is written in upper case, takes 6 to 16 bytes, and holds
//! letters, digits, dashes and underscores only.

use crate::text::{alphanumeric, is_alphanumeric, to_uppercase, uppercase_of};
use vstd::prelude::*;
use vstd::string::*;

verus! {

pub const MIN_ID_LEN: usize = 6;

pub const MAX_ID_LEN: usize = 16;

/// The characters that an id may hold.
pub open spec fn id_char(c: char) -> bool {
    alphanumeric(c) || c == '-' || c == '_'
}

/// The form that an id must have: its length in bytes and its characters.
pub open spec fn valid_id(id: Seq<char>) -> bool {
    &&& MIN_ID_LEN <= vstd::utf8::encode_utf8(id).len() <= MAX_ID_LEN
    &&& forall|i: int| 0 <= i < id.len() ==> id_char(#[trigger] id[i])
}

/// An id as it is kept: in upper case.
pub fn normalize_id(id: &str) -> (r: String)
    ensures
        r@ == uppercase_of(id@),
{
    to_uppercase(id)
}

pub fn is_valid_id(id: &str) -> (r: bool)
    ensures
        r == valid_id(id@),
{
    let bytes: usize = id.as_bytes().len();
    if bytes < MIN_ID_LEN || bytes > MAX_ID_LEN {
        return false;
    }
    let count: usize = id.unicode_len();
    let mut i: usize = 0;
    while i < count
        invariant
            MIN_ID_LEN <= vstd::utf8::encode_utf8(id@).len() <= MAX_ID_LEN,
            count == id@.len(),
            i <= count,
            forall|j: int| 0 <= j < i ==> id_char(#[trigger] id@[j]),
        decreases count - i,
    {
        let c: char = id.get_char(i);
        if !(is_alphanumeric(c) || c == '-' || c == '_') {
            return false;
        }
        i += 1;
    }
    true
}

} // verus!
