//! Helpers for reading strings byte by byte.

use vstd::prelude::*;
use vstd::string::*;

verus! {

/// The bytes of an ASCII string, one per character; `None` for a string that
/// holds a character outside ASCII.
pub fn ascii_bytes(s: &str) -> (res: Option<&[u8]>)
    ensures
        match res {
            Some(bytes) => {
                &&& is_ascii(s)
                &&& bytes@.len() == s@.len()
                &&& forall|i: int| 0 <= i < s@.len() ==> bytes@[i] as int == s@[i] as int
            },
            None => !is_ascii(s),
        },
{
    if s.is_ascii() {
        let bytes = s.as_bytes();
        proof {
            is_ascii_spec_bytes(s);
            vstd::utf8::is_ascii_chars_nat_bound(s@);
        }
        Some(bytes)
    } else {
        None
    }
}

/// The characters of an optional string.
pub open spec fn text_view(text: Option<String>) -> Option<Seq<char>> {
    match text {
        Some(text) => Some(text@),
        None => None,
    }
}

/// The characters of an optional string slice.
pub open spec fn str_view(text: Option<&str>) -> Option<Seq<char>> {
    match text {
        Some(text) => Some(text@),
        None => None,
    }
}

/// Borrows an optional string as an optional string slice.
pub fn as_text(text: &Option<String>) -> (res: Option<&str>)
    ensures
        str_view(res) == text_view(*text),
{
    match text {
        Some(text) => Some(text.as_str()),
        None => None,
    }
}

/// Whether two strings hold the same characters.
pub fn same_text(a: &str, b: &str) -> (res: bool)
    ensures
        res == (a@ == b@),
{
    let left = a.as_bytes();
    let right = b.as_bytes();
    proof {
        vstd::utf8::encode_utf8_decode_utf8(a@);
        vstd::utf8::encode_utf8_decode_utf8(b@);
    }
    if left.len() != right.len() {
        return false;
    }
    let mut i: usize = 0;
    while i < left.len()
        invariant
            0 <= i <= left@.len(),
            left@.len() == right@.len(),
            left@ == a.spec_bytes(),
            right@ == b.spec_bytes(),
            forall|k: int| 0 <= k < i ==> left@[k] == right@[k],
        decreases left@.len() - i,
    {
        if left[i] != right[i] {
            return false;
        }
        i += 1;
    }
    assert(left@ =~= right@);
    true
}

} // verus!
