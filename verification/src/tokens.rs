//! Capability tokens: opaque UUIDs the receiver mints for each accepted
//! file.  The sender must echo a file's token when it streams that file.

use vstd::prelude::*;

verus! {

/// Whether `c` is a lowercase hexadecimal digit.
pub open spec fn is_hex_char(c: char) -> bool {
    ('0' <= c && c <= '9') || ('a' <= c && c <= 'f')
}

/// What the character at position `i` of a hyphenated UUID string may be:
/// a hyphen at positions 8, 13, 18 and 23, a hex digit elsewhere.
pub open spec fn uuid_char_ok(s: Seq<char>, i: int) -> bool {
    if i == 8 || i == 13 || i == 18 || i == 23 {
        s[i] == '-'
    } else {
        is_hex_char(s[i])
    }
}

/// Shape of a hyphenated, lowercase version-4 UUID string: 36 characters in
/// five hyphen-separated hex groups, with the version nibble `4` and the
/// variant nibble in `8`..`b`.
pub open spec fn is_uuid_chars(s: Seq<char>) -> bool {
    &&& s.len() == 36
    &&& forall|i: int| 0 <= i < 36 ==> uuid_char_ok(s, i)
    &&& s[14] == '4'
    &&& (s[19] == '8' || s[19] == '9' || s[19] == 'a' || s[19] == 'b')
}

/// Mint a fresh token.  Relies on `uuid::Uuid::new_v4`, which draws a random
/// version-4 UUID, and on its `Display` form: 36 lowercase hex characters in
/// hyphenated groups of 8-4-4-4-12, with the version and variant nibbles
/// fixed by the mask `new_v4` applies.  The draw is random, so nothing
/// relates one call's result to another's.
#[verifier::external_body]
pub(crate) fn new_uuid_string() -> (r: String)
    ensures
        is_uuid_chars(r@),
{
    uuid::Uuid::new_v4().to_string()
}

} // verus!
