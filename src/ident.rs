use vstd::prelude::*;

verus! {

/// A lower-case hexadecimal digit.
pub open spec fn is_lower_hex(c: char) -> bool {
    ('0' <= c && c <= '9') || ('a' <= c && c <= 'f')
}

/// The simple text form of a random (version 4) UUID: 32 lower-case hex
/// digits, the version digit `4` at index 12 and the variant digit, one of
/// `8`, `9`, `a`, `b`, at index 16.
pub open spec fn is_todo_id(s: Seq<char>) -> bool {
    &&& s.len() == 32
    &&& forall|i: int| 0 <= i < s.len() ==> #[trigger] is_lower_hex(s[i])
    &&& s[12] == '4'
    &&& (s[16] == '8' || s[16] == '9' || s[16] == 'a' || s[16] == 'b')
}

/// Relies on uuid::Uuid::new_v4 (random bits with the version nibble set to 4
/// and the variant bits to 10) and on the `Display` of uuid::fmt::Simple,
/// which writes the 16 bytes as 32 lower-case hex digits without hyphens.
/// Which identifier comes out is left open.
#[verifier::external_body]
pub(crate) fn fresh_todo_id() -> (r: String)
    ensures
        is_todo_id(r@),
{
    uuid::Uuid::new_v4().simple().to_string()
}

} // verus!
