//! Fresh ids for stored items.

use vstd::prelude::*;

verus! {

/// Whether `c` is a hexadecimal digit written with a small letter.
pub open spec fn is_hex_digit(c: char) -> bool {
    ('0' <= c <= '9') || ('a' <= c <= 'f')
}

/// Whether `id` has the form of a random UUID without hyphens: 32 hexadecimal digits,
/// with the version digit 4 and a variant digit between 8 and b.
pub open spec fn is_fresh_id(id: Seq<char>) -> bool {
    &&& id.len() == 32
    &&& forall|i: int| 0 <= i < id.len() ==> is_hex_digit(#[trigger] id[i])
    &&& id[12] == '4'
    &&& (id[16] == '8' || id[16] == '9' || id[16] == 'a' || id[16] == 'b')
}

/// `uuid::Uuid::new_v4`, written by `simple` and `to_string`: a random UUID as 32
/// hexadecimal digits in small letters, without hyphens. Which one it is rests on
/// chance, so only its form is stated.
#[verifier::external_body]
pub(crate) fn fresh_id() -> (r: String)
    ensures
        is_fresh_id(r@),
{
    uuid::Uuid::new_v4().simple().to_string()
}

} // verus!
