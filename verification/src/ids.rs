//! Identifiers. An identifier is a UUID; the library carries it as its 128-bit value
//! and leaves the textual form to the `uuid` crate.
use vstd::arithmetic::power::pow;
use vstd::prelude::*;

verus! {

/// The lower-case hexadecimal digit for `d`.
pub open spec fn hex_digit(d: int) -> char {
    if d < 10 {
        (48 + d) as char
    } else {
        (87 + d) as char
    }
}

/// The `k`-th of the 32 hexadecimal digits of `id`, the most significant first.
pub open spec fn id_digit(id: u128, k: int) -> char {
    hex_digit((id as int / pow(16, (31 - k) as nat)) % 16)
}

/// The hyphenated form of `id`: its digits in groups of 8, 4, 4, 4 and 12.
pub open spec fn hyphenated(id: u128) -> Seq<char> {
    Seq::new(
        36,
        |i: int|
            if i == 8 || i == 13 || i == 18 || i == 23 {
                '-'
            } else if i < 8 {
                id_digit(id, i)
            } else if i < 13 {
                id_digit(id, i - 1)
            } else if i < 18 {
                id_digit(id, i - 2)
            } else if i < 23 {
                id_digit(id, i - 3)
            } else {
                id_digit(id, i - 4)
            },
    )
}

/// What `uuid::Uuid::parse_str` makes of a text: the 128-bit value of the identifier,
/// or the crate's printed error where the text is in none of the forms it accepts.
pub uninterp spec fn parsed_id(text: Seq<char>) -> Result<u128, Seq<char>>;

/// A parse result with the error message taken by its characters.
pub open spec fn id_result(r: Result<u128, String>) -> Result<u128, Seq<char>> {
    match r {
        Ok(id) => Ok(id),
        Err(message) => Err(message@),
    }
}

/// Calls `uuid::Uuid::parse_str` and hands on the value's 128 bits, or the printed
/// error. Of the forms that the crate accepts only the one that it prints is spelled
/// out: the hyphenated form of an identifier is read back as that identifier.
#[verifier::external_body]
pub(crate) fn parse_id(text: &str) -> (r: Result<u128, String>)
    ensures
        id_result(r) == parsed_id(text@),
        forall|id: u128| text@ == #[trigger] hyphenated(id) ==> (r is Ok && r->Ok_0 == id),
{
    match uuid::Uuid::parse_str(text) {
        Ok(id) => Ok(id.as_u128()),
        Err(error) => Err(error.to_string()),
    }
}

/// Calls `uuid::Uuid::from_u128` and prints the value, which gives the hyphenated
/// form in lower case.
#[verifier::external_body]
pub(crate) fn id_text(id: u128) -> (r: String)
    ensures
        r@ == hyphenated(id),
{
    uuid::Uuid::from_u128(id).to_string()
}

/// The identifier of the Personal Workspace, which every installation shares.
pub const PERSONAL_WORKSPACE_ID: u128 = 1;

} // verus!
