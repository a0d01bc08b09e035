//! Random 128-bit identifiers and their textual form.

use crate::errors::VoipError;
use vstd::prelude::*;

verus! {

/// The lowercase hexadecimal digit of a value below sixteen.
pub open spec fn hex_char(n: int) -> char {
    if n == 0 {
        '0'
    } else if n == 1 {
        '1'
    } else if n == 2 {
        '2'
    } else if n == 3 {
        '3'
    } else if n == 4 {
        '4'
    } else if n == 5 {
        '5'
    } else if n == 6 {
        '6'
    } else if n == 7 {
        '7'
    } else if n == 8 {
        '8'
    } else if n == 9 {
        '9'
    } else if n == 10 {
        'a'
    } else if n == 11 {
        'b'
    } else if n == 12 {
        'c'
    } else if n == 13 {
        'd'
    } else if n == 14 {
        'e'
    } else {
        'f'
    }
}

/// The `k`-th of the 32 hexadecimal digits of `id`, counted from the most
/// significant.
pub open spec fn id_hex_digit(id: u128, k: int) -> char {
    hex_char(((id >> ((4 * (31 - k)) as u128)) & 0xf) as int)
}

/// How many hyphens stand before position `i` of the hyphenated form.
pub open spec fn hyphens_before(i: int) -> int {
    if i < 8 {
        0
    } else if i < 13 {
        1
    } else if i < 18 {
        2
    } else if i < 23 {
        3
    } else {
        4
    }
}

/// The hyphenated form of an identifier: 32 lowercase hexadecimal digits in
/// groups of 8, 4, 4, 4 and 12, separated by hyphens.
pub open spec fn id_text(id: u128) -> Seq<char> {
    Seq::new(
        36,
        |i: int|
            if i == 8 || i == 13 || i == 18 || i == 23 {
                '-'
            } else {
                id_hex_digit(id, i - hyphens_before(i))
            },
    )
}

/// Whether `id` carries the marks of a random (version 4, RFC 4122)
/// identifier: version nibble 4 and variant bits `10`.
pub open spec fn is_random_id(id: u128) -> bool {
    (id >> 76) & 0xf == 4 && (id >> 62) & 0x3 == 2
}

/// The identifier that a text denotes, in any of the forms the identifier
/// library reads, or `None` where it reads none.
pub uninterp spec fn parsed_id(text: Seq<char>) -> Option<u128>;

/// `uuid::Error`, which says why a text is no identifier. Its inside is not
/// looked at; only its display text is read.
#[verifier::external_type_specification]
#[verifier::external_body]
pub struct ExUuidError(uuid::Error);

/// Draws a fresh identifier with `uuid::Uuid::new_v4` and returns its 128-bit
/// value. The value is random; the contract states only the version and
/// variant bits, which `new_v4` sets on every identifier it returns. The call
/// panics if the operating system cannot supply random bytes.
#[verifier::external_body]
pub(crate) fn fresh_id() -> (id: u128)
    ensures
        is_random_id(id),
{
    uuid::Uuid::new_v4().as_u128()
}

/// Writes an identifier as `uuid::Uuid` displays it: `Uuid::from_u128(id)`
/// rendered with `Display`, which is the lowercase hyphenated form. The
/// identifier library reads that form back to the same identifier.
#[verifier::external_body]
fn render_id(id: u128) -> (text: String)
    ensures
        text@ == id_text(id),
        parsed_id(text@) == Some(id),
{
    uuid::Uuid::from_u128(id).to_string()
}

/// Reads an identifier with `uuid::Uuid::parse_str` and returns its 128-bit
/// value. The contract only names the outcome: it is a function of the text.
#[verifier::external_body]
fn read_id(text: &str) -> (r: Result<u128, uuid::Error>)
    ensures
        r is Ok <==> parsed_id(text@) is Some,
        r matches Ok(id) ==> parsed_id(text@) == Some(id),
{
    uuid::Uuid::parse_str(text).map(|u| u.as_u128())
}

/// The message that `uuid::Error` displays for a failed parse.
#[verifier::external_body]
fn id_error_text(e: &uuid::Error) -> (text: String) {
    e.to_string()
}

/// The hyphenated text of an identifier.
pub fn id_to_string(id: u128) -> (text: String)
    ensures
        text@ == id_text(id),
        text@.len() == 36,
        parsed_id(text@) == Some(id),
{
    render_id(id)
}

/// What a parse returns for each outcome of reading the text: the identifier,
/// or a validation error that carries the reader's message.
pub fn parse_outcome(read: Result<u128, String>) -> (r: Result<u128, VoipError>)
    ensures
        read matches Ok(id) ==> r == Ok::<u128, VoipError>(id),
        read matches Err(m) ==> r == Err::<u128, VoipError>(VoipError::Validation(m)),
{
    match read {
        Ok(id) => Ok(id),
        Err(message) => Err(VoipError::Validation(message)),
    }
}

/// Reads an identifier from text. Fails with a validation error exactly where
/// the text denotes no identifier.
pub fn parse_id(text: &str) -> (r: Result<u128, VoipError>)
    ensures
        r is Ok <==> parsed_id(text@) is Some,
        r matches Ok(id) ==> parsed_id(text@) == Some(id),
        r matches Err(e) ==> e is Validation,
{
    match read_id(text) {
        Ok(id) => parse_outcome(Ok(id)),
        Err(e) => parse_outcome(Err(id_error_text(&e))),
    }
}

} // verus!
