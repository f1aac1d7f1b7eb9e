//! Token generation: fixed-length random strings over the alphanumeric
//! alphabet, used as the public identifier (and primary key) of a paste.

use vstd::prelude::*;

verus! {

/// Number of characters in every generated token.
pub const TOKEN_LEN: usize = 10;

/// How many random bytes one token draw requests. Each byte yields a token
/// character with probability 62/64, so a draw of 64 bytes falls short of
/// the 10 characters needed only with negligible probability.
pub const TOKEN_DRAW_BYTES: usize = 64;

/// Why no token could be generated.
#[derive(Clone, Copy, PartialEq, Eq, Structural, Debug)]
pub enum TokenError {
    /// The operating system's randomness source failed, or rejection
    /// sampling ran out of drawn bytes before enough were accepted.
    RandomnessUnavailable,
}

/// A character of the token alphabet: an ASCII letter or digit.
pub open spec fn is_alphanumeric_char(c: char) -> bool {
    ('a' <= c && c <= 'z') || ('A' <= c && c <= 'Z') || ('0' <= c && c <= '9')
}

/// A well-formed token: exactly `TOKEN_LEN` characters, all alphanumeric.
pub open spec fn is_valid_token(t: Seq<char>) -> bool {
    &&& t.len() == TOKEN_LEN
    &&& forall|i: int| 0 <= i < t.len() ==> is_alphanumeric_char(t[i])
}

/// Relies on `String::push`: appends the given character to the end of the
/// string.
pub assume_specification[ String::push ](s: &mut String, ch: char)
    ensures
        final(s)@ == old(s)@.push(ch),
;

/// The error type of rand's fallible operations, carried through as a value.
#[verifier::external_type_specification]
#[verifier::external_body]
pub struct ExRandError(rand::Error);

/// Relies on `OsRng::try_fill_bytes`: on success the buffer was filled from
/// the operating system's randomness source, and a failure of that source
/// comes back as an error value, never a panic. Nothing is stated of the
/// bytes themselves: they depend on chance.
#[verifier::external_body]
fn try_random_bytes(n: usize) -> (r: Result<Vec<u8>, rand::Error>)
    ensures
        r matches Ok(b) ==> b@.len() == n,
{
    let mut buf = vec![0u8; n];
    match rand::RngCore::try_fill_bytes(&mut rand::rngs::OsRng, &mut buf) {
        Ok(()) => Ok(buf),
        Err(e) => Err(e),
    }
}

/// Map one random byte to a character of the token alphabet. The low six
/// bits pick one of 64 values; the 62 that stand for a letter or digit are
/// accepted and the other two rejected, so that accepted draws stay uniform
/// over the alphabet.
fn alphanumeric_from_byte(b: u8) -> (r: Option<char>)
    ensures
        r matches Some(c) ==> is_alphanumeric_char(c),
{
    let v: u8 = b & 0x3f;
    if v < 26 {
        Some((65 + v) as char)  // 'A' through 'Z'
    } else if v < 52 {
        Some((97 + (v - 26)) as char)  // 'a' through 'z'
    } else if v < 62 {
        Some((48 + (v - 52)) as char)  // '0' through '9'
    } else {
        None
    }
}

/// Generate a fresh paste token: `TOKEN_LEN` characters drawn uniformly from
/// the alphanumeric alphabet, by rejection sampling over random bytes. No
/// uniqueness guarantee: the design relies on the token space being large
/// enough that collisions are rare. The one failure is an unavailable
/// randomness source, and it comes back as a value, never a panic.
pub fn generate_token() -> (r: Result<String, TokenError>)
    ensures
        r matches Ok(t) ==> is_valid_token(t@),
{
    let bytes = match try_random_bytes(TOKEN_DRAW_BYTES) {
        Ok(b) => b,
        Err(_) => {
            return Err(TokenError::RandomnessUnavailable);
        },
    };
    let mut t = String::new();
    let mut made: usize = 0;
    let mut i: usize = 0;
    while i < bytes.len() && made < TOKEN_LEN
        invariant
            i <= bytes@.len(),
            made <= TOKEN_LEN,
            t@.len() == made,
            forall|j: int| 0 <= j < t@.len() ==> is_alphanumeric_char(t@[j]),
        decreases bytes@.len() - i,
    {
        match alphanumeric_from_byte(bytes[i]) {
            Some(c) => {
                t.push(c);
                made = made + 1;
            },
            None => {},
        }
        i = i + 1;
    }
    if made == TOKEN_LEN {
        Ok(t)
    } else {
        Err(TokenError::RandomnessUnavailable)
    }
}

} // verus!
