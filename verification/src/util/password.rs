use vstd::prelude::*;
use argon2::password_hash::rand_core::OsRng;
use argon2::password_hash::SaltString;
use argon2::{Argon2, PasswordHash, PasswordHasher, PasswordVerifier};

verus! {

/// Whether argon2's `PasswordHash::new` reads `phc` as a PHC hash string.
pub uninterp spec fn phc_parses(phc: Seq<char>) -> bool;

/// Whether `Argon2::default().verify_password` accepts `password` (its UTF-8 bytes)
/// against the PHC hash string `phc`.
pub uninterp spec fn argon2_accepts(password: Seq<u8>, phc: Seq<char>) -> bool;

/// The UTF-8 bytes of a text.
pub open spec fn utf8_bytes(s: Seq<char>) -> Seq<u8> {
    vstd::utf8::encode_utf8(s)
}

/// argon2's `PasswordHash::new(phc)`: tells whether the string parses as a PHC hash.
#[verifier::external_body]
pub(crate) fn hash_string_parses(phc: &str) -> (ok: bool)
    ensures
        ok == phc_parses(phc@),
{
    PasswordHash::new(phc).is_ok()
}

/// argon2's `Argon2::default().verify_password(password, &hash)`, on the hash that
/// `PasswordHash::new(phc)` parses: tells whether the password matches. The parse
/// is the conversion of the argument; its failure, ruled out by `requires`, would
/// answer `false`.
#[verifier::external_body]
pub(crate) fn password_matches(password: &str, phc: &str) -> (ok: bool)
    requires
        phc_parses(phc@),
    ensures
        ok == argon2_accepts(utf8_bytes(password@), phc@),
{
    match PasswordHash::new(phc) {
        Ok(parsed) => Argon2::default().verify_password(password.as_bytes(), &parsed).is_ok(),
        Err(_) => false,
    }
}

/// argon2's `Argon2::default().hash_password` with a fresh salt from the OS random
/// source (`SaltString::generate(&mut OsRng)`), written out as a PHC string. The
/// result depends on the salt; what holds of every outcome, as the crate's
/// documentation shows it, is that a hash that was made parses again and verifies the
/// password it was made from. With the default parameters and the 16-byte salt that
/// `generate` makes, argon2's input checks refuse only a password longer than
/// `0xFFFF_FFFF` bytes, so every shorter password gets a hash. (A failing OS random
/// source makes `generate` panic; that depends on no input.)
#[verifier::external_body]
pub(crate) fn hash_new_password(password: &str) -> (r: Option<String>)
    ensures
        r matches Some(h) ==> phc_parses(h@) && argon2_accepts(utf8_bytes(password@), h@),
        utf8_bytes(password@).len() <= 0xFFFF_FFFF ==> r is Some,
{
    let salt = SaltString::generate(&mut OsRng);
    Argon2::default().hash_password(password.as_bytes(), &salt).map(|ph| ph.to_string()).ok()
}

/// The length in bytes of a text, what `str::len` answers.
pub open spec fn byte_len(s: Seq<char>) -> nat {
    utf8_bytes(s).len()
}

/// Passwords must be at least 8 bytes long.
pub open spec fn password_long_enough(s: Seq<char>) -> bool {
    byte_len(s) >= 8
}

pub fn is_password_long_enough(s: &str) -> (ok: bool)
    ensures
        ok == password_long_enough(s@),
        ok == (utf8_bytes(s@).len() >= 8),
{
    s.as_bytes().len() >= 8
}

/// A password is long enough exactly when its UTF-8 encoding has at least 8 bytes;
/// there is no upper bound.
pub proof fn lemma_password_length_rule(s: Seq<char>)
    ensures
        password_long_enough(s) <==> utf8_bytes(s).len() >= 8,
{
}

} // verus!
