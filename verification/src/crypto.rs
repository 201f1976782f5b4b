//! Password hashing and randomness, provided by `rust-argon2` and `rand`.

use rand::Rng;
use rand::RngCore;
use vstd::prelude::*;

verus! {

#[verifier::external_type_specification]
#[verifier::external_body]
pub struct ExThreadRng(rand::rngs::ThreadRng);

/// The encoded Argon2 hash (`$argon2i$v=19$m=4096,t=3,p=1$<salt>$<hash>`) that
/// `argon2::hash_encoded` computes from a password and a salt under
/// `argon2::Config::default()`, or `None` where it reports an error.
pub uninterp spec fn argon2_hash_encoded(password: Seq<u8>, salt: Seq<u8>) -> Option<Seq<char>>;

/// What `argon2::verify_encoded` answers for an encoded hash and a password:
/// `Some(matches)`, or `None` where it reports an error.
pub uninterp spec fn argon2_verify_encoded(encoded: Seq<char>, password: Seq<u8>) -> Option<bool>;

/// How every encoded hash under the default configuration begins: the
/// variant, the version and the costs (`encoding::encode_string`).
pub const ARGON2_DEFAULT_PREFIX: &'static str = "$argon2i$v=19$m=4096,t=3,p=1$";

/// The length of the unpadded standard Base64 encoding of `n` bytes.
pub open spec fn base64_unpadded_len(n: nat) -> nat {
    4 * (n / 3) + if n % 3 == 0 {
        0
    } else {
        n % 3 + 1
    }
}

/// An ASCII letter or digit: what `rand::distributions::Alphanumeric` yields.
pub open spec fn is_ascii_alphanumeric(c: char) -> bool {
    ||| ('A' <= c && c <= 'Z')
    ||| ('a' <= c && c <= 'z')
    ||| ('0' <= c && c <= '9')
}

/// Calls `rand::thread_rng`, the thread-local generator. Nothing is claimed
/// of the generator it returns.
#[verifier::external_body]
pub(crate) fn new_thread_rng() -> rand::rngs::ThreadRng {
    rand::thread_rng()
}

/// Calls `RngCore::fill_bytes` on the thread-local generator. Claimed: the
/// buffer keeps its length. Its new contents are random and are not stated.
#[verifier::external_body]
pub(crate) fn fill_random_bytes(rng: &mut rand::rngs::ThreadRng, buf: &mut Vec<u8>)
    ensures
        final(buf)@.len() == old(buf)@.len(),
{
    rng.fill_bytes(buf.as_mut_slice())
}

/// Calls `Rng::sample` with `rand::distributions::Alphanumeric` (rand 0.7,
/// where it yields a `char`). Claimed: the character is an ASCII letter or
/// digit, which the distribution's source picks from `A-Z`, `a-z` and `0-9`.
/// Which one comes out is random and not stated.
#[verifier::external_body]
pub(crate) fn sample_alphanumeric(rng: &mut rand::rngs::ThreadRng) -> (c: char)
    ensures
        is_ascii_alphanumeric(c),
{
    rng.sample(rand::distributions::Alphanumeric)
}

/// Calls `argon2::hash_encoded(password, salt, &argon2::Config::default())`.
/// Claimed: the result (`Ok` made `Some`, the error dropped) is the one named by
/// `argon2_hash_encoded`; and it is `Some` whenever the salt has between 8
/// and `u32::MAX` bytes and the password at most `u32::MAX` bytes: under the
/// default configuration these are the only conditions of `Context::new`, in
/// the crate's source, that can fail. And a hash it returns is laid out as
/// `encoding::encode_string` writes it under the default configuration: the
/// prefix `$argon2i$v=19$m=4096,t=3,p=1$`, the salt in unpadded Base64, `$`,
/// and the 32-byte hash in unpadded Base64 (43 characters).
#[verifier::external_body]
pub(crate) fn argon2_hash(password: &[u8], salt: &[u8]) -> (res: Option<String>)
    ensures
        res matches Some(h) ==> argon2_hash_encoded(password@, salt@) == Some(h@),
        res is None ==> argon2_hash_encoded(password@, salt@) is None,
        8 <= salt@.len() <= u32::MAX && password@.len() <= u32::MAX ==> res is Some,
        res matches Some(h) ==> {
            &&& h@.len() == ARGON2_DEFAULT_PREFIX@.len() + base64_unpadded_len(salt@.len()) + 44
            &&& h@.subrange(0, ARGON2_DEFAULT_PREFIX@.len() as int) == ARGON2_DEFAULT_PREFIX@
            &&& h@[(ARGON2_DEFAULT_PREFIX@.len() + base64_unpadded_len(salt@.len())) as int] == '$'
        },
{
    argon2::hash_encoded(password, salt, &argon2::Config::default()).ok()
}

/// Calls `argon2::verify_encoded(encoded, password)`.
/// Claimed: the result (`Ok` made `Some`, the error dropped) is the one named by
/// `argon2_verify_encoded`; and a hash
/// that `argon2_hash_encoded` made from this very password (under the default
/// configuration, with any salt) verifies, as the crate's own tests assert
/// (`hash_test`: `hash_encoded` then `verify_encoded` gives `Ok(true)`).
/// Nothing is claimed for other passwords.
#[verifier::external_body]
pub(crate) fn argon2_verify(encoded: &str, password: &[u8]) -> (res: Option<bool>)
    ensures
        res == argon2_verify_encoded(encoded@, password@),
        forall|salt: Seq<u8>|
            #[trigger] argon2_hash_encoded(password@, salt) == Some(encoded@) ==> res == Some(
                true,
            ),
{
    argon2::verify_encoded(encoded, password).ok()
}

} // verus!
