//! Request signing for the exchange API: HMAC-SHA256 tags in lower-case
//! hexadecimal, decimal texts of numbers, and the millisecond clock.

use vstd::prelude::*;
use crate::domain::clock::hex_digit;
use hmac::{Hmac, Mac};
use sha2::Sha256;

verus! {

/// The HMAC-SHA256 tag of the UTF-8 bytes of `msg` under the UTF-8 bytes of
/// `key`, as the `hmac` crate computes it with `sha2::Sha256`.
pub uninterp spec fn hmac_sha256(key: Seq<char>, msg: Seq<char>) -> Seq<u8>;

/// Two lower-case hexadecimal digits per byte, high nibble first.
pub open spec fn hex_lower(bytes: Seq<u8>) -> Seq<char> {
    Seq::new(
        2 * bytes.len(),
        |i: int|
            if i % 2 == 0 {
                hex_digit(bytes[i / 2] as int / 16)
            } else {
                hex_digit(bytes[i / 2] as int % 16)
            },
    )
}

/// Decimal digits of `n`, most significant first, with no leading zero
/// (a lone `0` for zero).
pub open spec fn nat_text(n: nat) -> Seq<char>
    decreases n,
{
    if n < 10 {
        seq![hex_digit(n as int)]
    } else {
        nat_text(n / 10) + seq![hex_digit(n as int % 10)]
    }
}

/// Decimal text of a signed integer: a `-` before the digits of its
/// magnitude when it is negative.
pub open spec fn int_text(n: int) -> Seq<char> {
    if n < 0 {
        seq!['-'] + nat_text((-n) as nat)
    } else {
        nat_text(n as nat)
    }
}

/// Calls `Mac::new_from_slice`, `Mac::update` and `Mac::finalize` on
/// `Hmac<Sha256>`: the 32-byte tag of `msg` under `key`. The crate accepts
/// keys of every length, so the key is never refused.
#[verifier::external_body]
fn hmac_sha256_tag(key: &str, msg: &str) -> (r: Vec<u8>)
    ensures
        r@ == hmac_sha256(key@, msg@),
        r@.len() == 32,
{
    let mut mac = <Hmac<Sha256> as Mac>::new_from_slice(key.as_bytes()).unwrap();
    mac.update(msg.as_bytes());
    mac.finalize().into_bytes().to_vec()
}

/// Calls `hex::encode`: two lower-case hexadecimal digits per byte.
#[verifier::external_body]
fn hex_encode(bytes: &Vec<u8>) -> (r: String)
    ensures
        r@ == hex_lower(bytes@),
{
    hex::encode(bytes)
}

/// Calls `<u64 as ToString>::to_string`: the decimal digits of `n`.
#[verifier::external_body]
pub(crate) fn u64_text(n: u64) -> (r: String)
    ensures
        r@ == nat_text(n as nat),
{
    n.to_string()
}

/// Calls `<i64 as ToString>::to_string`: the decimal text of `n`.
#[verifier::external_body]
pub(crate) fn i64_text(n: i64) -> (r: String)
    ensures
        r@ == int_text(n as int),
{
    n.to_string()
}

/// The signature the exchange asks for: the HMAC-SHA256 tag of `payload`
/// under `secret`, in 64 lower-case hexadecimal digits.
pub fn sign(secret: &str, payload: &str) -> (r: String)
    ensures
        r@ == hex_lower(hmac_sha256(secret@, payload@)),
        r@.len() == 64,
{
    let tag = hmac_sha256_tag(secret, payload);
    hex_encode(&tag)
}

/// Calls `SystemTime::now` and `duration_since(UNIX_EPOCH)`: milliseconds
/// since the epoch, truncated to 64 bits. The value depends on the clock:
/// nothing is stated of it. A clock set before the epoch gives 0.
#[verifier::external_body]
pub(crate) fn timestamp_ms() -> (r: u64) {
    match std::time::SystemTime::now().duration_since(std::time::UNIX_EPOCH) {
        Ok(d) => d.as_millis() as u64,
        Err(_) => 0,
    }
}

} // verus!
