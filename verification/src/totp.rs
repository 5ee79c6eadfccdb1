//! Time-based one-time passwords: HMAC-SHA256 over the current time window,
//! reduced by dynamic truncation to a fixed number of decimal digits.
use vstd::prelude::*;
use crate::encoding::{u64_be_bytes, u64_to_be_bytes};
use hmac::Mac;

verus! {

/// What HMAC-SHA256 (the `hmac` crate over `sha2::Sha256`) computes for
/// `key` and `msg`.
pub uninterp spec fn hmac_sha256(key: Seq<u8>, msg: Seq<u8>) -> Seq<u8>;

/// Calls `Hmac::<Sha256>::new_from_slice`, `update` and `finalize` of the
/// `hmac` crate. Trusted: the 32-byte tag is `hmac_sha256(key, msg)`.
/// HMAC takes keys of every length, so the key is never refused.
#[verifier::external_body]
fn hmac_sha256_tag(key: &[u8], msg: &[u8]) -> (tag: [u8; 32])
    ensures
        tag@ == hmac_sha256(key@, msg@),
{
    let mut mac = <hmac::Hmac<sha2::Sha256> as Mac>::new_from_slice(key).expect("Invalid key");
    mac.update(msg);
    let bytes = mac.finalize().into_bytes();
    let mut tag = [0u8; 32];
    tag.copy_from_slice(&bytes);
    tag
}

/// `10` to the power `d`.
pub open spec fn pow10(d: nat) -> nat
    decreases d,
{
    if d == 0 {
        1
    } else {
        10 * pow10((d - 1) as nat)
    }
}

/// The offset chosen by dynamic truncation: the low four bits of the last
/// byte of the tag.
pub open spec fn truncation_offset(mac: Seq<u8>) -> int {
    (mac[mac.len() - 1] & 0x0fu8) as int
}

/// Dynamic truncation: the 31-bit big-endian integer read at the offset.
pub open spec fn dynamic_truncation(mac: Seq<u8>) -> u32 {
    let o: int = truncation_offset(mac);
    ((mac[o] & 0x7fu8) as u32) << 24u32 | (mac[o + 1] as u32) << 16u32 | (mac[o + 2] as u32)
        << 8u32 | (mac[o + 3] as u32)
}

/// The one-time password with `digits` decimal digits drawn from the tag.
pub open spec fn totp_code(mac: Seq<u8>, digits: nat) -> nat {
    dynamic_truncation(mac) as nat % pow10(digits)
}

/// The message that is authenticated for the time window of `current_time`:
/// the big-endian bytes of the window's index.
pub open spec fn time_window_message(current_time: u64, time_limit: u64) -> Seq<u8> {
    u64_be_bytes((current_time / time_limit) as u64)
}

/// The one-time password of `key` at `current_time`.
pub open spec fn totp_spec(key: Seq<u8>, current_time: u64, time_limit: u64, digits: nat) -> nat {
    totp_code(hmac_sha256(key, time_window_message(current_time, time_limit)), digits)
}

proof fn lemma_pow10_positive(d: nat)
    ensures
        pow10(d) >= 1,
    decreases d,
{
    if d > 0 {
        lemma_pow10_positive((d - 1) as nat);
    }
}

proof fn lemma_pow10_monotone(i: nat, j: nat)
    requires
        i <= j,
    ensures
        pow10(i) <= pow10(j),
    decreases j - i,
{
    if i < j {
        lemma_pow10_monotone(i, (j - 1) as nat);
        lemma_pow10_positive((j - 1) as nat);
    }
}

/// Computes `10^digits`.
fn pow10_u32(digits: u32) -> (m: u32)
    requires
        digits <= 9,
    ensures
        m as nat == pow10(digits as nat),
{
    proof {
        reveal_with_fuel(pow10, 10);
    }
    let mut m: u32 = 1;
    let mut i: u32 = 0;
    while i < digits
        invariant
            i <= digits <= 9,
            m as nat == pow10(i as nat),
            pow10(9) == 1_000_000_000,
        decreases digits - i,
    {
        proof {
            lemma_pow10_monotone(i as nat, 8);
            reveal_with_fuel(pow10, 9);
        }
        m = m * 10;
        i = i + 1;
    }
    m
}

/// Reduces an HMAC-SHA256 tag to a one-time password of `number_of_digits`
/// decimal digits by dynamic truncation.
pub fn totp_from_mac(mac: &[u8; 32], number_of_digits: u32) -> (code: u32)
    requires
        number_of_digits <= 9,
    ensures
        code as nat == totp_code(mac@, number_of_digits as nat),
        (code as nat) < pow10(number_of_digits as nat),
{
    let last: u8 = mac[31];
    let offset: usize = (last & 0x0f) as usize;
    assert(last & 0x0fu8 <= 15u8) by (bit_vector);
    let binary: u32 = ((mac[offset] & 0x7f) as u32) << 24 | (mac[offset + 1] as u32) << 16 | (
    mac[offset + 2] as u32) << 8 | (mac[offset + 3] as u32);
    let modulo: u32 = pow10_u32(number_of_digits);
    proof {
        lemma_pow10_positive(number_of_digits as nat);
    }
    binary % modulo
}

/// Generates the one-time password of `dh_key` for the time window that
/// holds `current_time`, with windows of `time_limit` seconds and
/// `number_of_digits` decimal digits.
pub fn generate_totp(dh_key: &[u8], current_time: u64, time_limit: u64, number_of_digits: u32) -> (code: u32)
    requires
        time_limit > 0,
        number_of_digits <= 9,
    ensures
        code as nat == totp_spec(dh_key@, current_time, time_limit, number_of_digits as nat),
        (code as nat) < pow10(number_of_digits as nat),
        hmac_sha256(dh_key@, time_window_message(current_time, time_limit)).len() == 32,
{
    let count: u64 = current_time / time_limit;
    let msg = u64_to_be_bytes(count);
    let mac = hmac_sha256_tag(dh_key, &msg);
    totp_from_mac(&mac, number_of_digits)
}

/// Every instant of one time window yields the same one-time password: the
/// client and the server agree on the code whenever their clocks fall in the
/// same window.
pub proof fn lemma_totp_same_window(key: Seq<u8>, t1: u64, t2: u64, time_limit: u64, digits: nat)
    requires
        time_limit > 0,
        t1 / time_limit == t2 / time_limit,
    ensures
        totp_spec(key, t1, time_limit, digits) == totp_spec(key, t2, time_limit, digits),
{
}

/// Dynamic truncation reads, at the offset given by the low four bits of the
/// last byte, four bytes as a big-endian integer with the top bit cleared.
pub proof fn lemma_dynamic_truncation_value(mac: Seq<u8>)
    requires
        mac.len() == 32,
    ensures
        ({
            let o: int = (mac[31] % 16) as int;
            &&& 0 <= o <= 15
            &&& dynamic_truncation(mac) as nat == (mac[o] % 128) as nat * 16777216 + mac[o + 1] as nat
                * 65536 + mac[o + 2] as nat * 256 + mac[o + 3] as nat
        }),
{
    let last: u8 = mac[31];
    assert((last & 0x0fu8) == last % 16) by (bit_vector);
    let o: int = (last % 16) as int;
    let b0: u8 = mac[o];
    let b1: u8 = mac[o + 1];
    let b2: u8 = mac[o + 2];
    let b3: u8 = mac[o + 3];
    assert(((b0 & 0x7fu8) as u32) << 24u32 | (b1 as u32) << 16u32 | (b2 as u32) << 8u32 | (b3 as u32)
        == (b0 % 128) as u32 * 16777216u32 + b1 as u32 * 65536u32 + b2 as u32 * 256u32 + b3 as u32)
        by (bit_vector);
}

/// A one-time password of `d` digits (`d <= 9`) is the truncated value
/// reduced modulo `10^d`: its `d` lowest decimal digits.
pub proof fn lemma_totp_code_decimal_digits(mac: Seq<u8>, d: nat)
    requires
        d <= 9,
    ensures
        d == 0 ==> totp_code(mac, d) == 0,
        d == 1 ==> totp_code(mac, d) == dynamic_truncation(mac) as nat % 10,
        d == 2 ==> totp_code(mac, d) == dynamic_truncation(mac) as nat % 100,
        d == 3 ==> totp_code(mac, d) == dynamic_truncation(mac) as nat % 1000,
        d == 4 ==> totp_code(mac, d) == dynamic_truncation(mac) as nat % 10000,
        d == 5 ==> totp_code(mac, d) == dynamic_truncation(mac) as nat % 100000,
        d == 6 ==> totp_code(mac, d) == dynamic_truncation(mac) as nat % 1000000,
        d == 7 ==> totp_code(mac, d) == dynamic_truncation(mac) as nat % 10000000,
        d == 8 ==> totp_code(mac, d) == dynamic_truncation(mac) as nat % 100000000,
        d == 9 ==> totp_code(mac, d) == dynamic_truncation(mac) as nat % 1000000000,
{
    reveal_with_fuel(pow10, 10);
}

/// The one-time password of `key` at `current_time`: HMAC-SHA256 of the key
/// over the eight big-endian bytes of the window index
/// `current_time / time_limit`, dynamically truncated, reduced to `digits`
/// decimal digits.
pub proof fn lemma_totp_spec_value(key: Seq<u8>, current_time: u64, time_limit: u64, digits: nat)
    requires
        time_limit > 0,
    ensures
        totp_spec(key, current_time, time_limit, digits) == dynamic_truncation(
            hmac_sha256(key, u64_be_bytes((current_time / time_limit) as u64)),
        ) as nat % pow10(digits),
{
}

} // verus!
