//! huggian webhook receiver primitives.
//!
//! Every huggian-core webhook is signed with HMAC-SHA256 over
//! `"{timestamp}.{body}"` and carries the unix timestamp in `X-BBX-Timestamp`.
//! Receivers verify the signature against the raw body (before JSON parsing)
//! and reject deliveries outside a replay window.

use hmac::{Hmac, Mac};
use sha2::Sha256;
use vstd::prelude::*;

verus! {

/// Default replay window (seconds) huggian deliveries are validated against.
pub const REPLAY_WINDOW_SECS: i64 = 300;

/// Whether `c` is a hexadecimal digit, of either case.
pub open spec fn is_hex_digit(c: char) -> bool {
    ||| '0' <= c <= '9'
    ||| 'a' <= c <= 'f'
    ||| 'A' <= c <= 'F'
}

/// The value of a hexadecimal digit.
pub open spec fn hex_digit_value(c: char) -> int {
    if '0' <= c <= '9' {
        c as int - '0' as int
    } else if 'a' <= c <= 'f' {
        c as int - 'a' as int + 10
    } else {
        c as int - 'A' as int + 10
    }
}

/// The bytes a hexadecimal text stands for: `None` unless every character is a
/// hexadecimal digit and there is an even number of them.
pub open spec fn hex_decoded(text: Seq<char>) -> Option<Seq<u8>> {
    if text.len() % 2 == 0 && (forall|i: int| 0 <= i < text.len() ==> is_hex_digit(#[trigger] text[i])) {
        Some(
            Seq::new(
                text.len() / 2,
                |i: int| (16 * hex_digit_value(text[2 * i]) + hex_digit_value(text[2 * i + 1])) as u8,
            ),
        )
    } else {
        None
    }
}

/// The lower-case hexadecimal digit of a value below 16.
pub open spec fn hex_digit(value: int) -> char {
    if value < 10 {
        ('0' as int + value) as char
    } else {
        ('a' as int + value - 10) as char
    }
}

/// Bytes written in lower-case hexadecimal, two digits each.
pub open spec fn hex_encoded(bytes: Seq<u8>) -> Seq<char> {
    Seq::new(
        2 * bytes.len(),
        |i: int|
            hex_digit(
                if i % 2 == 0 {
                    bytes[i / 2] as int / 16
                } else {
                    bytes[i / 2] as int % 16
                },
            ),
    )
}

/// The HMAC-SHA256 code of `message` under `key`.
pub uninterp spec fn hmac_sha256(key: Seq<u8>, message: Seq<u8>) -> Seq<u8>;

/// What a delivery's signature covers: the timestamp, a dot and the raw body.
pub open spec fn signed_message(timestamp: Seq<char>, body: Seq<u8>) -> Seq<u8> {
    vstd::utf8::encode_utf8(timestamp) + seq![46u8] + body
}

/// Whether `signature_hex` is the hexadecimal code of the delivery under `secret`.
pub open spec fn signature_accepted(
    secret: Seq<u8>,
    timestamp: Seq<char>,
    body: Seq<u8>,
    signature_hex: Seq<char>,
) -> bool {
    hex_decoded(signature_hex) == Some(hmac_sha256(secret, signed_message(timestamp, body)))
}

/// Calls `hex::decode`, which reads pairs of hexadecimal digits of either case
/// and fails on an odd length and on any other character.
#[verifier::external_body]
fn hex_decode(text: &str) -> (decoded: Option<Vec<u8>>)
    ensures
        match decoded {
            Some(bytes) => hex_decoded(text@) == Some(bytes@),
            None => hex_decoded(text@) is None,
        },
{
    hex::decode(text).ok()
}

/// Keys an `hmac::Hmac<sha2::Sha256>` with `Mac::new_from_slice`, which takes a
/// key of any length, feeds it `message` with `Mac::update`, and compares the
/// code with `tag` by `Mac::verify_slice`: in constant time, and successful
/// exactly when `tag` is the whole code, which is 32 bytes long.
#[verifier::external_body]
fn hmac_sha256_verify(secret: &[u8], message: &[u8], tag: &[u8]) -> (verified: bool)
    ensures
        verified == (tag@ == hmac_sha256(secret@, message@)),
        verified ==> tag@.len() == 32,
{
    match Hmac::<Sha256>::new_from_slice(secret) {
        Ok(mut mac) => {
            mac.update(message);
            mac.verify_slice(tag).is_ok()
        },
        Err(_) => false,
    }
}

/// Verify an `X-BBX-Signature` header value.
///
/// `signature_hex` is the hex-encoded HMAC-SHA256 of
/// `timestamp.as_bytes()` + `b"."` + `body`. The compare is constant-time.
/// Returns `false` (never panics/errors) on malformed hex or an invalid key
/// length, so callers can treat every failure mode as "reject".
pub fn verify_signature(secret: &[u8], timestamp: &str, body: &[u8], signature_hex: &str) -> (accepted:
    bool)
    ensures
        accepted == signature_accepted(secret@, timestamp@, body@, signature_hex@),
        accepted ==> signature_hex@.len() == 64,
{
    let signature = match hex_decode(signature_hex) {
        Some(signature) => signature,
        None => {
            return false;
        },
    };
    let mut message: Vec<u8> = Vec::new();
    message.extend_from_slice(timestamp.as_bytes());
    message.push(46u8);
    message.extend_from_slice(body);
    assert(message@ =~= signed_message(timestamp@, body@));
    hmac_sha256_verify(secret, message.as_slice(), signature.as_slice())
}

/// Reading back a text written in hexadecimal gives the bytes that were written.
pub proof fn law_hex_round_trip(bytes: Seq<u8>)
    ensures
        hex_decoded(hex_encoded(bytes)) == Some(bytes),
{
    let text = hex_encoded(bytes);
    assert(text.len() % 2 == 0);
    assert forall|v: int| 0 <= v < 16 implies is_hex_digit(#[trigger] hex_digit(v)) && hex_digit_value(
        hex_digit(v),
    ) == v by {}
    assert forall|i: int| 0 <= i < text.len() implies is_hex_digit(#[trigger] text[i]) by {
        let value = if i % 2 == 0 {
            bytes[i / 2] as int / 16
        } else {
            bytes[i / 2] as int % 16
        };
        assert(text[i] == hex_digit(value));
    }
    let decoded = hex_decoded(text)->0;
    assert forall|i: int| 0 <= i < bytes.len() implies decoded[i] == bytes[i] by {
        assert(text[2 * i] == hex_digit(bytes[i] as int / 16));
        assert(text[2 * i + 1] == hex_digit(bytes[i] as int % 16));
    }
    assert(decoded =~= bytes);
}

/// A delivery signed by its sender is accepted: the hexadecimal HMAC-SHA256 of
/// the timestamp, a dot and the body always verifies under the same secret.
pub proof fn law_signed_delivery_is_accepted(secret: Seq<u8>, timestamp: Seq<char>, body: Seq<u8>)
    ensures
        signature_accepted(
            secret,
            timestamp,
            body,
            hex_encoded(hmac_sha256(secret, signed_message(timestamp, body))),
        ),
{
    law_hex_round_trip(hmac_sha256(secret, signed_message(timestamp, body)));
}

/// Malformed hexadecimal is rejected, whatever the secret and the delivery: an
/// odd number of characters, or any character that is not a digit.
pub proof fn law_malformed_signature_is_rejected(
    secret: Seq<u8>,
    timestamp: Seq<char>,
    body: Seq<u8>,
    signature_hex: Seq<char>,
)
    requires
        signature_hex.len() % 2 == 1 || exists|i: int|
            0 <= i < signature_hex.len() && !is_hex_digit(#[trigger] signature_hex[i]),
    ensures
        !signature_accepted(secret, timestamp, body, signature_hex),
{
}

/// What is signed determines the delivery: with timestamps that hold no dot,
/// two deliveries that sign the same bytes have the same timestamp and body.
pub proof fn law_signed_message_is_unambiguous(
    timestamp: Seq<char>,
    body: Seq<u8>,
    other_timestamp: Seq<char>,
    other_body: Seq<u8>,
)
    requires
        !vstd::utf8::encode_utf8(timestamp).contains(46u8),
        !vstd::utf8::encode_utf8(other_timestamp).contains(46u8),
        signed_message(timestamp, body) == signed_message(other_timestamp, other_body),
    ensures
        timestamp == other_timestamp,
        body == other_body,
{
    let a = vstd::utf8::encode_utf8(timestamp);
    let b = vstd::utf8::encode_utf8(other_timestamp);
    let message = signed_message(timestamp, body);
    assert(message[a.len() as int] == 46u8);
    assert(signed_message(other_timestamp, other_body)[b.len() as int] == 46u8);
    if a.len() < b.len() {
        assert(b[a.len() as int] == message[a.len() as int]);
    }
    if b.len() < a.len() {
        assert(a[b.len() as int] == message[b.len() as int]);
    }
    assert(a =~= message.take(a.len() as int));
    assert(b =~= message.take(a.len() as int));
    assert(body =~= message.skip(a.len() as int + 1));
    assert(other_body =~= message.skip(a.len() as int + 1));
    vstd::utf8::encode_utf8_decode_utf8(timestamp);
    vstd::utf8::encode_utf8_decode_utf8(other_timestamp);
}

/// True when the delivery's `event_secs` is within `window_secs` of `now_secs`
/// (absolute difference). Guards against replayed or clock-skewed deliveries.
pub fn within_replay_window(now_secs: i64, event_secs: i64, window_secs: i64) -> (within: bool)
    ensures
        within == (-window_secs <= now_secs - event_secs <= window_secs),
{
    let difference: i128 = now_secs as i128 - event_secs as i128;
    let distance: i128 = if difference < 0 {
        -difference
    } else {
        difference
    };
    distance <= window_secs as i128
}

/// What a signature covers: the bytes of the timestamp, a dot and every byte of the body.
pub proof fn law_signature_covers_timestamp_and_body(timestamp: Seq<char>, body: Seq<u8>)
    ensures
        ({
            let message = signed_message(timestamp, body);
            let n = vstd::utf8::encode_utf8(timestamp).len();
            &&& message.len() == n + 1 + body.len()
            &&& message.take(n as int) == vstd::utf8::encode_utf8(timestamp)
            &&& message[n as int] == '.' as u8
            &&& message.skip(n as int + 1) == body
        }),
{
    let message = signed_message(timestamp, body);
    let n = vstd::utf8::encode_utf8(timestamp).len();
    assert(message.take(n as int) =~= vstd::utf8::encode_utf8(timestamp));
    assert(message.skip(n as int + 1) =~= body);
}

/// At most one code is accepted for a delivery: two accepted signatures stand for the same
/// bytes, those of the HMAC under the secret.
pub proof fn law_one_code_is_accepted(
    secret: Seq<u8>,
    timestamp: Seq<char>,
    body: Seq<u8>,
    one: Seq<char>,
    other: Seq<char>,
)
    requires
        signature_accepted(secret, timestamp, body, one),
        signature_accepted(secret, timestamp, body, other),
    ensures
        hex_decoded(one) == hex_decoded(other),
        hex_decoded(one) == Some(
            hmac_sha256(secret, vstd::utf8::encode_utf8(timestamp) + seq!['.' as u8] + body),
        ),
        one.len() == other.len(),
{
    assert(hex_decoded(one)->0.len() == one.len() / 2);
    assert(hex_decoded(other)->0.len() == other.len() / 2);
}

/// Each pair of hexadecimal digits, of either case, stands for one byte, the first digit
/// for its upper half.
pub proof fn law_hex_pairs(text: Seq<char>, i: int)
    requires
        hex_decoded(text) is Some,
        0 <= i < text.len() / 2,
    ensures
        hex_decoded(text)->0.len() == text.len() / 2,
        hex_decoded(text)->0[i] == 16 * hex_digit_value(text[2 * i]) + hex_digit_value(
            text[2 * i + 1],
        ),
        forall|c: char| '0' <= c <= '9' ==> #[trigger] hex_digit_value(c) == c as int - 48,
        forall|c: char| 'a' <= c <= 'f' ==> #[trigger] hex_digit_value(c) == c as int - 87,
        forall|c: char| 'A' <= c <= 'F' ==> #[trigger] hex_digit_value(c) == c as int - 55,
{
    assert(is_hex_digit(text[2 * i]) && is_hex_digit(text[2 * i + 1]));
}

/// A delivery is within the window exactly when it is no further from the clock than the
/// window is wide, before or after it; so it is symmetric, grows with the window, and a
/// negative window admits nothing.
pub proof fn law_replay_window(now_secs: i64, event_secs: i64, window_secs: i64, within: bool)
    requires
        call_ensures(within_replay_window, (now_secs, event_secs, window_secs), within),
    ensures
        event_secs <= now_secs ==> (within <==> now_secs - event_secs <= window_secs),
        event_secs >= now_secs ==> (within <==> event_secs - now_secs <= window_secs),
        event_secs == now_secs ==> (within <==> window_secs >= 0),
        window_secs < 0 ==> !within,
{
}

/// A signature is accepted exactly when it spells, in hexadecimal digits, the HMAC of the
/// timestamp, a dot and the body under the secret.
pub proof fn law_what_is_accepted(
    secret: &[u8],
    timestamp: &str,
    body: &[u8],
    signature_hex: &str,
    accepted: bool,
)
    requires
        call_ensures(verify_signature, (secret, timestamp, body, signature_hex), accepted),
    ensures
        accepted <==> hex_decoded(signature_hex@) == Some(
            hmac_sha256(secret@, vstd::utf8::encode_utf8(timestamp@) + seq!['.' as u8] + body@),
        ),
        accepted ==> signature_hex@.len() == 64,
{
}

/// Exactly the texts of evenly many hexadecimal digits, of either case, stand for bytes.
pub proof fn law_hex_texts(text: Seq<char>)
    ensures
        hex_decoded(text) is Some <==> text.len() % 2 == 0 && forall|i: int|
            0 <= i < text.len() ==> '0' <= #[trigger] text[i] <= '9' || 'a' <= text[i] <= 'f'
                || 'A' <= text[i] <= 'F',
{
    if text.len() % 2 == 0 && forall|i: int|
        0 <= i < text.len() ==> '0' <= #[trigger] text[i] <= '9' || 'a' <= text[i] <= 'f' || 'A'
            <= text[i] <= 'F' {
        assert forall|i: int| 0 <= i < text.len() implies is_hex_digit(#[trigger] text[i]) by {}
    } else if text.len() % 2 == 0 {
        let i = choose|i: int|
            0 <= i < text.len() && !('0' <= #[trigger] text[i] <= '9' || 'a' <= text[i] <= 'f'
                || 'A' <= text[i] <= 'F');
        assert(!is_hex_digit(text[i]));
    }
}

} // verus!
