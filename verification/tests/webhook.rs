use hmac::{Hmac, Mac};
use huggian_client::webhook::{verify_signature, within_replay_window, REPLAY_WINDOW_SECS};
use sha2::Sha256;

fn sign(secret: &[u8], ts: &str, body: &[u8]) -> String {
    let mut mac = Hmac::<Sha256>::new_from_slice(secret).unwrap();
    mac.update(ts.as_bytes());
    mac.update(b".");
    mac.update(body);
    hex::encode(mac.finalize().into_bytes())
}

#[test]
fn signature_round_trip() {
    let secret = b"shh";
    let ts = "1714600000";
    let body = b"{\"hello\":\"world\"}";
    let sig = sign(secret, ts, body);
    assert!(verify_signature(secret, ts, body, &sig));
    assert!(!verify_signature(secret, ts, body, &"00".repeat(32)));
    assert!(!verify_signature(b"wrong", ts, body, &sig));
}

#[test]
fn empty_signature_returns_false() {
    assert!(!verify_signature(b"shh", "1714600000", b"body", ""));
}

#[test]
fn odd_length_hex_signature_returns_false() {
    assert!(!verify_signature(b"shh", "1714600000", b"body", "abc"));
}

#[test]
fn empty_secret_returns_false() {
    let ts = "1714600000";
    let body = b"body";
    let sig = sign(b"shh", ts, body);
    assert!(!verify_signature(b"", ts, body, &sig));
}

#[test]
fn replay_window_bounds() {
    assert!(within_replay_window(1000, 1000, 300));
    assert!(within_replay_window(1000, 1300, 300));
    assert!(within_replay_window(1000, 700, 300));
    assert!(!within_replay_window(1000, 1301, 300));
    assert!(!within_replay_window(1000, 699, 300));
}

#[test]
fn a_known_signature_is_accepted_in_either_case() {
    let sig = "5e303de8658120d0b8e64114c754236c685639ec676a89f18efb3b9ccf39f092";
    assert!(verify_signature(b"shh", "1714600000", b"body", sig));
    assert!(verify_signature(b"shh", "1714600000", b"body", &sig.to_uppercase()));
}

#[test]
fn a_signature_that_is_not_hex_or_too_short_is_rejected() {
    let sig = sign(b"shh", "1714600000", b"body");
    assert!(!verify_signature(b"shh", "1714600000", b"body", &sig[..62]));
    assert!(!verify_signature(b"shh", "1714600000", b"body", &"zz".repeat(32)));
    assert!(!verify_signature(b"shh", "1714600000", b"body", &format!("{sig}00")));
}

#[test]
fn an_empty_secret_signs_like_any_other() {
    let sig = sign(b"", "1", b"");
    assert!(verify_signature(b"", "1", b"", &sig));
}

#[test]
fn timestamp_and_body_are_both_signed() {
    let sig = sign(b"shh", "1714600000", b"body");
    assert!(!verify_signature(b"shh", "1714600001", b"body", &sig));
    assert!(!verify_signature(b"shh", "1714600000", b"bodY", &sig));
    // The dot parts them: moving a digit across it changes what is signed.
    assert!(!verify_signature(b"shh", "171460000", b"0body", &sig));
}

#[test]
fn instants_far_apart_are_outside_the_window() {
    assert!(!within_replay_window(i64::MAX, -1, 300));
    assert!(!within_replay_window(i64::MIN, i64::MAX, 300));
    assert!(!within_replay_window(i64::MIN, 0, i64::MAX));
    assert!(within_replay_window(i64::MAX, 0, i64::MAX));
}

#[test]
fn the_default_window_is_five_minutes_and_a_negative_one_holds_nothing() {
    assert_eq!(REPLAY_WINDOW_SECS, 300);
    assert!(within_replay_window(0, REPLAY_WINDOW_SECS, REPLAY_WINDOW_SECS));
    assert!(!within_replay_window(5, 5, -1));
}
