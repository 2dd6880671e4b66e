use discord_interactions::canonical::build;
use discord_interactions::dispatch::{handle, response_of, Action, Outcome};
use discord_interactions::hexcode::hex_decode;
use discord_interactions::signature::{verify, Verdict};
use ed25519_dalek::{Signer, SigningKey};

fn keypair() -> (SigningKey, String) {
    let sk = SigningKey::from_bytes(&[7u8; 32]);
    let pk_hex = hex::encode(sk.verifying_key().to_bytes());
    (sk, pk_hex)
}

fn sign(sk: &SigningKey, timestamp: &[u8], body: &[u8]) -> String {
    let msg = build(timestamp, body);
    hex::encode(sk.sign(&msg).to_bytes())
}

#[test]
fn build_concatenates_exactly() {
    assert_eq!(build(b"1700000000", b"{\"a\":1}"), b"1700000000{\"a\":1}".to_vec());
    assert_eq!(build(b"", b"xy"), b"xy".to_vec());
    assert_eq!(build(b"xy", b""), b"xy".to_vec());
    assert_eq!(build(b"", b""), Vec::<u8>::new());
}

#[test]
fn hex_decode_matches_reference() {
    assert_eq!(hex_decode(b"0aff"), Some(vec![0x0a, 0xff]));
    assert_eq!(hex_decode(b"DEADbeef"), Some(hex::decode("deadbeef").unwrap()));
    assert_eq!(hex_decode(b""), Some(Vec::new()));
    assert_eq!(hex_decode(b"abc"), None);
    assert_eq!(hex_decode(b"zz"), None);
}

#[test]
fn good_signature_is_authentic() {
    let (sk, pk_hex) = keypair();
    let ts = b"1700000000";
    let body = b"payload bytes";
    let msg = build(ts, body);
    let sig_hex = sign(&sk, ts, body);
    assert_eq!(verify(pk_hex.as_bytes(), &msg, sig_hex.as_bytes()), Verdict::Authentic);
}

#[test]
fn flipped_bits_are_forged() {
    let (sk, pk_hex) = keypair();
    let ts = b"1700000000".to_vec();
    let body = b"payload bytes".to_vec();
    let sig_hex = sign(&sk, &ts, &body);
    let sig_bytes = hex::decode(&sig_hex).unwrap();

    // a bit flipped in the timestamp
    let mut ts2 = ts.clone();
    ts2[0] ^= 0x01;
    let msg = build(&ts2, &body);
    assert_eq!(verify(pk_hex.as_bytes(), &msg, sig_hex.as_bytes()), Verdict::Forged);

    // a bit flipped in the body
    let mut body2 = body.clone();
    body2[3] ^= 0x80;
    let msg = build(&ts, &body2);
    assert_eq!(verify(pk_hex.as_bytes(), &msg, sig_hex.as_bytes()), Verdict::Forged);

    // a bit flipped in the signature
    let mut sig2 = sig_bytes.clone();
    sig2[10] ^= 0x04;
    let msg = build(&ts, &body);
    let sig2_hex = hex::encode(&sig2);
    assert_eq!(verify(pk_hex.as_bytes(), &msg, sig2_hex.as_bytes()), Verdict::Forged);
}

#[test]
fn malformed_credentials_are_forged() {
    let (sk, pk_hex) = keypair();
    let ts = b"1";
    let body = b"x";
    let msg = build(ts, body);
    let sig_hex = sign(&sk, ts, body);
    // odd-length key hex
    assert_eq!(verify(b"abc", &msg, sig_hex.as_bytes()), Verdict::Forged);
    // non-digit in signature hex
    let mut bad_sig = sig_hex.clone().into_bytes();
    bad_sig[0] = b'g';
    assert_eq!(verify(pk_hex.as_bytes(), &msg, &bad_sig), Verdict::Forged);
    // wrong signature length
    assert_eq!(verify(pk_hex.as_bytes(), &msg, b"0a0b"), Verdict::Forged);
    // wrong key length
    assert_eq!(verify(b"0a0b", &msg, sig_hex.as_bytes()), Verdict::Forged);
}

const PING_BODY: &[u8] =
    b"{\"id\":\"111\",\"application_id\":\"222\",\"type\":1,\"token\":\"tok\",\"version\":1}";

#[test]
fn missing_header_is_rejected_before_parsing() {
    let (sk, pk_hex) = keypair();
    let ts = b"1700000000";
    let sig_hex = sign(&sk, ts, PING_BODY);

    let r = handle(pk_hex.as_bytes(), None, Some(sig_hex.as_bytes()), PING_BODY);
    assert!(matches!(r, Outcome::BadSignature));
    let r = handle(pk_hex.as_bytes(), Some(ts), None, PING_BODY);
    assert!(matches!(r, Outcome::BadSignature));
    let r = handle(pk_hex.as_bytes(), Some(b""), Some(sig_hex.as_bytes()), PING_BODY);
    assert!(matches!(r, Outcome::BadSignature));

    let resp = response_of(&handle(pk_hex.as_bytes(), None, None, PING_BODY));
    assert_eq!(resp.status, 400);
    assert_eq!(resp.body, b"Bad Signature".to_vec());
}

#[test]
fn forged_request_is_rejected() {
    let (sk, pk_hex) = keypair();
    let other = SigningKey::from_bytes(&[9u8; 32]);
    let ts = b"1700000000";
    let sig_hex = sign(&other, ts, PING_BODY);
    let r = handle(pk_hex.as_bytes(), Some(ts), Some(sig_hex.as_bytes()), PING_BODY);
    assert!(matches!(r, Outcome::BadSignature));
    let _ = sk;
}

#[test]
fn authentic_unparseable_body_is_a_distinct_client_error() {
    let (sk, pk_hex) = keypair();
    let ts = b"1700000000";
    let body = b"{\"id\":\"111\",oops";
    let sig_hex = sign(&sk, ts, body);
    let r = handle(pk_hex.as_bytes(), Some(ts), Some(sig_hex.as_bytes()), body);
    assert!(matches!(r, Outcome::MalformedBody));
    assert!(!matches!(r, Outcome::BadSignature));
    let resp = response_of(&r);
    assert_eq!(resp.status, 400);
    assert_eq!(resp.body, b"Malformed Body".to_vec());
}

#[test]
fn non_text_body_is_malformed_before_verification() {
    let (_, pk_hex) = keypair();
    let body: &[u8] = &[0xff, 0xfe, 0x01];
    let r = handle(pk_hex.as_bytes(), Some(b"1"), Some(b"00"), body);
    assert!(matches!(r, Outcome::MalformedBody));
}

#[test]
fn ping_is_acknowledged_with_no_action() {
    let (sk, pk_hex) = keypair();
    let ts = b"1700000000";
    let sig_hex = sign(&sk, ts, PING_BODY);
    let r = handle(pk_hex.as_bytes(), Some(ts), Some(sig_hex.as_bytes()), PING_BODY);
    match &r {
        Outcome::Acknowledge { action } => assert!(matches!(action, Action::Nothing)),
        other => panic!("unexpected outcome: {:?}", response_of(other).status),
    }
    let resp = response_of(&r);
    assert_eq!(resp.status, 200);
    assert_eq!(resp.body, b"{\"type\": 1}".to_vec());
}

#[test]
fn command_invocation_registers_the_default_command() {
    let (sk, pk_hex) = keypair();
    let ts = b"1700000001";
    let body =
        b"{\"id\":\"111\",\"application_id\":\"222\",\"type\":2,\"token\":\"tok\",\"version\":1}";
    let sig_hex = sign(&sk, ts, body);
    let r = handle(pk_hex.as_bytes(), Some(ts), Some(sig_hex.as_bytes()), body);
    match &r {
        Outcome::Acknowledge { action } => match action {
            Action::RegisterCommand { application_id, command } => {
                assert_eq!(application_id, &b"222".to_vec());
                assert_eq!(
                    command.to_json(),
                    b"{\"name\":\"hello\",\"description\":\"hello world\",\"options\":null}"
                        .to_vec()
                );
            }
            _ => panic!("expected a registration action"),
        },
        _ => panic!("expected an acknowledgment"),
    }
    let resp = response_of(&r);
    assert_eq!(resp.status, 200);
    assert_eq!(resp.body, b"{\"type\": 1}".to_vec());
}

#[test]
fn component_interaction_replies_by_id_and_token() {
    let (sk, pk_hex) = keypair();
    let ts = b"1700000002";
    let body =
        b"{\"id\":\"111\",\"application_id\":\"222\",\"type\":3,\"token\":\"tok\",\"version\":1}";
    let sig_hex = sign(&sk, ts, body);
    let r = handle(pk_hex.as_bytes(), Some(ts), Some(sig_hex.as_bytes()), body);
    match &r {
        Outcome::Acknowledge { action } => match action {
            Action::Reply { id, token, message } => {
                assert_eq!(id, &b"111".to_vec());
                assert_eq!(token, &b"tok".to_vec());
                assert_eq!(message, &b"Hello from Spin!".to_vec());
            }
            _ => panic!("expected a reply action"),
        },
        _ => panic!("expected an acknowledgment"),
    }
    assert_eq!(response_of(&r).status, 200);
}

#[test]
fn unknown_type_is_a_client_error_with_no_action() {
    let (sk, pk_hex) = keypair();
    let ts = b"1700000003";
    let body =
        b"{\"id\":\"111\",\"application_id\":\"222\",\"type\":9,\"token\":\"tok\",\"version\":1}";
    let sig_hex = sign(&sk, ts, body);
    let r = handle(pk_hex.as_bytes(), Some(ts), Some(sig_hex.as_bytes()), body);
    match &r {
        Outcome::UnknownType { tag } => assert_eq!(*tag, 9),
        _ => panic!("expected an unknown-type rejection"),
    }
    let resp = response_of(&r);
    assert_eq!(resp.status, 400);
    assert_eq!(resp.body, b"Unknown Interaction Type".to_vec());
}
