use cableguard::{
    check_signature, owner_public_key, rodt_id_request, rodt_id_text, signature_from_decoded,
    token_request, try_verify_rodt_match, verify_and_fetch_rodt_id, verify_rodt_match, Rodt,
    SignatureCheck, VerificationFailure, WireGuardError,
};
use ed25519_dalek::{ExpandedSecretKey, PublicKey, SecretKey};

/// An identifier field that holds `id`.
fn field(id: &[u8]) -> [u8; 128] {
    let mut field = [0u8; 128];
    field[..id.len()].copy_from_slice(id);
    field
}

/// A key pair's public key, in hexadecimal, and its signature of `message`.
fn signed(secret: u8, message: &[u8]) -> (String, [u8; 64]) {
    let secret = SecretKey::from_bytes(&[secret; 32]).unwrap();
    let public = PublicKey::from(&secret);
    let signature = ExpandedSecretKey::from(&secret).sign(message, &public);
    (hex::encode(public.to_bytes()), signature.to_bytes())
}

fn token(owner_id: &str) -> Option<Rodt> {
    Some(Rodt { owner_id: owner_id.to_string() })
}

/// 32 bytes that are no point of the curve.
fn no_key() -> String {
    let mut bytes = [0u8; 32];
    bytes[0] = 2;
    hex::encode(bytes)
}

#[test]
fn identifier_texts() {
    assert_eq!(rodt_id_text(&field(b"token-1")), Some("token-1".to_string()));
    assert_eq!(rodt_id_text(&[0u8; 128]), Some(String::new()));
    assert_eq!(rodt_id_text(&[b'x'; 128]), Some("x".repeat(128)));
    assert_eq!(rodt_id_text(&field(b"a\0b")), Some("a\0b".to_string()));
    assert_eq!(rodt_id_text(&field("caf\u{e9}".as_bytes())), Some("caf\u{e9}".to_string()));
    assert_eq!(rodt_id_text(&field(&[0xff])), None);
    assert_eq!(rodt_id_text(&field(&[b'a', 0xc3])), None);
}

#[test]
fn token_requests() {
    assert_eq!(token_request("abc"), "{\"token_id\": \"abc\"}");
    assert_eq!(rodt_id_request(&field(b"token-1")), "{\"token_id\": \"token-1\"}");
    assert_eq!(rodt_id_request(&[0u8; 128]), "{\"token_id\": \"\"}");
}

#[test]
fn owners() {
    assert_eq!(owner_public_key(&"0aF0".repeat(16)).unwrap()[..2], [0x0a, 0xf0]);
    assert_eq!(owner_public_key(&"00".repeat(31)), None);
    assert_eq!(owner_public_key(&"00".repeat(33)), None);
    assert_eq!(owner_public_key(&"0".repeat(63)), None);
    assert_eq!(owner_public_key(&"0g".repeat(32)), None);
}

#[test]
fn decoded_signatures() {
    assert_eq!(signature_from_decoded(Some(vec![7; 64])), Some([7; 64]));
    assert_eq!(signature_from_decoded(Some(vec![7; 63])), None);
    assert_eq!(signature_from_decoded(Some(vec![7; 65])), None);
    assert_eq!(signature_from_decoded(None), None);
}

#[test]
fn known_signature() {
    let key = "d75a980182b10ab7d54bfed3c964073a0ee172f3daa62325af021a68f707511a";
    let signature = "e5564300c360ac729086e2cc806e828a84877f1eb8e5d974d873e065224901555fb8821590a33bacc61e39701cf9b46bd25bf5f0595bbe24655141438e7a100b";
    let key = owner_public_key(key).unwrap();
    let signature = signature_from_decoded(hex::decode(signature).ok()).unwrap();
    assert_eq!(check_signature(&key, b"", &signature), SignatureCheck::Match);
    assert_eq!(check_signature(&key, b"r", &signature), SignatureCheck::Mismatch);
    let mut other = signature;
    other[0] ^= 1;
    assert_eq!(check_signature(&key, b"", &other), SignatureCheck::Mismatch);
    other[63] |= 0x20;
    assert_eq!(check_signature(&key, b"", &other), SignatureCheck::MalformedSignature);
    let no_key = owner_public_key(&no_key()).unwrap();
    assert_eq!(check_signature(&no_key, b"", &signature), SignatureCheck::MalformedKey);
    // The signature is looked at before the key
    assert_eq!(check_signature(&no_key, b"", &other), SignatureCheck::MalformedSignature);
}

#[test]
fn owner_of_the_token_is_accepted() {
    let (owner_id, signature) = signed(1, b"token-1");
    match verify_and_fetch_rodt_id(field(b"token-1"), signature, token(&owner_id)) {
        Ok((true, rodt)) => assert_eq!(rodt.owner_id, owner_id),
        other => panic!("{:?}", other),
    }
}

#[test]
fn others_are_refused() {
    let (owner_id, signature) = signed(1, b"token-1");
    let (other_id, _) = signed(2, b"token-1");
    let id = field(b"token-1");
    let refused = |e| VerificationFailure::Refused(e);

    let mismatch = verify_and_fetch_rodt_id(id, signature, token(&other_id));
    assert_eq!(
        mismatch.unwrap_err(),
        refused(WireGuardError::PeerEd25519SignatureVerificationFailure)
    );
    let other_token = verify_and_fetch_rodt_id(field(b"token-2"), signature, token(&owner_id));
    assert_eq!(
        other_token.unwrap_err(),
        refused(WireGuardError::PeerEd25519SignatureVerificationFailure)
    );
    let no_owner = verify_and_fetch_rodt_id(id, signature, token(&no_key()));
    assert_eq!(
        no_owner.unwrap_err(),
        refused(WireGuardError::PeerEd25519PublicKeyParsingFailure)
    );
    let no_signature = verify_and_fetch_rodt_id(id, [0xff; 64], token(&owner_id));
    assert_eq!(
        no_signature.unwrap_err(),
        refused(WireGuardError::PeerEd25519SignatureParsingFailure)
    );
}

#[test]
fn missing_token_ends_the_process() {
    let (_, signature) = signed(1, b"token-1");
    let missing = verify_and_fetch_rodt_id(field(b"token-1"), signature, None);
    assert_eq!(missing.unwrap_err(), VerificationFailure::Exit(1));
}

#[test]
fn zero_bytes_behind_the_identifier_are_not_signed() {
    let (owner_id, over_the_field) = signed(1, &field(b"token-1"));
    let refused = verify_and_fetch_rodt_id(field(b"token-1"), over_the_field, token(&owner_id));
    assert!(refused.is_err());
    let (owner_id, whole) = signed(1, &[b'x'; 128]);
    assert!(verify_and_fetch_rodt_id([b'x'; 128], whole, token(&owner_id)).is_ok());
}

#[test]
fn service_provider_vouches() {
    let (owner_id, signature) = signed(3, b"peer-token");
    let (other_id, _) = signed(4, b"peer-token");
    let text = base64::encode(signature);
    let id = field(b"peer-token");
    assert!(verify_rodt_match(text.clone(), id, token(&owner_id)));
    assert!(!verify_rodt_match(text.clone(), id, token(&other_id)));
    assert!(!verify_rodt_match(text.clone(), field(b"another"), token(&owner_id)));
    assert!(!verify_rodt_match(text.clone(), id, token(&no_key())));
    assert!(!verify_rodt_match(base64::encode([0xff; 64]), id, token(&owner_id)));
    // A token that was not found vouches for nobody
    assert!(!verify_rodt_match(text, id, None));
    assert!(!verify_rodt_match("no base64".to_string(), id, None));
}

#[test]
fn service_provider_on_any_input() {
    let (owner_id, signature) = signed(3, b"peer-token");
    let text = base64::encode(signature);
    let id = field(b"peer-token");
    assert_eq!(try_verify_rodt_match(text.clone(), id, token(&owner_id)), Some(true));
    assert_eq!(try_verify_rodt_match(text.clone(), id, None), Some(false));
    assert_eq!(try_verify_rodt_match("no base64".to_string(), id, None), Some(false));
    assert_eq!(try_verify_rodt_match("no base64".to_string(), id, token(&owner_id)), None);
    let short = base64::encode([1u8; 63]);
    assert_eq!(try_verify_rodt_match(short, id, token(&owner_id)), None);
    assert_eq!(try_verify_rodt_match(text.clone(), id, token("no key")), None);
    assert_eq!(try_verify_rodt_match(text, [0xff; 128], None), None);
}
