use cableguard::{keybytes_to_hex_string, KeyBytes};

fn counting() -> [u8; 32] {
    let mut bytes = [0u8; 32];
    for (i, byte) in bytes.iter_mut().enumerate() {
        *byte = i as u8;
    }
    bytes
}

#[test]
fn keys_in_hexadecimal() {
    let text = keybytes_to_hex_string(&KeyBytes(counting()));
    assert_eq!(text, "000102030405060708090a0b0c0d0e0f101112131415161718191a1b1c1d1e1f");
    let text = keybytes_to_hex_string(&KeyBytes([0xab; 32]));
    assert_eq!(text, "ab".repeat(32));
}

#[test]
fn hexadecimal_keys_come_back() {
    for seed in 0..=255u8 {
        let mut key = counting();
        for byte in key.iter_mut() {
            *byte = byte.wrapping_mul(37).wrapping_add(seed);
        }
        let text = keybytes_to_hex_string(&KeyBytes(key));
        assert_eq!(KeyBytes::from_str(&text).unwrap().0, key);
        assert_eq!(KeyBytes::from_str(&text.to_uppercase()).unwrap().0, key);
        let mixed: String = text
            .chars()
            .enumerate()
            .map(|(i, c)| if i % 3 == 0 { c.to_ascii_uppercase() } else { c })
            .collect();
        assert_eq!(KeyBytes::from_str(&mixed).unwrap().0, key);
    }
}

#[test]
fn illegal_hexadecimal_keys() {
    let illegal = "Illegal character in key";
    assert_eq!(KeyBytes::from_str(&"g0".repeat(32)).unwrap_err(), illegal);
    assert_eq!(KeyBytes::from_str(&"0-".repeat(32)).unwrap_err(), illegal);
    assert_eq!(KeyBytes::from_str(&"0+".repeat(32)).unwrap_err(), illegal);
    assert_eq!(KeyBytes::from_str(&"++".repeat(32)).unwrap_err(), illegal);
}

#[test]
fn plus_sign_for_the_first_digit_of_a_pair() {
    assert_eq!(KeyBytes::from_str(&"+f".repeat(32)).unwrap().0, [15u8; 32]);
}

#[test]
fn base64_keys() {
    let padded = "AAECAwQFBgcICQoLDA0ODxAREhMUFRYXGBkaGxwdHh8=";
    assert_eq!(KeyBytes::from_str(padded).unwrap().0, counting());
    let unpadded = "AAECAwQFBgcICQoLDA0ODxAREhMUFRYXGBkaGxwdHh8";
    assert_eq!(unpadded.len(), 43);
    assert_eq!(KeyBytes::from_str(unpadded).unwrap().0, counting());
    // 44 characters that stand for 33 bytes
    let long = "AAECAwQFBgcICQoLDA0ODxAREhMUFRYXGBkaGxwdHh8g";
    assert_eq!(KeyBytes::from_str(long).unwrap_err(), "Illegal character in key");
}

#[test]
fn undecodable_base64_gives_the_zero_key() {
    assert_eq!(KeyBytes::from_str(&"!".repeat(44)).unwrap().0, [0u8; 32]);
    // 43 characters of which the last holds bits that stand for nothing
    let trailing = "AAECAwQFBgcICQoLDA0ODxAREhMUFRYXGBkaGxwdHh9";
    assert_eq!(KeyBytes::from_str(trailing).unwrap().0, [0u8; 32]);
}

#[test]
fn key_sizes() {
    for length in [0, 1, 42, 45, 63, 65] {
        assert_eq!(KeyBytes::from_str(&"0".repeat(length)).unwrap_err(), "Illegal key size");
    }
}

#[test]
fn outcomes_of_base64() {
    assert_eq!(KeyBytes::from_base64_outcome(None).unwrap().0, [0u8; 32]);
    assert_eq!(KeyBytes::from_base64_outcome(Some(counting().to_vec())).unwrap().0, counting());
    let short = KeyBytes::from_base64_outcome(Some(vec![1; 31]));
    assert_eq!(short.unwrap_err(), "Illegal character in key");
}
