use yep_anywhere_desktop::token::{generate_token, token_from_bytes, TOKEN_BYTES};

#[test]
fn token_is_64_lowercase_hex_characters() {
    for _ in 0..50 {
        let t = generate_token();
        assert_eq!(t.len(), 64);
        assert_eq!(t.len(), 2 * TOKEN_BYTES);
        assert!(t.chars().all(|c| matches!(c, '0'..='9' | 'a'..='f')));
    }
}

#[test]
fn consecutive_tokens_differ() {
    let a = generate_token();
    let b = generate_token();
    assert_ne!(a, b);
}

#[test]
fn hex_rendering_is_exact() {
    assert_eq!(token_from_bytes(&[]), "");
    assert_eq!(token_from_bytes(&[0x00, 0xff, 0x1a, 0xa1, 0x09, 0x90]), "00ff1aa10990");
    assert_eq!(token_from_bytes(&[0xde, 0xad, 0xbe, 0xef]), "deadbeef");
    let all: Vec<u8> = (0u8..=255).collect();
    let expected: String = all.iter().map(|b| format!("{b:02x}")).collect();
    assert_eq!(token_from_bytes(&all), expected);
}

#[test]
fn different_bytes_render_differently() {
    assert_ne!(token_from_bytes(&[0x01, 0x10]), token_from_bytes(&[0x10, 0x01]));
    assert_ne!(token_from_bytes(&[0x0a]), token_from_bytes(&[0xa0]));
}
