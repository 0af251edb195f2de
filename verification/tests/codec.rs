use mptt::codec::{float32_bits, float32_bits_sequence, hex_render};

#[test]
fn float32_bits_concatenates_pair() {
    let bits = float32_bits(100, 200);
    assert_eq!(bits, (100u32 << 16) | 200u32);
    assert_eq!(float32_bits(0, 0), 0);
    assert_eq!(float32_bits(0xFFFF, 0xFFFF), 0xFFFF_FFFF);
    assert_eq!(float32_bits(0x3F80, 0x0000), 0x3F80_0000);
    assert_eq!(f32::from_bits(float32_bits(0x3F80, 0x0000)), 1.0f32);
}

#[test]
fn float32_decoding_is_deterministic() {
    let pairs: [(u16, u16); 4] = [(100, 200), (0, 0), (0xFFFF, 0xFFFF), (0x7FC0, 1)];
    for (h, l) in pairs {
        let first = f32::from_bits(float32_bits(h, l));
        let second = f32::from_bits(float32_bits(h, l));
        assert_eq!(first.to_bits(), second.to_bits());
    }
}

#[test]
fn sequence_of_empty_is_empty() {
    let words: Vec<u16> = Vec::new();
    let decoded = float32_bits_sequence(&words);
    assert!(decoded.is_empty());
}

#[test]
fn sequence_of_odd_length_drops_last_word() {
    let words: Vec<u16> = vec![100, 200, 300, 400, 500];
    let decoded = float32_bits_sequence(&words);
    assert_eq!(decoded.len(), 2);
    assert_eq!(decoded[0], (100u32 << 16) | 200u32);
    assert_eq!(decoded[1], (300u32 << 16) | 400u32);
}

#[test]
fn sequence_of_one_word_is_empty() {
    let words: Vec<u16> = vec![42];
    let decoded = float32_bits_sequence(&words);
    assert!(decoded.is_empty());
}

#[test]
fn sequence_of_even_length_pairs_all_words() {
    let words: Vec<u16> = vec![1, 2, 3, 4];
    let decoded = float32_bits_sequence(&words);
    assert_eq!(decoded.len(), 2);
    assert_eq!(decoded[0], (1u32 << 16) | 2u32);
    assert_eq!(decoded[1], (3u32 << 16) | 4u32);
}

#[test]
fn hex_rendering_is_zero_padded_uppercase() {
    assert_eq!(hex_render(100), "0x0064");
    assert_eq!(hex_render(200), "0x00C8");
    assert_eq!(hex_render(300), "0x012C");
    assert_eq!(hex_render(400), "0x0190");
    assert_eq!(hex_render(500), "0x01F4");
    assert_eq!(hex_render(0), "0x0000");
    assert_eq!(hex_render(0xFFFF), "0xFFFF");
    assert_eq!(hex_render(0xABCD), "0xABCD");
    assert_eq!(hex_render(0x0E1F), "0x0E1F");
}
