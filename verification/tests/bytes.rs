use functor_runtime_common::bytes::words_to_bytes;

#[test]
fn words_to_bytes_empty() {
    let words: Vec<u32> = Vec::new();
    assert_eq!(words_to_bytes(&words), Vec::<u8>::new());
}

#[test]
fn words_to_bytes_known_word() {
    // The bit pattern of 1.0f32, laid out little-endian.
    let words: Vec<u32> = vec![0x3F80_0000];
    assert_eq!(words_to_bytes(&words), vec![0x00, 0x00, 0x80, 0x3F]);
}

#[test]
fn words_to_bytes_matches_float_encoding() {
    let floats: Vec<f32> = vec![-0.5, 0.0, 0.5, 1.0, 100.0, 3.25, -1.75];
    let words: Vec<u32> = floats.iter().map(|v| v.to_bits()).collect();
    let expected: Vec<u8> = floats.iter().flat_map(|v| v.to_le_bytes()).collect();
    let actual = words_to_bytes(&words);
    assert_eq!(actual.len(), 4 * words.len());
    assert_eq!(actual, expected);
}
