use ext_proc::base64::{base64_encode, Encoder};

#[test]
fn test_encode_even() {
    let mut encoder = Encoder::new();
    let result = encoder.encode(b"abc", true);
    assert_eq!(result, "YWJj");
}

#[test]
fn test_encode_odd() {
    let mut encoder = Encoder::new();
    let result = encoder.encode(b"abcd", true);
    assert_eq!(result, "YWJjZA==");
}

#[test]
fn test_encode_even_chunks() {
    let mut encoder = Encoder::new();
    assert_eq!(encoder.encode(b"abc", false), "YWJj");
    assert_eq!(encoder.encode(b"de", true), "ZGU=");
}

#[test]
fn test_encode_odd_chunks() {
    let mut encoder = Encoder::new();
    assert_eq!(encoder.encode(b"abcde", false), "YWJj");
    assert_eq!(encoder.encode(b"fg", true), "ZGVmZw==");
}

#[test]
fn test_one_shot_empty() {
    assert_eq!(base64_encode(b""), "");
}

#[test]
fn test_one_shot_padding() {
    assert_eq!(base64_encode(b"a"), "YQ==");
    assert_eq!(base64_encode(b"ab"), "YWI=");
    assert_eq!(base64_encode(b"abc"), "YWJj");
    assert_eq!(base64_encode(b"abcd"), "YWJjZA==");
}

#[test]
fn test_one_shot_all_alphabet_rows() {
    // Exercises upper case, lower case, digits and the two symbol characters.
    assert_eq!(base64_encode(&[0x00, 0x10, 0x83]), "ABCD");
    assert_eq!(base64_encode(&[0xfb, 0xef, 0xbe]), "++++");
    assert_eq!(base64_encode(&[0xff, 0xff, 0xff]), "////");
    assert_eq!(base64_encode(b"hello world"), "aGVsbG8gd29ybGQ=");
}

#[test]
fn test_empty_non_final_calls() {
    let mut encoder = Encoder::new();
    assert_eq!(encoder.encode(b"", false), "");
    assert_eq!(encoder.encode(b"a", false), "");
    assert_eq!(encoder.encode(b"", false), "");
    assert_eq!(encoder.encode(b"bc", false), "YWJj");
    assert_eq!(encoder.encode(b"", true), "");
}

#[test]
fn test_final_call_drains_leftovers() {
    let mut encoder = Encoder::new();
    assert_eq!(encoder.encode(b"abcd", false), "YWJj");
    assert_eq!(encoder.encode(b"", true), "ZA==");
}

#[test]
fn test_encoder_reusable_after_final() {
    let mut encoder = Encoder::new();
    assert_eq!(encoder.encode(b"ab", true), "YWI=");
    assert_eq!(encoder.encode(b"abc", true), "YWJj");
}

#[test]
fn test_chunking_never_changes_result() {
    let data: Vec<u8> = (0u8..=255u8).collect();
    let mut one_shot = Encoder::new();
    let expected = one_shot.encode(&data, true);
    for chunk_len in 1..7usize {
        let mut encoder = Encoder::new();
        let mut out = String::new();
        for chunk in data.chunks(chunk_len) {
            out.push_str(&encoder.encode(chunk, false));
        }
        out.push_str(&encoder.encode(b"", true));
        assert_eq!(out, expected);
    }
}
