use rcli::{decode_b64, decode_signature, encode_b64, encode_signature, Base64Format};

#[test]
fn test_encode_known_values() {
    assert_eq!(encode_b64(b"hello", Base64Format::Standard), "aGVsbG8=");
    assert_eq!(encode_b64(b"hello", Base64Format::UrlSafe), "aGVsbG8");
    // 0xff 0xfe exercises the two characters where the alphabets differ.
    assert_eq!(encode_b64(&[0xff, 0xfe], Base64Format::Standard), "//4=");
    assert_eq!(encode_b64(&[0xff, 0xfe], Base64Format::UrlSafe), "__4");
    assert_eq!(encode_b64(b"", Base64Format::Standard), "");
}

#[test]
fn test_decode_known_values() {
    assert_eq!(
        decode_b64("aGVsbG8=", Base64Format::Standard),
        Some(b"hello".to_vec())
    );
    assert_eq!(
        decode_b64("__4", Base64Format::UrlSafe),
        Some(vec![0xff, 0xfe])
    );
}

#[test]
fn test_round_trip() {
    let cases: Vec<Vec<u8>> = vec![
        vec![],
        vec![0],
        vec![0xff],
        b"hello world".to_vec(),
        (0u8..=255).collect(),
    ];
    for x in cases {
        for format in [Base64Format::Standard, Base64Format::UrlSafe] {
            let text = encode_b64(&x, format);
            assert_eq!(decode_b64(&text, format), Some(x.clone()));
        }
        let sig_text = encode_signature(&x);
        assert_eq!(decode_signature(&sig_text), Some(x.clone()));
    }
}

#[test]
fn test_decode_rejects_bad_text() {
    // A space is outside every base64 alphabet.
    assert_eq!(decode_b64("ab cd", Base64Format::Standard), None);
    assert_eq!(decode_b64("ab cd", Base64Format::UrlSafe), None);
    // '+' and '/' belong to the standard alphabet only.
    assert_eq!(decode_b64("//4=", Base64Format::UrlSafe), None);
    // A single trailing character can never complete a byte.
    assert_eq!(decode_b64("a", Base64Format::UrlSafe), None);
    assert_eq!(decode_signature("not base64!"), None);
}
