use rcli::process::b64::{wire_decode, wire_encode};
use rcli::{process_decode, process_encode, Base64Format, TextError};

#[test]
fn test_process_encode_standard() {
    let input = b"hello,world\n";
    let format = Base64Format::Standard;
    let no_padding = false;
    let encoded = process_encode(input, format, no_padding);
    assert_eq!("aGVsbG8sd29ybGQK", encoded);
    let output = "aGVsbG8sd29ybGQ=\n";
    let decoded = process_decode(output, format, no_padding).unwrap();
    assert_eq!("hello,world", String::from_utf8_lossy(&decoded));
}

#[test]
fn fixed_vector_round_trips() {
    let text = "aGVsbG8sd29ybGQK";
    let decoded = process_decode(text, Base64Format::Standard, false).unwrap();
    assert_eq!(decoded, b"hello,world\n".to_vec());
    assert_eq!(decoded.len(), 12);
    assert_eq!(process_encode(&decoded, Base64Format::Standard, false), text);
}

#[test]
fn alphabets_and_padding() {
    let bytes = [0xfbu8, 0xff];
    assert_eq!(process_encode(&bytes, Base64Format::Standard, false), "+/8=");
    assert_eq!(process_encode(&bytes, Base64Format::Standard, true), "+/8");
    assert_eq!(process_encode(&bytes, Base64Format::UrlSafe, false), "-_8=");
    assert_eq!(process_encode(&bytes, Base64Format::UrlSafe, true), "-_8");
    assert_eq!(process_encode(&[], Base64Format::Standard, false), "");
}

#[test]
fn encoded_lengths() {
    for n in 0usize..20 {
        let bytes = vec![0x5au8; n];
        let padded = process_encode(&bytes, Base64Format::Standard, false);
        let bare = process_encode(&bytes, Base64Format::UrlSafe, true);
        assert_eq!(padded.len(), (n + 2) / 3 * 4);
        assert_eq!(bare.len(), (4 * n + 2) / 3);
    }
}

#[test]
fn decoding_undoes_encoding_in_every_variant() {
    let bytes: Vec<u8> = (0u8..=255).collect();
    for format in [Base64Format::Standard, Base64Format::UrlSafe] {
        for no_padding in [false, true] {
            for n in [0usize, 1, 2, 3, 4, 31, 32, 64, 256] {
                let text = process_encode(&bytes[..n], format, no_padding);
                assert_eq!(
                    process_decode(&text, format, no_padding),
                    Ok(bytes[..n].to_vec())
                );
            }
        }
    }
}

#[test]
fn decoding_ignores_whitespace_around_the_text_only() {
    let format = Base64Format::Standard;
    assert_eq!(
        process_decode("  aGVsbG8=\r\n\t", format, false),
        Ok(b"hello".to_vec())
    );
    assert_eq!(
        process_decode("\u{a0}aGVsbG8=\u{3000}", format, false),
        Ok(b"hello".to_vec())
    );
    assert_eq!(
        process_decode("aGVs bG8=", format, false),
        Err(TextError::EncodingError)
    );
    assert_eq!(process_decode("   ", format, false), Ok(vec![]));
}

#[test]
fn decoding_refuses_what_is_not_canonical() {
    let standard = Base64Format::Standard;
    let url_safe = Base64Format::UrlSafe;
    // padding is required with it and refused without it
    assert_eq!(
        process_decode("aGVsbG8", standard, false),
        Err(TextError::EncodingError)
    );
    assert_eq!(
        process_decode("aGVsbG8=", standard, true),
        Err(TextError::EncodingError)
    );
    assert_eq!(process_decode("aGVsbG8", standard, true), Ok(b"hello".to_vec()));
    // the other alphabet's characters
    assert_eq!(
        process_decode("-_8=", standard, false),
        Err(TextError::EncodingError)
    );
    assert_eq!(
        process_decode("+/8=", url_safe, false),
        Err(TextError::EncodingError)
    );
    // truncated, and with bits that would be dropped
    assert_eq!(
        process_decode("a", standard, true),
        Err(TextError::EncodingError)
    );
    assert_eq!(
        process_decode("aGVsbG9=", standard, false),
        Err(TextError::EncodingError)
    );
}

#[test]
fn wire_codec_is_url_safe_without_padding() {
    let bytes = [0xfbu8, 0xff, 0xfe];
    assert_eq!(wire_encode(&bytes), "-__-");
    assert_eq!(wire_encode(&[0xfb, 0xff]), "-_8");
    assert_eq!(wire_decode(b"-_8"), Ok(vec![0xfb, 0xff]));
    assert_eq!(wire_decode(b"-_8="), Err(TextError::EncodingError));
    assert_eq!(wire_decode(b"+/8"), Err(TextError::EncodingError));
    assert_eq!(wire_decode(b""), Ok(vec![]));
    assert_eq!(wire_encode(&[0u8; 32]).len(), 43);
    assert_eq!(wire_encode(&[0u8; 64]).len(), 86);
}

#[test]
fn texts_are_written_in_their_alphabet() {
    let bytes: Vec<u8> = (0u8..=255).collect();
    let letter_or_digit = |c: char| c.is_ascii_alphanumeric();
    let text = process_encode(&bytes, Base64Format::Standard, false);
    assert!(text.chars().all(|c| letter_or_digit(c) || "+/=".contains(c)));
    assert!(text.contains('+') && text.contains('/') && text.ends_with('='));
    let text = process_encode(&bytes, Base64Format::Standard, true);
    assert!(text.chars().all(|c| letter_or_digit(c) || "+/".contains(c)));
    let text = process_encode(&bytes, Base64Format::UrlSafe, false);
    assert!(text.chars().all(|c| letter_or_digit(c) || "-_=".contains(c)));
    assert!(text.contains('-') && text.contains('_') && text.ends_with('='));
    let text = wire_encode(&bytes);
    assert!(text.chars().all(|c| letter_or_digit(c) || "-_".contains(c)));
    assert_eq!(text, process_encode(&bytes, Base64Format::UrlSafe, true));
}
