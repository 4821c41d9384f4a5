use rcli::process::csv_convert::ConvertError;
use rcli::process::text::max_text_plaintext;
use rcli::utils::{join_text, same_bytes, same_text, to_array};
use rcli::TextError;

#[test]
fn arrays_are_copies_of_their_slices() {
    let bytes: Vec<u8> = (0u8..64).collect();
    let four: [u8; 4] = to_array(&bytes[..4]);
    assert_eq!(four, [0, 1, 2, 3]);
    let all: [u8; 64] = to_array(&bytes);
    assert_eq!(all.to_vec(), bytes);
    let none: [u8; 0] = to_array(&[]);
    assert_eq!(none.len(), 0);
}

#[test]
fn texts_compare_and_join() {
    assert!(same_text("", ""));
    assert!(same_text("blake3", "blake3"));
    assert!(!same_text("blake3", "Blake3"));
    assert!(!same_text("blake3", "blake"));
    assert!(!same_text("é", "e"));
    assert_eq!(join_text("File not found: ", "a.txt"), "File not found: a.txt");
    assert_eq!(join_text("", ""), "");
    assert_eq!(join_text("a", ""), "a");
    assert_eq!(join_text("", "b"), "b");
}

#[test]
fn every_error_has_its_message() {
    assert_eq!(TextError::InvalidKeyLength.message(), "Invalid key length");
    assert_eq!(TextError::KeyParseError.message(), "Invalid key");
    assert_eq!(
        TextError::SignatureFormatError.message(),
        "Invalid signature length"
    );
    assert_eq!(TextError::EncodingError.message(), "Invalid encoding");
    assert_eq!(
        TextError::UnsupportedOperation.message(),
        "Unsupported operation"
    );
    assert_eq!(TextError::EncryptError.message(), "Encrypt error");
    assert_eq!(TextError::DecryptError.message(), "Decrypt error");
    assert_eq!(ConvertError::InvalidCsv.message(), "Invalid CSV input");
    assert_eq!(
        ConvertError::Unwritable.message(),
        "Records cannot be written in this format"
    );
}

#[test]
fn longest_plaintext_whose_envelope_fits_in_text() {
    let limit = max_text_plaintext() as u128;
    let max = isize::MAX as u128;
    // 12 bytes of nonce and 16 of tag around it, four characters for three bytes
    assert!((4 * (limit + 28) + 2) / 3 <= max);
    assert!((4 * (limit + 29) + 2) / 3 > max);
    assert_eq!(limit, max * 3 / 4 - 28);
}

#[test]
fn byte_strings_compare() {
    assert!(same_bytes(b"", b""));
    assert!(same_bytes(b"abc", b"abc"));
    assert!(!same_bytes(b"abc", b"abd"));
    assert!(!same_bytes(b"abc", b"xbc"));
    assert!(!same_bytes(b"abc", b"ab"));
    assert!(!same_bytes(b"", b"a"));
}
