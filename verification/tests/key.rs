use aes_file_encrypt::error::CipherError;
use aes_file_encrypt::key::get_random_key;
use aes_file_encrypt::key::key_from_fill;
use aes_file_encrypt::key::validate_iv;
use aes_file_encrypt::key::CipherVariant;

#[test]
fn variant_key_lengths() {
    assert_eq!(CipherVariant::Aes128.key_len(), 16);
    assert_eq!(CipherVariant::Aes192.key_len(), 24);
    assert_eq!(CipherVariant::Aes256.key_len(), 32);
    assert_eq!(CipherVariant::Aes128.key_bits(), 128);
    assert_eq!(CipherVariant::Aes192.key_bits(), 192);
    assert_eq!(CipherVariant::Aes256.key_bits(), 256);
}

#[test]
fn variant_is_selected_by_key_length() {
    assert_eq!(CipherVariant::for_key_len(16), Ok(CipherVariant::Aes128));
    assert_eq!(CipherVariant::for_key_len(24), Ok(CipherVariant::Aes192));
    assert_eq!(CipherVariant::for_key_len(32), Ok(CipherVariant::Aes256));
    for len in [0usize, 1, 8, 15, 17, 23, 25, 31, 33, 48, 128, 256] {
        assert_eq!(CipherVariant::for_key_len(len), Err(CipherError::UnsupportedKeySize));
    }
}

#[test]
fn variant_from_menu_answer() {
    assert_eq!(CipherVariant::from_choice("1"), Some(CipherVariant::Aes128));
    assert_eq!(CipherVariant::from_choice("2"), Some(CipherVariant::Aes192));
    assert_eq!(CipherVariant::from_choice("3"), Some(CipherVariant::Aes256));
    for other in ["", "0", "4", "11", "1 ", "one", "128", "\u{ff11}"] {
        assert_eq!(CipherVariant::from_choice(other), None);
    }
}

#[test]
fn random_key_has_the_length_asked_for() {
    for len in [0usize, 1, 16, 24, 32, 100] {
        assert_eq!(get_random_key(len).unwrap().len(), len);
    }
}

#[test]
fn random_keys_are_filled_and_differ() {
    let a = get_random_key(32).unwrap();
    let b = get_random_key(32).unwrap();
    assert_ne!(a, vec![0u8; 32]);
    assert_ne!(b, vec![0u8; 32]);
    assert_ne!(a, b);
}

#[test]
fn filled_buffer_becomes_the_key() {
    assert_eq!(key_from_fill(vec![1, 2, 3], Ok(())), Ok(vec![1, 2, 3]));
    assert_eq!(key_from_fill(Vec::new(), Ok(())), Ok(Vec::new()));
}

#[test]
fn failed_random_source_yields_no_key() {
    let failure = rand::Error::new("entropy source unavailable");
    assert_eq!(key_from_fill(vec![0u8; 16], Err(failure)), Err(CipherError::RandomSource));
}

#[test]
fn vector_phrase_of_valid_length_is_accepted() {
    assert_eq!(validate_iv("0123456789abcdef"), Ok(b"0123456789abcdef".to_vec()));
    assert_eq!(
        validate_iv("0123456789abcdef01234567"),
        Ok(b"0123456789abcdef01234567".to_vec())
    );
    assert_eq!(
        validate_iv("0123456789abcdef0123456789abcdef"),
        Ok(b"0123456789abcdef0123456789abcdef".to_vec())
    );
}

#[test]
fn vector_phrase_of_other_length_is_rejected() {
    for len in [0usize, 1, 8, 15, 17, 23, 25, 31, 33, 64] {
        let phrase = "x".repeat(len);
        assert_eq!(validate_iv(&phrase), Err(CipherError::InvalidIvLength));
    }
}

#[test]
fn vector_phrase_is_measured_in_bytes() {
    let eight_two_byte_chars = "\u{e9}".repeat(8);
    assert_eq!(validate_iv(&eight_two_byte_chars), Ok(eight_two_byte_chars.as_bytes().to_vec()));
    let sixteen_two_byte_chars = "\u{e9}".repeat(16);
    assert_eq!(sixteen_two_byte_chars.len(), 32);
    assert!(validate_iv(&sixteen_two_byte_chars).is_ok());
    let twelve_two_byte_chars = "\u{e9}".repeat(12);
    assert!(validate_iv(&twelve_two_byte_chars).is_ok());
    let sixteen_three_byte_chars = "\u{20ac}".repeat(16);
    assert_eq!(validate_iv(&sixteen_three_byte_chars), Err(CipherError::InvalidIvLength));
}
