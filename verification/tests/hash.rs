use ffi_rust::djb2::{DJB2_FACTOR, DJB2_SEED};
use ffi_rust::hash_djb2;

/// The accumulator over wide integers, reduced once at the end. Only for
/// texts short enough that it stays below 2^128.
fn wide_hash(text: &[u8]) -> u64 {
    let mut acc: u128 = 5381;
    for byte in text {
        acc = acc * 33 + u128::from(*byte);
    }
    (acc % (1u128 << 64)) as u64
}

#[test]
fn absent_buffer_hashes_to_zero() {
    assert_eq!(hash_djb2(None), 0);
}

#[test]
fn empty_text_hashes_to_seed() {
    assert_eq!(hash_djb2(Some(b"\0")), 5381);
    assert_eq!(hash_djb2(Some(b"")), 5381);
    assert_eq!(hash_djb2(Some(b"\0ignored")), 5381);
}

#[test]
fn constants_are_the_classic_ones() {
    assert_eq!(DJB2_SEED, 5381);
    assert_eq!(DJB2_FACTOR, 33);
}

#[test]
fn single_byte_text() {
    assert_eq!(hash_djb2(Some(b"a\0")), 5381 * 33 + 97);
    assert_eq!(hash_djb2(Some(b"a\0")), 177670);
}

#[test]
fn short_texts() {
    assert_eq!(hash_djb2(Some(b"ab\0")), 5863208);
    assert_eq!(hash_djb2(Some(b"hello\0")), 210714636441);
}

#[test]
fn order_of_bytes_matters() {
    assert_ne!(hash_djb2(Some(b"ab\0")), hash_djb2(Some(b"ba\0")));
}

#[test]
fn long_texts_wrap() {
    assert_eq!(hash_djb2(Some(b"hello world\0")), 13876786532495509697);
    assert_eq!(
        hash_djb2(Some(b"The quick brown fox jumps over the lazy dog\0")),
        3950289020261251294
    );
    let run: Vec<u8> = vec![b'a'; 100];
    assert_eq!(hash_djb2(Some(&run)), 2969978410614338601);
    let high: Vec<u8> = vec![255u8; 20];
    assert_eq!(hash_djb2(Some(&high)), 16740449325647979953);
}

#[test]
fn text_ends_at_first_zero_byte() {
    assert_eq!(hash_djb2(Some(b"a\0b\0")), 177670);
    assert_eq!(hash_djb2(Some(b"hello\0world")), 210714636441);
}

#[test]
fn unterminated_buffer_is_all_text() {
    assert_eq!(hash_djb2(Some(b"a")), 177670);
    assert_eq!(hash_djb2(Some(b"hello")), 210714636441);
}

#[test]
fn equal_text_gives_equal_hash() {
    let first: Vec<u8> = b"same text\0one tail".to_vec();
    let second: Vec<u8> = b"same text\0another".to_vec();
    let third: Vec<u8> = b"same text".to_vec();
    let expected: u64 = hash_djb2(Some(&first));
    assert_eq!(hash_djb2(Some(&second)), expected);
    assert_eq!(hash_djb2(Some(&third)), expected);
    assert_eq!(hash_djb2(Some(&first)), expected);
}

#[test]
fn hash_is_wide_accumulator_reduced() {
    let texts: [&[u8]; 6] = [b"", b"a", b"zz", b"hello world", b"0123456789abcdef", b"\xff\xfe\xfd"];
    for text in texts {
        assert_eq!(hash_djb2(Some(text)), wide_hash(text));
    }
}

#[test]
fn buffer_is_left_untouched() {
    let buffer: Vec<u8> = b"caller owned\0".to_vec();
    let before: Vec<u8> = buffer.clone();
    let _: u64 = hash_djb2(Some(&buffer));
    assert_eq!(buffer, before);
}
