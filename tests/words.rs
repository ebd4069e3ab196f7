use sp1_prover_utils::words::{words_to_bytes, words_to_bytes_be, Word};

#[test]
fn words_to_bytes_be_is_big_endian_per_word() {
    let words = [0x01020304u32, 0xa0b0c0d0, 0, u32::MAX, 1, 0x100, 0x10000, 0x1000000];
    let bytes = words_to_bytes_be(&words);
    assert_eq!(&bytes[0..4], &[1, 2, 3, 4]);
    assert_eq!(&bytes[4..8], &[0xa0, 0xb0, 0xc0, 0xd0]);
    assert_eq!(&bytes[8..12], &[0, 0, 0, 0]);
    assert_eq!(&bytes[12..16], &[0xff, 0xff, 0xff, 0xff]);
    assert_eq!(&bytes[16..20], &[0, 0, 0, 1]);
    assert_eq!(&bytes[20..24], &[0, 0, 1, 0]);
    assert_eq!(&bytes[24..28], &[0, 1, 0, 0]);
    assert_eq!(&bytes[28..32], &[1, 0, 0, 0]);
    for i in 0..8 {
        assert_eq!(&bytes[4 * i..4 * i + 4], &words[i].to_be_bytes());
    }
}

#[test]
fn words_to_bytes_flattens_in_order() {
    let words = [Word([1u8, 2, 3, 4]), Word([5, 6, 7, 8])];
    assert_eq!(words_to_bytes(&words), vec![1, 2, 3, 4, 5, 6, 7, 8]);
    let empty: [Word<u32>; 0] = [];
    assert_eq!(words_to_bytes(&empty), Vec::<u32>::new());
}
