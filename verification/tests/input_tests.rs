use sha256_bench::input::fixed_input_words;
use sha256_bench::input::INPUT_WORDS;

#[test]
fn input_has_thirty_two_words() {
    let v = fixed_input_words();
    assert_eq!(v.len(), 32);
    assert_eq!(v.len(), INPUT_WORDS);
}

#[test]
fn input_message_words_are_fixed() {
    let v = fixed_input_words();
    assert_eq!(v[0], 0b10101010100100110001111101011110u32);
    assert_eq!(v[1], 0b11100101100001110011010100100111u32);
    assert_eq!(v[15], 0b01111111101111101101000011000111u32);
}

#[test]
fn input_padding_block_is_correct() {
    let v = fixed_input_words();
    // the padding block: a leading 1 bit, zeros, then the 512-bit length
    assert_eq!(v[16], 0x8000_0000u32);
    for i in 17..31 {
        assert_eq!(v[i], 0);
    }
    assert_eq!(v[31], 512);
}

#[test]
fn input_is_reproducible() {
    assert_eq!(fixed_input_words(), fixed_input_words());
}
