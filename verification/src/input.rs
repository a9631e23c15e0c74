//! The fixed 1024-bit input the benchmark hashes: a 512-bit message block
//! followed by its SHA-256 padding block (a leading 1 bit, zeros, and the
//! 64-bit message length, 512). Every repetition hashes this same input.

use vstd::prelude::*;

verus! {

/// Number of 32-bit words in the fixed input.
pub const INPUT_WORDS: usize = 32;

/// The fixed input words, most significant word first.
pub open spec fn spec_fixed_input() -> Seq<u32> {
    seq![
        0b10101010100100110001111101011110u32,
        0b11100101100001110011010100100111u32,
        0b00001000001000011011001101110010u32,
        0b00101000011001101101100010001000u32,
        0b00101101000110010100100010010000u32,
        0b10010101001100101100111110001010u32,
        0b11000010101100111110111100010100u32,
        0b01001010111010000000010000110011u32,
        0b01100011110100011101001101110010u32,
        0b10001011010010011111000100001100u32,
        0b01111100110101111000110000111000u32,
        0b00101000100111001000000000010010u32,
        0b01000111011101000111001110000111u32,
        0b10011111001110110101001100010110u32,
        0b10011111001010100110011101111011u32,
        0b01111111101111101101000011000111u32,
        0b10000000000000000000000000000000u32,
        0b00000000000000000000000000000000u32,
        0b00000000000000000000000000000000u32,
        0b00000000000000000000000000000000u32,
        0b00000000000000000000000000000000u32,
        0b00000000000000000000000000000000u32,
        0b00000000000000000000000000000000u32,
        0b00000000000000000000000000000000u32,
        0b00000000000000000000000000000000u32,
        0b00000000000000000000000000000000u32,
        0b00000000000000000000000000000000u32,
        0b00000000000000000000000000000000u32,
        0b00000000000000000000000000000000u32,
        0b00000000000000000000000000000000u32,
        0b00000000000000000000000000000000u32,
        0b00000000000000000000001000000000u32,
    ]
}

/// Builds the fixed input words as a vector.
pub fn fixed_input_words() -> (v: Vec<u32>)
    ensures
        v@ == spec_fixed_input(),
        v@.len() == INPUT_WORDS,
{
    let mut v: Vec<u32> = Vec::new();
    v.push(0b10101010100100110001111101011110u32);
    v.push(0b11100101100001110011010100100111u32);
    v.push(0b00001000001000011011001101110010u32);
    v.push(0b00101000011001101101100010001000u32);
    v.push(0b00101101000110010100100010010000u32);
    v.push(0b10010101001100101100111110001010u32);
    v.push(0b11000010101100111110111100010100u32);
    v.push(0b01001010111010000000010000110011u32);
    v.push(0b01100011110100011101001101110010u32);
    v.push(0b10001011010010011111000100001100u32);
    v.push(0b01111100110101111000110000111000u32);
    v.push(0b00101000100111001000000000010010u32);
    v.push(0b01000111011101000111001110000111u32);
    v.push(0b10011111001110110101001100010110u32);
    v.push(0b10011111001010100110011101111011u32);
    v.push(0b01111111101111101101000011000111u32);
    v.push(0b10000000000000000000000000000000u32);
    v.push(0b00000000000000000000000000000000u32);
    v.push(0b00000000000000000000000000000000u32);
    v.push(0b00000000000000000000000000000000u32);
    v.push(0b00000000000000000000000000000000u32);
    v.push(0b00000000000000000000000000000000u32);
    v.push(0b00000000000000000000000000000000u32);
    v.push(0b00000000000000000000000000000000u32);
    v.push(0b00000000000000000000000000000000u32);
    v.push(0b00000000000000000000000000000000u32);
    v.push(0b00000000000000000000000000000000u32);
    v.push(0b00000000000000000000000000000000u32);
    v.push(0b00000000000000000000000000000000u32);
    v.push(0b00000000000000000000000000000000u32);
    v.push(0b00000000000000000000000000000000u32);
    v.push(0b00000000000000000000001000000000u32);
    proof {
        assert(v@ =~= spec_fixed_input());
    }
    v
}

} // verus!
