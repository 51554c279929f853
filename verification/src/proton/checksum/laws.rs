//! What holds of every checksum.
use vstd::prelude::*;

use crate::proton::checksum::{hex, hex_digit};

verus! {

broadcast use vstd::string::group_string_axioms;

/// Each byte is written as two digits, the high one first, in small letters.
pub proof fn each_byte_is_two_small_digits(bytes: Seq<u8>, i: int)
    requires
        0 <= i < bytes.len(),
    ensures
        hex(bytes).len() == 2 * bytes.len(),
        hex(bytes)[2 * i] == "0123456789abcdef"@[bytes[i] as int / 16],
        hex(bytes)[2 * i + 1] == "0123456789abcdef"@[bytes[i] as int % 16],
{
    reveal_strlit("0123456789abcdef");
    let n: u8 = bytes[i] / 16;
    let m: u8 = bytes[i] % 16;
    assert(n < 16 && m < 16);
    assert((2 * i) / 2 == i && (2 * i) % 2 == 0);
    assert((2 * i + 1) / 2 == i && (2 * i + 1) % 2 == 1);
    assert(hex(bytes)[2 * i] == hex_digit(n));
    assert(hex(bytes)[2 * i + 1] == hex_digit(m));
    assert(n == bytes[i] as int / 16);
    assert(m == bytes[i] as int % 16);
    lemma_digit(n);
    lemma_digit(m);
}

proof fn lemma_digit(n: u8)
    requires
        n < 16,
    ensures
        hex_digit(n) == "0123456789abcdef"@[n as int],
{
    reveal_strlit("0123456789abcdef");
    if n == 0 {
        assert(hex_digit(n) == '0');
    } else if n == 1 {
        assert(hex_digit(n) == '1');
    } else if n == 2 {
        assert(hex_digit(n) == '2');
    } else if n == 3 {
        assert(hex_digit(n) == '3');
    } else if n == 4 {
        assert(hex_digit(n) == '4');
    } else if n == 5 {
        assert(hex_digit(n) == '5');
    } else if n == 6 {
        assert(hex_digit(n) == '6');
    } else if n == 7 {
        assert(hex_digit(n) == '7');
    } else if n == 8 {
        assert(hex_digit(n) == '8');
    } else if n == 9 {
        assert(hex_digit(n) == '9');
    } else if n == 10 {
        assert(hex_digit(n) == 'a');
    } else if n == 11 {
        assert(hex_digit(n) == 'b');
    } else if n == 12 {
        assert(hex_digit(n) == 'c');
    } else if n == 13 {
        assert(hex_digit(n) == 'd');
    } else if n == 14 {
        assert(hex_digit(n) == 'e');
    } else {
        assert(hex_digit(n) == 'f');
    }
}

}
