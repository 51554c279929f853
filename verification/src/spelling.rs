//! The names that the system gives to files and directories, as text.
//!
//! Such a name is a sequence of bytes, mostly but not always UTF-8. A byte that belongs to no
//! character is spelled with a character of its own, out of the last ones that Unicode has for
//! private use, so that every name has a spelling and every spelling leads back to its name.
//!
//! Paths, and what a program is started with, are spelled everywhere in the launcher. What is said,
//! shown or logged is plain text, into which a path goes as [`shown`] makes it.
use vstd::prelude::*;
use vstd::string::StrSliceExecFns;
use vstd::utf8::{
    char_u32_cast, decode_first_scalar, decode_utf8, decode_utf8_first_scalar, encode_scalar,
    encode_utf8, encode_utf8_decode_utf8, encode_utf8_first_scalar, encode_utf8_valid_utf8,
    is_scalar, length_of_first_scalar, pop_first_scalar, take_first_scalar, valid_first_scalar,
    valid_utf8,
};

use crate::text::chars_of;

verus! {

broadcast use vstd::string::group_string_axioms;

/// `char::from_u32` makes a character of every Unicode scalar value, and of nothing else.
pub assume_specification[ char::from_u32 ](i: u32) -> (c: Option<char>)
    ensures
        match c {
            Some(c) => c as u32 == i,
            None => !is_scalar(i),
        },
;

/// Whether a character spells a byte that belongs to no character.
pub open spec fn is_stray(c: char) -> bool {
    0x10ff80 <= c as u32
}

/// The spelling of a byte that belongs to no character.
pub open spec fn stray(byte: u8) -> char {
    (0x10ff00 + byte) as char
}

/// The bytes that a character spells.
pub open spec fn bytes_of(c: char) -> Seq<u8> {
    if is_stray(c) {
        seq![(c as u32 - 0x10ff00) as u8]
    } else {
        encode_scalar(c as u32)
    }
}

/// The name that a text spells.
pub open spec fn unspelled(text: Seq<char>) -> Seq<u8>
    decreases text.len(),
{
    if text.len() == 0 {
        seq![]
    } else {
        bytes_of(text[0]) + unspelled(text.drop_first())
    }
}

/// Whether a name begins with a character that stands for itself.
pub open spec fn readable(bytes: Seq<u8>) -> bool {
    valid_first_scalar(bytes) && !is_stray(decode_first_scalar(bytes) as char)
}

/// The text that spells a name.
pub open spec fn spelled(bytes: Seq<u8>) -> Seq<char>
    decreases bytes.len(),
{
    if bytes.len() == 0 {
        seq![]
    } else if readable(bytes) {
        seq![decode_first_scalar(bytes) as char] + spelled(pop_first_scalar(bytes))
    } else {
        seq![stray(bytes[0])] + spelled(bytes.drop_first())
    }
}

fn continues(byte: u8) -> (b: bool)
    ensures
        b == vstd::utf8::is_continuation_byte(byte),
{
    0x80 <= byte && byte <= 0xbf
}

/// The first character from the `i`th byte on, as a number, and how many bytes it takes.
fn first_scalar(bytes: &Vec<u8>, i: usize) -> (first: Option<(u32, usize)>)
    requires
        i < bytes.len(),
    ensures
        match first {
            Some((n, width)) => {
                &&& valid_first_scalar(bytes@.skip(i as int))
                &&& n == decode_first_scalar(bytes@.skip(i as int))
                &&& width == length_of_first_scalar(bytes@.skip(i as int))
                &&& i + width <= bytes.len()
                &&& is_scalar(n)
            },
            None => !valid_first_scalar(bytes@.skip(i as int)),
        },
{
    let left: usize = bytes.len() - i;
    let b1 = bytes[i];
    if b1 <= 0x7f {
        let n = (b1 & 0x7f) as u32;
        assert((b1 & 0x7fu8) <= 0x7f) by (bit_vector);
        return Some((n, 1));
    }
    if 0xc0 <= b1 && b1 <= 0xdf {
        if left < 2 || !continues(bytes[i + 1]) {
            return None;
        }
        let b2 = bytes[i + 1];
        let n = ((b1 & 0x1f) as u32) << 6 | ((b2 & 0x3f) as u32);
        assert((((b1 & 0x1fu8) as u32) << 6 | ((b2 & 0x3fu8) as u32)) <= 0x7ff) by (bit_vector);
        return if n < 0x80 {
            None
        } else {
            Some((n, 2))
        };
    }
    if 0xe0 <= b1 && b1 <= 0xef {
        if left < 3 || !continues(bytes[i + 1]) || !continues(bytes[i + 2]) {
            return None;
        }
        let b2 = bytes[i + 1];
        let b3 = bytes[i + 2];
        let n = ((b1 & 0x0f) as u32) << 12 | ((b2 & 0x3f) as u32) << 6 | ((b3 & 0x3f) as u32);
        assert((((b1 & 0x0fu8) as u32) << 12 | ((b2 & 0x3fu8) as u32) << 6 | ((b3 & 0x3fu8) as u32))
            <= 0xffff) by (bit_vector);
        return if n < 0x800 || (0xd800 <= n && n <= 0xdfff) {
            None
        } else {
            Some((n, 3))
        };
    }
    if 0xf0 <= b1 && b1 <= 0xf7 {
        if left < 4 || !continues(bytes[i + 1]) || !continues(bytes[i + 2]) || !continues(
            bytes[i + 3],
        ) {
            return None;
        }
        let b2 = bytes[i + 1];
        let b3 = bytes[i + 2];
        let b4 = bytes[i + 3];
        let n = ((b1 & 0x07) as u32) << 18 | ((b2 & 0x3f) as u32) << 12 | ((b3 & 0x3f) as u32) << 6
            | ((b4 & 0x3f) as u32);
        return if n < 0x10000 || 0x10ffff < n {
            None
        } else {
            Some((n, 4))
        };
    }
    None
}

/// Spells a name.
pub fn spell(bytes: &Vec<u8>) -> (text: String)
    ensures
        text@ == spelled(bytes@),
{
    let mut text = String::new();
    let mut i: usize = 0;
    assert(bytes@.skip(0) =~= bytes@);
    assert(text@ + spelled(bytes@) =~= spelled(bytes@));
    while i < bytes.len()
        invariant
            i <= bytes.len(),
            text@ + spelled(bytes@.skip(i as int)) == spelled(bytes@),
        decreases bytes.len() - i,
    {
        let ghost before = text@;
        let ghost rest = bytes@.skip(i as int);
        let found: Option<(u32, usize)> = match first_scalar(bytes, i) {
            Some((n, width)) => if n < 0x10ff80 {
                Some((n, width))
            } else {
                None
            },
            None => None,
        };
        match found {
            Some((n, width)) => {
                let c = char::from_u32(n).unwrap();
                text.push(c);
                proof {
                    char_u32_cast(c, n);
                }
                assert(spelled(rest) == seq![c] + spelled(pop_first_scalar(rest)));
                assert(bytes@.skip(i + width) =~= pop_first_scalar(rest));
                assert(text@ + spelled(bytes@.skip(i + width)) =~= before + spelled(rest));
                i += width;
            },
            None => {
                let n: u32 = 0x10ff00 + bytes[i] as u32;
                let c = char::from_u32(n).unwrap();
                text.push(c);
                proof {
                    char_u32_cast(c, n);
                }
                assert(spelled(rest) == seq![c] + spelled(rest.drop_first()));
                assert(bytes@.skip(i + 1) =~= rest.drop_first());
                assert(text@ + spelled(bytes@.skip(i + 1)) =~= before + spelled(rest));
                i += 1;
            },
        }
    }
    assert(bytes@.skip(i as int) =~= seq![]);
    assert(text@ + spelled(bytes@.skip(i as int)) =~= text@);
    text
}

/// The name that a text spells.
pub fn unspell(text: &str) -> (bytes: Vec<u8>)
    ensures
        bytes@ == unspelled(text@),
{
    let v = chars_of(text);
    let mut bytes: Vec<u8> = Vec::new();
    let mut i: usize = 0;
    assert(v@.skip(0) =~= v@);
    assert(bytes@ + unspelled(v@) =~= unspelled(v@));
    while i < v.len()
        invariant
            i <= v.len(),
            v@ == text@,
            bytes@ + unspelled(v@.skip(i as int)) == unspelled(v@),
        decreases v.len() - i,
    {
        let ghost before = bytes@;
        let ghost rest = v@.skip(i as int);
        let n = v[i] as u32;
        if n >= 0x10ff80 {
            bytes.push((n - 0x10ff00) as u8);
        } else {
            let mut one = String::new();
            one.push(v[i]);
            let mut encoded = one.as_str().as_bytes_vec();
            assert(one@.drop_first() =~= seq![]);
            assert(encode_utf8(one@.drop_first()) =~= seq![]);
            assert(encode_utf8(one@) =~= encode_scalar(n));
            bytes.append(&mut encoded);
        }
        assert(bytes@ =~= before + bytes_of(v@[i as int]));
        assert(v@.skip(i + 1) =~= rest.drop_first());
        assert(bytes@ + unspelled(v@.skip(i + 1)) =~= before + unspelled(rest));
        i += 1;
    }
    assert(v@.skip(i as int) =~= seq![]);
    assert(bytes@ + unspelled(v@.skip(i as int)) =~= bytes@);
    bytes
}

/// What `String::from_utf8_lossy` makes of some bytes.
pub uninterp spec fn lossy_of(bytes: Seq<u8>) -> Seq<char>;

/// `String::from_utf8_lossy`: it depends on the bytes alone, and reads UTF-8. What it puts where the
/// bytes are none is not stated.
#[verifier::external_body]
fn lossy(bytes: &Vec<u8>) -> (text: String)
    ensures
        text@ == lossy_of(bytes@),
        valid_utf8(bytes@) ==> text@ == decode_utf8(bytes@),
{
    String::from_utf8_lossy(bytes).into_owned()
}

/// A spelled name as plain text, as far as it can be read.
pub open spec fn legible(name: Seq<char>) -> Seq<char> {
    if ordinary(name) {
        name
    } else {
        lossy_of(unspelled(name))
    }
}

/// A spelled name as plain text, as far as it can be read.
pub fn shown(name: &str) -> (shown: String)
    ensures
        shown@ == legible(name@),
{
    let bytes = unspell(name);
    proof {
        if ordinary(name@) {
            lemma_ordinary(name@);
            encode_utf8_valid_utf8(name@);
            encode_utf8_decode_utf8(name@);
        }
    }
    lossy(&bytes)
}

/// The spelling of plain text.
pub open spec fn named(text: Seq<char>) -> Seq<char> {
    if ordinary(text) {
        text
    } else {
        spelled(encode_utf8(text))
    }
}

/// The spelling of plain text.
pub fn as_name(text: &str) -> (name: String)
    ensures
        name@ == named(text@),
{
    proof {
        if ordinary(text@) {
            ordinary_names_spell_themselves(text@);
        }
    }
    spell(&text.as_bytes_vec())
}

/// The spelling of plain text leads back to that text, whatever characters it holds.
pub proof fn plain_text_comes_through(text: Seq<char>)
    ensures
        unspelled(named(text)) == encode_utf8(text),
{
    a_spelling_leads_back_to_its_name(encode_utf8(text));
    if ordinary(text) {
        ordinary_names_spell_themselves(text);
    }
}

/// Whether every character of a text stands for itself.
pub open spec fn ordinary(text: Seq<char>) -> bool {
    forall|i: int| 0 <= i < text.len() ==> !is_stray(#[trigger] text[i])
}

/// An ordinary name is shown as it is and stands for itself, and one that is not is shown as far as it
/// can be read.
pub proof fn an_ordinary_name_is_shown_as_it_is(name: Seq<char>)
    ensures
        ordinary(name) ==> legible(name) == name && named(name) == name,
        !ordinary(name) ==> legible(name) == lossy_of(unspelled(name)) && named(name) == spelled(
            encode_utf8(name),
        ),
{
}

proof fn lemma_ordinary(text: Seq<char>)
    requires
        ordinary(text),
    ensures
        unspelled(text) == encode_utf8(text),
    decreases text.len(),
{
    if text.len() > 0 {
        let rest = text.drop_first();
        assert forall|i: int| 0 <= i < rest.len() implies !is_stray(#[trigger] rest[i]) by {
            assert(rest[i] == text[i + 1]);
        }
        lemma_ordinary(rest);
    }
}

/// A text in UTF-8 spells itself, unless it holds one of the characters that spell single bytes.
pub proof fn ordinary_names_spell_themselves(text: Seq<char>)
    requires
        ordinary(text),
    ensures
        spelled(encode_utf8(text)) == text,
        unspelled(text) == encode_utf8(text),
    decreases text.len(),
{
    lemma_ordinary(text);
    if text.len() > 0 {
        let rest = text.drop_first();
        assert forall|i: int| 0 <= i < rest.len() implies !is_stray(#[trigger] rest[i]) by {
            assert(rest[i] == text[i + 1]);
        }
        ordinary_names_spell_themselves(rest);
        encode_utf8_first_scalar(text);
        let bytes = encode_utf8(text);
        char_u32_cast(text[0], decode_first_scalar(bytes));
        assert(pop_first_scalar(bytes) =~= encode_utf8(rest));
        assert(bytes.len() > 0);
        assert(seq![text[0]] + rest =~= text);
    }
}

/// A spelling leads back to its name, whatever bytes that is made of.
pub proof fn a_spelling_leads_back_to_its_name(bytes: Seq<u8>)
    ensures
        unspelled(spelled(bytes)) == bytes,
    decreases bytes.len(),
{
    if bytes.len() > 0 {
        let text = spelled(bytes);
        if readable(bytes) {
            let rest = pop_first_scalar(bytes);
            a_spelling_leads_back_to_its_name(rest);
            assert(text.drop_first() =~= spelled(rest));
            let first = take_first_scalar(bytes);
            assert(pop_first_scalar(first) =~= seq![]);
            assert(valid_utf8(first)) by {
                assert(valid_first_scalar(first));
                assert(valid_utf8(pop_first_scalar(first)));
            }
            decode_utf8_first_scalar(first);
            assert(take_first_scalar(first) =~= first);
            assert(first + rest =~= bytes);
        } else {
            assert(bytes[0] >= 0x80) by {
                let b = bytes[0];
                if b < 0x80 {
                    assert((b & 0x7fu8) <= 0x7f) by (bit_vector);
                }
            }
            let rest = bytes.drop_first();
            a_spelling_leads_back_to_its_name(rest);
            assert(text.drop_first() =~= spelled(rest));
            assert(bytes_of(stray(bytes[0])) =~= seq![bytes[0]]);
            assert(seq![bytes[0]] + rest =~= bytes);
        }
    }
}

}
