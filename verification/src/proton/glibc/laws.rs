//! What holds of every version of the C library.
use vstd::prelude::*;

use crate::proton::glibc::{
    ascii, glibc_in, host_version, last_version, newer, not_newer, tag_at, tag_mark, version_end,
    version_in,
};
use crate::text::laws::{all_in, decimals_are_digits, trimming_drops_what_stands_around};
use crate::text::{
    decimal, decimal_reads_back, digit, lemma_next_char, lines_in, next_char, words_in, Class,
};

verus! {

/// A word holds the version that stands in it as two numbers with a dot between them, whatever
/// stands around them that is neither a digit nor a dot.
pub proof fn a_version_is_read_from_its_word(
    front: Seq<char>,
    major: u32,
    minor: u32,
    back: Seq<char>,
)
    requires
        all_in(front, Class::NotVersion),
        all_in(back, Class::NotVersion),
    ensures
        version_in(
            front + decimal(major as nat) + seq!['.'] + decimal(minor as nat) + back,
        ) == Some((major, minor)),
{
    let a = decimal(major as nat);
    let b = decimal(minor as nat);
    decimals_are_digits(major as nat);
    decimals_are_digits(minor as nat);
    decimal_reads_back(major as nat, u32::MAX as nat);
    decimal_reads_back(minor as nat, u32::MAX as nat);
    let core = a + seq!['.'] + b;
    assert(front + a + seq!['.'] + b + back =~= front + core + back);
    assert(core[0] == a[0] && core.last() == b.last());
    assert(digit(a[0]) && digit(b.last()));
    trimming_drops_what_stands_around(front, core, back, Class::NotVersion);
    lemma_next_char(core, '.', 0);
    let dot = next_char(core, '.', 0);
    assert(core[a.len() as int] == '.');
    if dot < a.len() {
        assert(digit(a[dot]));
    }
    assert(core.subrange(0, dot) =~= a);
    assert(core.subrange(dot + 1, core.len() as int) =~= b);
}

proof fn lemma_last_version(words: Seq<Seq<char>>, n: int)
    requires
        0 <= n <= words.len(),
    ensures
        match last_version(words, n) {
            Some(version) => exists|i: int|
                0 <= i < n && #[trigger] version_in(words[i]) == Some(version) && forall|j: int|
                    i < j < n ==> #[trigger] version_in(words[j]) is None,
            None => forall|j: int| 0 <= j < n ==> #[trigger] version_in(words[j]) is None,
        },
    decreases n,
{
    if n > 0 && version_in(words[n - 1]) is None {
        lemma_last_version(words, n - 1);
    }
}

/// Of several words the last that holds a version counts.
pub proof fn the_last_version_of_a_line_counts(text: Seq<char>, i: int)
    ensures
        0 <= i < words_in(text, 0).len() && version_in(words_in(text, 0)[i]) is Some && (forall|j: int|
            i < j < words_in(text, 0).len() ==> #[trigger] version_in(words_in(text, 0)[j]) is None)
            ==> glibc_in(text) == version_in(words_in(text, 0)[i]),
        (forall|j: int|
            0 <= j < words_in(text, 0).len() ==> #[trigger] version_in(words_in(text, 0)[j]) is None)
            ==> glibc_in(text) is None,
{
    let words = words_in(text, 0);
    lemma_last_version(words, words.len() as int);
}

/// What getconf says of the host goes first, and what the first line of ldd says counts only without
/// it.
pub proof fn getconf_goes_before_ldd(
    getconf: Option<Seq<char>>,
    ldd: Option<Seq<char>>,
)
    ensures
        getconf is Some && glibc_in(getconf->0) is Some ==> host_version(getconf, ldd) == glibc_in(
            getconf->0,
        ),
        getconf is None || glibc_in(getconf->0) is None ==> (ldd is None ==> host_version(
            getconf,
            ldd,
        ) is None) && (ldd is Some && lines_in(ldd->0, 0).len() > 0 ==> host_version(getconf, ldd)
            == glibc_in(lines_in(ldd->0, 0)[0])),
{
}

/// Versions are ordered by their major numbers first and then by their minor ones, so that of two one
/// is always not newer, and both only where they are the same.
pub proof fn versions_are_ordered(a: (u32, u32), b: (u32, u32))
    ensures
        a.0 < b.0 ==> not_newer(a, b) && !not_newer(b, a),
        a.0 == b.0 ==> (not_newer(a, b) <==> a.1 <= b.1),
        newer(Some(a), Some(b)) == (if a.0 > b.0 || a.0 == b.0 && a.1 > b.1 {
            Some(a)
        } else {
            Some(b)
        }),
        newer(Some(a), None) == Some(a),
        newer(None, Some(b)) == Some(b),
        newer(None, None) is None,
{
}

proof fn lemma_version_end(bytes: Seq<u8>, from: int)
    requires
        0 <= from <= bytes.len(),
    ensures
        from <= version_end(bytes, from) <= bytes.len(),
        forall|i: int|
            from <= i < version_end(bytes, from) ==> 0x30 <= #[trigger] bytes[i] <= 0x39 || bytes[i]
                == 0x2e,
        version_end(bytes, from) < bytes.len() ==> !(0x30 <= bytes[version_end(bytes, from)] <= 0x39
            || bytes[version_end(bytes, from)] == 0x2e),
    decreases bytes.len() - from,
{
    if from < bytes.len() && (0x30 <= bytes[from] <= 0x39 || bytes[from] == 0x2e) {
        lemma_version_end(bytes, from + 1);
    }
}

/// A tag is the mark `GLIBC_` and the digits and dots behind it, up to the first byte that is neither,
/// and nothing else is one.
pub proof fn a_tag_is_the_mark_and_the_version_behind_it(
    bytes: Seq<u8>,
    at: int,
    end: int,
)
    requires
        0 <= at,
        at + 6 <= end <= bytes.len(),
        bytes.subrange(at, at + 6) == seq![0x47u8, 0x4cu8, 0x49u8, 0x42u8, 0x43u8, 0x5fu8],
        forall|i: int|
            at + 6 <= i < end ==> 0x30 <= #[trigger] bytes[i] <= 0x39 || bytes[i] == 0x2e,
        end < bytes.len() ==> !(0x30 <= bytes[end] <= 0x39 || bytes[end] == 0x2e),
    ensures
        tag_at(bytes, at) == glibc_in(
            Seq::new((end - at - 6) as nat, |i: int| bytes[at + 6 + i] as char),
        ),
{
    assert(tag_mark() =~= seq![0x47u8, 0x4cu8, 0x49u8, 0x42u8, 0x43u8, 0x5fu8]);
    lemma_version_end(bytes, at + 6);
    let stop = version_end(bytes, at + 6);
    assert(stop == end) by {
        if stop < end {
            assert(0x30 <= bytes[stop] <= 0x39 || bytes[stop] == 0x2e);
        }
        if stop > end {
            assert(0x30 <= bytes[end] <= 0x39 || bytes[end] == 0x2e);
        }
    }
    assert(ascii(bytes.subrange(at + 6, stop)) =~= Seq::new(
        (end - at - 6) as nat,
        |i: int| bytes[at + 6 + i] as char,
    ));
}

/// Where the mark does not stand there is no tag.
pub proof fn there_is_no_tag_without_the_mark(bytes: Seq<u8>, at: int)
    requires
        at < 0 || at + 6 > bytes.len() || bytes.subrange(at, at + 6) != seq![
            0x47u8,
            0x4cu8,
            0x49u8,
            0x42u8,
            0x43u8,
            0x5fu8,
        ],
    ensures
        tag_at(bytes, at) is None,
{
    assert(tag_mark() =~= seq![0x47u8, 0x4cu8, 0x49u8, 0x42u8, 0x43u8, 0x5fu8]);
}

}
