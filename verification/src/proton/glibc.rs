//! Versions of the C library: the one a host has, and the one a program asks for.
use vstd::prelude::*;

pub mod laws;

use crate::text::{
    borrowed, chars_of, find_char, lemma_next_char, lines, lines_in, next_char, parse_number, parsed,
    text_of, texts, trim, trimmed, words, words_in, Class,
};

verus! {

broadcast use vstd::string::group_string_axioms;

/// Whether version `a`, a major and a minor number, is `b` or came before it.
pub open spec fn not_newer(a: (u32, u32), b: (u32, u32)) -> bool {
    a.0 < b.0 || (a.0 == b.0 && a.1 <= b.1)
}

/// Whether version `a` is `b` or came before it.
pub fn is_not_newer(a: (u32, u32), b: (u32, u32)) -> (yes: bool)
    ensures
        yes == not_newer(a, b),
{
    a.0 < b.0 || (a.0 == b.0 && a.1 <= b.1)
}

/// The version that a word holds: two numbers with a dot between them, whatever surrounds them.
pub open spec fn version_in(word: Seq<char>) -> Option<(u32, u32)> {
    let core = trimmed(word, Class::NotVersion);
    let dot = next_char(core, '.', 0);
    if dot == core.len() {
        None
    } else {
        match (
            parsed(core.subrange(0, dot), u32::MAX as nat),
            parsed(core.subrange(dot + 1, core.len() as int), u32::MAX as nat),
        ) {
            (Some(major), Some(minor)) => Some((major as u32, minor as u32)),
            _ => None,
        }
    }
}

fn read_version(word: &str) -> (version: Option<(u32, u32)>)
    ensures
        version == version_in(word@),
{
    let core = trim(word, Class::NotVersion);
    let v = chars_of(core.as_str());
    let dot: usize = find_char(&v, '.', 0);
    if dot == v.len() {
        return None;
    }
    proof {
        lemma_next_char(core@, '.', 0);
    }
    let major = parse_number(text_of(&v, 0, dot).as_str(), u32::MAX as u64);
    let minor = parse_number(text_of(&v, dot + 1, v.len()).as_str(), u32::MAX as u64);
    match (major, minor) {
        (Some(major), Some(minor)) => Some((major as u32, minor as u32)),
        _ => None,
    }
}

/// The last version among the first `n` words.
pub open spec fn last_version(words: Seq<Seq<char>>, n: int) -> Option<(u32, u32)>
    decreases n,
{
    if n <= 0 {
        None
    } else {
        match version_in(words[n - 1]) {
            Some(version) => Some(version),
            None => last_version(words, n - 1),
        }
    }
}

/// The last version in a line, which is where both getconf and ldd put it.
pub open spec fn glibc_in(text: Seq<char>) -> Option<(u32, u32)> {
    let words = words_in(text, 0);
    last_version(words, words.len() as int)
}

/// The last version in a line, which is where both getconf and ldd put it.
pub fn parse_glibc(text: &str) -> (version: Option<(u32, u32)>)
    ensures
        version == glibc_in(text@),
{
    let list = words(text);
    let ghost all = texts(list@);
    let mut n: usize = list.len();
    while n > 0
        invariant
            n <= list.len(),
            all == texts(list@),
            all == words_in(text@, 0),
            last_version(all, all.len() as int) == last_version(all, n as int),
        decreases n,
    {
        n -= 1;
        assert(all[n as int] == list@[n as int]@);
        let version = read_version(list[n].as_str());
        if version.is_some() {
            return version;
        }
    }
    None
}

/// The version of the running system's C library, going by what `getconf GNU_LIBC_VERSION` printed
/// if that went well, and else by the first line of what `ldd --version` printed.
pub open spec fn host_version(getconf: Option<Seq<char>>, ldd: Option<Seq<char>>) -> Option<
    (u32, u32),
> {
    let from_getconf = match getconf {
        Some(text) => glibc_in(text),
        None => None,
    };
    match (from_getconf, ldd) {
        (Some(version), _) => Some(version),
        (None, Some(text)) => if lines_in(text, 0).len() > 0 {
            glibc_in(lines_in(text, 0)[0])
        } else {
            None
        },
        (None, None) => None,
    }
}

/// The version of the running system's C library, going by what `getconf GNU_LIBC_VERSION` printed
/// if that went well, and else by the first line of what `ldd --version` printed.
pub fn host_glibc(getconf: Option<&str>, ldd: Option<&str>) -> (version: Option<(u32, u32)>)
    ensures
        version == host_version(borrowed(getconf), borrowed(ldd)),
{
    if let Some(text) = getconf {
        let version = parse_glibc(text);
        if version.is_some() {
            return version;
        }
    }
    match ldd {
        Some(text) => {
            let list = lines(text);
            assert(texts(list@).len() == list@.len());
            if list.len() > 0 {
                assert(texts(list@)[0] == list@[0]@);
                parse_glibc(list[0].as_str())
            } else {
                None
            }
        },
        None => None,
    }
}

/// What comes before a version in the names of a program's symbols.
pub open spec fn tag_mark() -> Seq<u8> {
    seq![0x47, 0x4c, 0x49, 0x42, 0x43, 0x5f]
}

/// Whether `b` can be part of a version.
pub open spec fn of_version(b: u8) -> bool {
    0x30 <= b <= 0x39 || b == 0x2e
}

/// The first position at or after `from` that holds no part of a version, or the end.
pub open spec fn version_end(bytes: Seq<u8>, from: int) -> int
    decreases bytes.len() - from,
{
    if from >= bytes.len() {
        bytes.len() as int
    } else if !of_version(bytes[from]) {
        from
    } else {
        version_end(bytes, from + 1)
    }
}

/// The text of ASCII bytes.
pub open spec fn ascii(bytes: Seq<u8>) -> Seq<char> {
    Seq::new(bytes.len(), |i: int| bytes[i] as char)
}

/// The version in a tag such as `GLIBC_2.38`, if one stands at `at`.
pub open spec fn tag_at(bytes: Seq<u8>, at: int) -> Option<(u32, u32)> {
    if 0 <= at && at + 6 <= bytes.len() && bytes.subrange(at, at + 6) == tag_mark() {
        glibc_in(ascii(bytes.subrange(at + 6, version_end(bytes, at + 6))))
    } else {
        None
    }
}

/// The newer of two versions.
pub open spec fn newer(a: Option<(u32, u32)>, b: Option<(u32, u32)>) -> Option<(u32, u32)> {
    match (a, b) {
        (Some(x), Some(y)) => if not_newer(x, y) {
            b
        } else {
            a
        },
        (None, _) => b,
        (_, None) => a,
    }
}

/// The newest version among the tags at or after `from`.
pub open spec fn newest_tag(bytes: Seq<u8>, from: int) -> Option<(u32, u32)>
    decreases bytes.len() - from,
{
    if from >= bytes.len() {
        None
    } else {
        newer(tag_at(bytes, from), newest_tag(bytes, from + 1))
    }
}

fn read_tag(bytes: &Vec<u8>, at: usize) -> (version: Option<(u32, u32)>)
    requires
        at < bytes.len(),
    ensures
        version == tag_at(bytes@, at as int),
{
    if bytes.len() - at < 6 {
        return None;
    }
    assert(bytes@.subrange(at as int, at + 6) =~= tag_mark() <==> (bytes@[at as int] == 0x47
        && bytes@[at + 1] == 0x4c && bytes@[at + 2] == 0x49 && bytes@[at + 3] == 0x42 && bytes@[at
        + 4] == 0x43 && bytes@[at + 5] == 0x5f)) by {
        let tag = bytes@.subrange(at as int, at + 6);
        if tag == tag_mark() {
            assert(tag[0] == 0x47 && tag[1] == 0x4c && tag[2] == 0x49 && tag[3] == 0x42 && tag[4]
                == 0x43 && tag[5] == 0x5f);
        }
    }
    if !(bytes[at] == 0x47 && bytes[at + 1] == 0x4c && bytes[at + 2] == 0x49 && bytes[at + 3]
        == 0x42 && bytes[at + 4] == 0x43 && bytes[at + 5] == 0x5f) {
        return None;
    }
    let start: usize = at + 6;
    let mut end: usize = start;
    let mut tag = String::new();
    assert(tag@ =~= ascii(bytes@.subrange(start as int, end as int)));
    while end < bytes.len() && ((0x30 <= bytes[end] && bytes[end] <= 0x39) || bytes[end] == 0x2e)
        invariant
            start <= end <= bytes.len(),
            version_end(bytes@, start as int) == version_end(bytes@, end as int),
            tag@ == ascii(bytes@.subrange(start as int, end as int)),
        decreases bytes.len() - end,
    {
        tag.push(bytes[end] as char);
        end += 1;
        assert(tag@ =~= ascii(bytes@.subrange(start as int, end as int)));
    }
    parse_glibc(tag.as_str())
}

/// The newest version a program asks for. The tags stand in it as plain ASCII, so there is no need
/// to take its headers apart.
pub fn max_glibc_tag(bytes: &Vec<u8>) -> (version: Option<(u32, u32)>)
    ensures
        version == newest_tag(bytes@, 0),
{
    let mut best: Option<(u32, u32)> = None;
    let mut at: usize = bytes.len();
    while at > 0
        invariant
            at <= bytes.len(),
            best == newest_tag(bytes@, at as int),
        decreases at,
    {
        at -= 1;
        let found = read_tag(bytes, at);
        best = match (found, best) {
            (Some(x), Some(y)) => if is_not_newer(x, y) {
                best
            } else {
                found
            },
            (None, _) => best,
            (_, None) => found,
        };
    }
    best
}

/// The version a program asks for is that of one of its tags, and none of them is newer.
pub proof fn the_newest_tag_covers_all(bytes: Seq<u8>, from: int)
    requires
        0 <= from,
    ensures
        match newest_tag(bytes, from) {
            Some(version) => {
                &&& exists|at: int|
                    from <= at < bytes.len() && #[trigger] tag_at(bytes, at) == Some(version)
                &&& forall|at: int|
                    from <= at < bytes.len() ==> (#[trigger] tag_at(bytes, at) matches Some(other)
                        ==> not_newer(other, version))
            },
            None => forall|at: int| from <= at < bytes.len() ==> #[trigger] tag_at(bytes, at) is None,
        },
    decreases bytes.len() - from,
{
    if from < bytes.len() {
        the_newest_tag_covers_all(bytes, from + 1);
        let rest = newest_tag(bytes, from + 1);
        if rest is Some && newer(tag_at(bytes, from), rest) == rest {
            let at = choose|at: int|
                from + 1 <= at < bytes.len() && #[trigger] tag_at(bytes, at) == rest;
            assert(tag_at(bytes, at) == rest);
        }
        assert(tag_at(bytes, from) == tag_at(bytes, from));
    }
}

}
