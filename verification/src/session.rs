//! The stored session token, and keeping such tokens out of the logs.
use vstd::prelude::*;

pub mod laws;

use crate::error::{failure, Error};
use crate::paths::{extended, parent_in, replacement, Replacement};
use crate::text::{
    chars_of, find_in, find_text, holds, lemma_next_in, lemma_position, lowered, next_in, occurs,
    position, small, small_char, text_of, Class,
};

verus! {

broadcast use vstd::string::group_string_axioms;

/// A signed-in account. The token is access to it.
#[derive(Debug)]
pub struct Session {
    pub token: String,
    pub username: String,
    pub user_id: u64,
}

/// What a [`Session`] holds.
pub struct SessionView {
    pub token: Seq<char>,
    pub username: Seq<char>,
    pub user_id: u64,
}

impl View for Session {
    type V = SessionView;

    open spec fn view(&self) -> SessionView {
        SessionView { token: self.token@, username: self.username@, user_id: self.user_id }
    }
}

impl Clone for Session {
    fn clone(&self) -> (copy: Session)
        ensures
            copy@ == self@,
    {
        Session {
            token: self.token.clone(),
            username: self.username.clone(),
            user_id: self.user_id,
        }
    }
}

/// Who may do what with the stored session: the user may read and write it, and nobody else.
pub const MODE: u32 = 0o600;

/// How the stored session at `path` is replaced. The token is account access, so nobody else may
/// read the file.
pub fn save(path: &str) -> (replacing: Result<Replacement, Error>)
    ensures
        match replacing {
            Ok(replacing) => parent_in(path@) == Some(replacing.dir@) && replacing.tmp@
                == extended(path@, "json.tmp"@) && replacing.mode == Some(MODE),
            Err(e) => parent_in(path@) is None && e@ == failure("session path has no parent"@),
        },
{
    match replacement(path, Some(MODE)) {
        Some(replacing) => Ok(replacing),
        None => Err(Error::says("session path has no parent")),
    }
}

/// The parameters whose values are secret.
pub open spec fn secret_keys() -> Seq<Seq<char>> {
    seq!["token="@, "ticket="@, "code="@]
}

/// What a secret is replaced with.
pub open spec fn mask() -> Seq<char> {
    seq!['*', '*', '*']
}

/// What stands in the log for a value: the mask, and nothing for an empty one.
pub open spec fn stand_in(value: Seq<char>) -> Seq<char> {
    if value.len() > 0 {
        mask()
    } else {
        seq![]
    }
}

/// `s[i..]` with the values of the parameter `key` masked, whatever the case of the key's letters.
pub open spec fn masked_from(s: Seq<char>, key: Seq<char>, i: int) -> Seq<char>
    decreases s.len() - i,
    when 0 <= i <= s.len() && key.len() > 0
{
    proof {
        lemma_position(lowered(s), key, i);
        if position(lowered(s), key, i) is Some {
            lemma_next_in(s, Class::ValueEnd, position(lowered(s), key, i)->0 + key.len());
        }
    }
    match position(lowered(s), key, i) {
        None => s.skip(i),
        Some(hit) => {
            let start = hit + key.len();
            let end = next_in(s, Class::ValueEnd, start);
            s.subrange(i, start) + stand_in(s.subrange(start, end)) + masked_from(s, key, end)
        },
    }
}

/// `s` with the values of the parameter `key` masked.
pub open spec fn masked(s: Seq<char>, key: Seq<char>) -> Seq<char> {
    masked_from(s, key, 0)
}

/// `line` with its secrets masked, one parameter after the other.
pub open spec fn redacted(line: Seq<char>) -> Seq<char> {
    masked(masked(masked(line, "token="@), "ticket="@), "code="@)
}

fn push_between(out: &mut Vec<char>, v: &Vec<char>, from: usize, to: usize)
    requires
        from <= to <= v.len(),
    ensures
        final(out)@ == old(out)@ + v@.subrange(from as int, to as int),
{
    let ghost before = out@;
    let mut k: usize = from;
    assert(before =~= before + v@.subrange(from as int, from as int));
    while k < to
        invariant
            from <= k <= to <= v.len(),
            out@ == before + v@.subrange(from as int, k as int),
        decreases to - k,
    {
        out.push(v[k]);
        k += 1;
    }
}

fn mask_values(v: &Vec<char>, key: &Vec<char>) -> (out: Vec<char>)
    requires
        key@.len() > 0,
    ensures
        out@ == masked(v@, key@),
{
    let mut low: Vec<char> = Vec::new();
    let mut j: usize = 0;
    while j < v.len()
        invariant
            j <= v.len(),
            low@ == lowered(v@).take(j as int),
        decreases v.len() - j,
    {
        low.push(small_char(v[j]));
        j += 1;
    }
    assert(low@ == lowered(v@));
    let mut out: Vec<char> = Vec::new();
    let mut i: usize = 0;
    assert(out@ + masked_from(v@, key@, 0) =~= masked(v@, key@));
    loop
        invariant
            key@.len() > 0,
            i <= v.len(),
            low@ == lowered(v@),
            out@ + masked_from(v@, key@, i as int) == masked(v@, key@),
        decreases v.len() - i,
    {
        let ghost before = out@;
        let start: usize = match find_text(&low, key, i) {
            Some(hit) => hit + key.len(),
            None => {
                push_between(&mut out, v, i, v.len());
                assert(v@.subrange(i as int, v@.len() as int) =~= v@.skip(i as int));
                return out;
            },
        };
        let end: usize = find_in(v, Class::ValueEnd, start);
        push_between(&mut out, v, i, start);
        if end > start {
            out.push('*');
            out.push('*');
            out.push('*');
        }
        assert(out@ =~= before + (v@.subrange(i as int, start as int) + stand_in(
            v@.subrange(start as int, end as int),
        )));
        assert(out@ + masked_from(v@, key@, end as int) =~= before + masked_from(
            v@,
            key@,
            i as int,
        ));
        i = end;
    }
}

/// `line` with its secrets masked.
pub fn redact(line: &str) -> (out: String)
    ensures
        out@ == redacted(line@),
{
    proof {
        reveal_strlit("token=");
        reveal_strlit("ticket=");
        reveal_strlit("code=");
    }
    let first = mask_values(&chars_of(line), &chars_of("token="));
    let second = mask_values(&first, &chars_of("ticket="));
    let third = mask_values(&second, &chars_of("code="));
    assert(third@.subrange(0, third@.len() as int) =~= third@);
    text_of(&third, 0, third.len())
}

/// Whether nothing but a mask stands at `p` before the value ends there.
pub open spec fn hidden_at(s: Seq<char>, p: int) -> bool {
    ||| p == s.len()
    ||| p < s.len() && Class::ValueEnd.has(s[p])
    ||| p + 3 <= s.len() && s.subrange(p, p + 3) == mask() && (p + 3 == s.len()
        || Class::ValueEnd.has(s[p + 3]))
}

/// Whether every value of the parameter `key` in `s` is empty or masked, whatever the case of the
/// key's letters.
pub open spec fn hides(s: Seq<char>, key: Seq<char>) -> bool {
    forall|j: int| #[trigger] occurs(lowered(s), key, j) ==> hidden_at(s, j + key.len())
}

/// A parameter name: small letters, and an equals sign at the end.
spec fn keyword(key: Seq<char>) -> bool {
    &&& key.len() >= 5
    &&& key.last() == '='
    &&& forall|t: int| 0 <= t < key.len() - 1 ==> 'a' <= #[trigger] key[t] <= 'z'
}

/// Whether `s` reads `key` at `j`, whatever the case of its letters.
spec fn reads(s: Seq<char>, key: Seq<char>, j: int) -> bool {
    &&& 0 <= j
    &&& j + key.len() <= s.len()
    &&& forall|t: int| 0 <= t < key.len() ==> small(s[j + t]) == #[trigger] key[t]
}

/// Whether no value ends within `s`.
spec fn unbroken(s: Seq<char>) -> bool {
    forall|i: int| 0 <= i < s.len() ==> !Class::ValueEnd.has(#[trigger] s[i])
}

proof fn lemma_keys()
    ensures
        secret_keys().len() == 3,
        secret_keys()[0] == "token="@,
        secret_keys()[1] == "ticket="@,
        secret_keys()[2] == "code="@,
        forall|k: int| 0 <= k < 3 ==> keyword(#[trigger] secret_keys()[k]),
        forall|k: int, l: int|
            0 <= k < l < 3 ==> (#[trigger] secret_keys()[k])[secret_keys()[k].len() - 2] != (
            #[trigger] secret_keys()[l])[secret_keys()[l].len() - 2],
{
    reveal_strlit("token=");
    reveal_strlit("ticket=");
    reveal_strlit("code=");
    assert(keyword("token="@));
    assert(keyword("ticket="@));
    assert(keyword("code="@));
}

proof fn lemma_reads(s: Seq<char>, key: Seq<char>, j: int)
    ensures
        occurs(lowered(s), key, j) == reads(s, key, j),
{
    if occurs(lowered(s), key, j) {
        assert forall|t: int| 0 <= t < key.len() implies small(s[j + t]) == #[trigger] key[t] by {
            assert(lowered(s).subrange(j, j + key.len())[t] == lowered(s)[j + t]);
        }
    }
    if reads(s, key, j) {
        assert forall|t: int| 0 <= t < key.len() implies lowered(s).subrange(
            j,
            j + key.len(),
        )[t] == key[t] by {
            assert(small(s[j + t]) == key[t]);
        }
        assert(lowered(s).subrange(j, j + key.len()) =~= key);
    }
}

/// Where `key` is read, an equals sign ends it and no other stands in it, nor an asterisk or
/// anything that ends a value.
proof fn lemma_inside(s: Seq<char>, key: Seq<char>, j: int, p: int)
    requires
        keyword(key),
        occurs(lowered(s), key, j),
        j <= p < j + key.len(),
    ensures
        s[p] != '*',
        !Class::ValueEnd.has(s[p]),
        (s[p] == '=') == (p == j + key.len() - 1),
        small(s[p]) == key[p - j],
{
    lemma_reads(s, key, j);
    let t = p - j;
    assert(small(s[j + t]) == key[t]);
}

/// What is read in a part of a text is read in the text, and the other way round.
proof fn lemma_part(s: Seq<char>, part: Seq<char>, at: int, key: Seq<char>, j: int)
    requires
        0 <= at,
        at + part.len() <= s.len(),
        s.subrange(at, at + part.len()) == part,
        0 <= j,
        j + key.len() <= part.len(),
    ensures
        occurs(lowered(s), key, at + j) == occurs(lowered(part), key, j),
{
    lemma_reads(s, key, at + j);
    lemma_reads(part, key, j);
    assert forall|t: int| 0 <= t < key.len() implies s[at + j + t] == #[trigger] part[j + t] by {
        assert(s.subrange(at, at + part.len())[j + t] == s[at + (j + t)]);
    }
    if reads(part, key, j) {
        assert forall|t: int| 0 <= t < key.len() implies small(s[at + j + t]) == #[trigger] key[t] by {
            assert(part[j + t] == s[at + j + t]);
        }
    }
    if reads(s, key, at + j) {
        assert forall|t: int| 0 <= t < key.len() implies small(part[j + t]) == #[trigger] key[t] by {
            assert(part[j + t] == s[at + j + t]);
        }
    }
}

/// The first of all places is where `key` is found.
proof fn lemma_first(s: Seq<char>, key: Seq<char>, i: int, at: int)
    requires
        0 <= i <= at,
        occurs(s, key, at),
        forall|j: int| i <= j < at ==> !occurs(s, key, j),
    ensures
        position(s, key, i) == Some(at),
{
    lemma_position(s, key, i);
}

/// The first of all places is where a value ends.
proof fn lemma_first_end(s: Seq<char>, from: int, at: int)
    requires
        0 <= from <= at <= s.len(),
        forall|i: int| from <= i < at ==> !Class::ValueEnd.has(#[trigger] s[i]),
        at < s.len() ==> Class::ValueEnd.has(s[at]),
    ensures
        next_in(s, Class::ValueEnd, from) == at,
{
    lemma_next_in(s, Class::ValueEnd, from);
    let found = next_in(s, Class::ValueEnd, from);
    if found < at {
        assert(!Class::ValueEnd.has(s[found]));
    } else if at < found {
        assert(Class::ValueEnd.has(s[at]));
    }
}

/// What lies before a place does not matter for what is masked after it.
proof fn lemma_skipped(s: Seq<char>, key: Seq<char>, at: int, k: int)
    requires
        key.len() > 0,
        0 <= at,
        0 <= k,
        at + k <= s.len(),
    ensures
        masked_from(s, key, at + k) == masked_from(s.skip(at), key, k),
    decreases s.len() - at - k,
{
    let part = s.skip(at);
    assert(s.subrange(at, at + part.len()) =~= part);
    lemma_position(lowered(s), key, at + k);
    lemma_position(lowered(part), key, k);
    match position(lowered(part), key, k) {
        Some(hit) => {
            lemma_part(s, part, at, key, hit);
            assert forall|j: int| at + k <= j < at + hit implies !occurs(lowered(s), key, j) by {
                lemma_part(s, part, at, key, j - at);
            }
            lemma_first(lowered(s), key, at + k, at + hit);
            let start = hit + key.len();
            lemma_next_in(part, Class::ValueEnd, start);
            let end = next_in(part, Class::ValueEnd, start);
            assert forall|i: int| at + start <= i < at + end implies !Class::ValueEnd.has(
                #[trigger] s[i],
            ) by {
                assert(part[i - at] == s[i]);
            }
            lemma_first_end(s, at + start, at + end);
            lemma_skipped(s, key, at, end);
            assert(s.subrange(at + k, at + start) =~= part.subrange(k, start));
            assert(s.subrange(at + start, at + end) =~= part.subrange(start, end));
        },
        None => {
            if let Some(hit) = position(lowered(s), key, at + k) {
                lemma_part(s, part, at, key, hit - at);
            }
            assert(s.skip(at + k) =~= part.skip(k));
        },
    }
}

/// Nothing is masked before the first place where `key` stands.
proof fn lemma_untouched(s: Seq<char>, key: Seq<char>, i: int, m: int)
    requires
        key.len() > 0,
        0 <= i <= m <= s.len(),
        forall|j: int| i <= j < m ==> !occurs(lowered(s), key, j),
    ensures
        masked_from(s, key, i) == s.subrange(i, m) + masked_from(s, key, m),
{
    lemma_position(lowered(s), key, i);
    lemma_position(lowered(s), key, m);
    match position(lowered(s), key, m) {
        Some(hit) => {
            lemma_first(lowered(s), key, i, hit);
            let start = hit + key.len();
            lemma_next_in(s, Class::ValueEnd, start);
            let end = next_in(s, Class::ValueEnd, start);
            assert(masked_from(s, key, i) =~= s.subrange(i, m) + masked_from(s, key, m)) by {
                assert(s.subrange(i, start) =~= s.subrange(i, m) + s.subrange(m, start));
            }
        },
        None => {
            assert(s.skip(i) =~= s.subrange(i, m) + s.skip(m));
        },
    }
}

/// Before and after something that ends a value, the masking does the same as without the rest.
proof fn lemma_split(a: Seq<char>, c: char, b: Seq<char>, key: Seq<char>, i: int)
    requires
        keyword(key),
        Class::ValueEnd.has(c),
        0 <= i <= a.len(),
    ensures
        masked_from(a + seq![c] + b, key, i) == masked_from(a, key, i) + seq![c] + masked(b, key),
    decreases a.len() - i,
{
    let s = a + seq![c] + b;
    assert(s.subrange(0, a.len() as int) =~= a);
    lemma_position(lowered(a), key, i);
    match position(lowered(a), key, i) {
        Some(hit) => {
            lemma_part(s, a, 0, key, hit);
            assert forall|j: int| i <= j < hit implies !occurs(lowered(s), key, j) by {
                lemma_part(s, a, 0, key, j);
            }
            lemma_first(lowered(s), key, i, hit);
            let start = hit + key.len();
            lemma_next_in(a, Class::ValueEnd, start);
            let end = next_in(a, Class::ValueEnd, start);
            assert forall|p: int| start <= p < end implies !Class::ValueEnd.has(
                #[trigger] s[p],
            ) by {
                assert(a[p] == s[p]);
            }
            assert(end < a.len() ==> s[end] == a[end]);
            assert(end == a.len() ==> s[end] == c);
            lemma_first_end(s, start, end);
            lemma_split(a, c, b, key, end);
            assert(s.subrange(i, start) =~= a.subrange(i, start));
            assert(s.subrange(start, end) =~= a.subrange(start, end));
            let front = a.subrange(i, start) + stand_in(a.subrange(start, end));
            assert(front + (masked_from(a, key, end) + seq![c] + masked(b, key)) =~= (front
                + masked_from(a, key, end)) + seq![c] + masked(b, key));
        },
        None => {
            let m = a.len() + 1;
            assert forall|j: int| i <= j < m implies !occurs(lowered(s), key, j) by {
                if occurs(lowered(s), key, j) {
                    if j + key.len() <= a.len() {
                        lemma_part(s, a, 0, key, j);
                    } else {
                        lemma_inside(s, key, j, a.len() as int);
                    }
                }
            }
            lemma_untouched(s, key, i, m as int);
            lemma_skipped(s, key, m as int, 0);
            assert(s.skip(m as int) =~= b);
            assert(s.subrange(i, m as int) =~= a.skip(i) + seq![c]);
        },
    }
}

/// In a text in which no value ends, the first value reaches to the end.
proof fn lemma_unbroken(s: Seq<char>, key: Seq<char>)
    requires
        keyword(key),
        unbroken(s),
    ensures
        unbroken(masked(s, key)),
        s.len() > 0 ==> masked(s, key).len() > 0,
        match position(lowered(s), key, 0) {
            None => masked(s, key) == s,
            Some(hit) => masked(s, key) == s.take(hit + key.len()) + stand_in(
                s.skip(hit + key.len()),
            ),
        },
{
    lemma_position(lowered(s), key, 0);
    match position(lowered(s), key, 0) {
        None => {
            assert(s.skip(0) =~= s);
        },
        Some(hit) => {
            let start = hit + key.len();
            let n = s.len() as int;
            lemma_first_end(s, start, n);
            lemma_position(lowered(s), key, n);
            assert(masked_from(s, key, n) =~= seq![]);
            assert(s.subrange(0, start) =~= s.take(start));
            assert(s.subrange(start, n) =~= s.skip(start));
            assert(masked(s, key) =~= s.take(start) + stand_in(s.skip(start)));
        },
    }
}

/// What has been masked in a text in which no value ends stays as it is, and hides the secret.
proof fn lemma_settled(s: Seq<char>, key: Seq<char>)
    requires
        keyword(key),
        unbroken(s),
    ensures
        masked(masked(s, key), key) == masked(s, key),
{
    let t = masked(s, key);
    lemma_unbroken(s, key);
    lemma_unbroken(t, key);
    lemma_position(lowered(s), key, 0);
    if let Some(hit) = position(lowered(s), key, 0) {
        let start = hit + key.len();
        assert(t.subrange(0, start) =~= s.subrange(0, start));
        let front = s.subrange(0, start);
        lemma_part(s, front, 0, key, hit);
        lemma_part(t, front, 0, key, hit);
        assert forall|j: int| 0 <= j < hit implies !occurs(lowered(t), key, j) by {
            lemma_part(s, front, 0, key, j);
            lemma_part(t, front, 0, key, j);
        }
        lemma_first(lowered(t), key, 0, hit);
        assert(t.take(start) =~= front);
        assert(t.skip(start) =~= stand_in(s.skip(start)));
        assert(t =~= t.take(start) + stand_in(t.skip(start)));
    }
}

/// In a text in which no value ends, masking one parameter leaves another masked.
proof fn lemma_stays_settled(s: Seq<char>, key: Seq<char>, other: Seq<char>)
    requires
        keyword(key),
        keyword(other),
        key[key.len() - 2] != other[other.len() - 2],
        unbroken(s),
        masked(s, key) == s,
    ensures
        masked(masked(s, other), key) == masked(s, other),
{
    let t = masked(s, other);
    lemma_unbroken(s, key);
    lemma_unbroken(s, other);
    lemma_unbroken(t, key);
    lemma_position(lowered(s), key, 0);
    lemma_position(lowered(s), other, 0);
    lemma_position(lowered(t), key, 0);
    if let Some(cut) = position(lowered(s), other, 0) {
        let end = cut + other.len();
        if end < s.len() {
            assert(t =~= s.take(end) + mask());
            if let Some(at) = position(lowered(t), key, 0) {
                let start = at + key.len();
                lemma_inside(t, key, at, start - 1);
                if start > end {
                    assert(t[start - 1] == mask()[start - 1 - end]);
                    assert(false);
                }
                let front = s.subrange(0, end);
                assert(t.subrange(0, end) =~= front);
                lemma_part(t, front, 0, key, at);
                lemma_part(s, front, 0, key, at);
                let first = position(lowered(s), key, 0)->0;
                lemma_inside(s, other, cut, end - 1);
                lemma_inside(s, other, cut, end - 2);
                lemma_inside(s, key, at, start - 1);
                lemma_inside(s, key, at, start - 2);
                assert(start < end);
                let value = first + key.len();
                assert(value <= start);
                assert(s == s.take(value) + stand_in(s.skip(value)));
                assert(s.skip(value).len() > 0);
                assert(s.skip(value) =~= mask()) by {
                    assert((s.take(value) + mask()).skip(value) =~= mask());
                }
                assert(s[end - 1] == s.skip(value)[end - 1 - value]);
                assert(false);
            }
        } else {
            assert(t =~= s);
        }
    }
}

/// In a text in which no value ends, what has been masked hides the secret.
proof fn lemma_settled_hides(s: Seq<char>, key: Seq<char>)
    requires
        keyword(key),
        unbroken(s),
        masked(s, key) == s,
    ensures
        hides(s, key),
{
    lemma_unbroken(s, key);
    lemma_position(lowered(s), key, 0);
    assert forall|j: int| #[trigger] occurs(lowered(s), key, j) implies hidden_at(
        s,
        j + key.len(),
    ) by {
        let hit = position(lowered(s), key, 0)->0;
        let start = hit + key.len();
        lemma_inside(s, key, j, j + key.len() - 1);
        assert(s == s.take(start) + stand_in(s.skip(start)));
        if start < s.len() {
            assert(s.skip(start) =~= mask()) by {
                assert((s.take(start) + mask()).skip(start) =~= mask());
            }
            if j > hit {
                let p = j + key.len() - 1;
                assert(s[p] == s.skip(start)[p - start]);
                assert(false);
            }
            assert(s.subrange(start, start + 3) =~= mask());
        }
    }
}

/// Where two texts hide a secret, so do both with something between them that ends a value.
proof fn lemma_both_hide(a: Seq<char>, c: char, b: Seq<char>, key: Seq<char>)
    requires
        keyword(key),
        Class::ValueEnd.has(c),
        hides(a, key),
        hides(b, key),
    ensures
        hides(a + seq![c] + b, key),
{
    let s = a + seq![c] + b;
    let m = a.len() + 1;
    assert(s.subrange(0, a.len() as int) =~= a);
    assert(s.subrange(m as int, m as int + b.len()) =~= b);
    assert forall|j: int| #[trigger] occurs(lowered(s), key, j) implies hidden_at(
        s,
        j + key.len(),
    ) by {
        let p = j + key.len();
        if p <= a.len() {
            lemma_part(s, a, 0, key, j);
            assert(hidden_at(a, p));
            if p < a.len() {
                assert(s[p] == a[p]);
                if p + 3 <= a.len() {
                    assert(s.subrange(p, p + 3) =~= a.subrange(p, p + 3));
                }
                if p + 3 < a.len() {
                    assert(s[p + 3] == a[p + 3]);
                }
            }
            assert(s[a.len() as int] == c);
        } else if j < m {
            lemma_inside(s, key, j, a.len() as int);
        } else {
            let q = p - m;
            lemma_part(s, b, m as int, key, j - m);
            assert(hidden_at(b, q));
            if q < b.len() {
                assert(s[p] == b[q]);
                if q + 3 <= b.len() {
                    assert(s.subrange(p, p + 3) =~= b.subrange(q, q + 3));
                }
                if q + 3 < b.len() {
                    assert(s[p + 3] == b[q + 3]);
                }
            }
        }
    }
}

/// In a text in which no value ends, a redacted text is masked for each parameter.
proof fn lemma_redacted_unbroken(s: Seq<char>)
    requires
        unbroken(s),
    ensures
        unbroken(redacted(s)),
        forall|k: int| 0 <= k < 3 ==> masked(redacted(s), #[trigger] secret_keys()[k]) == redacted(s),
{
    lemma_keys();
    let (k0, k1, k2) = (secret_keys()[0], secret_keys()[1], secret_keys()[2]);
    let first = masked(s, k0);
    let second = masked(first, k1);
    lemma_unbroken(s, k0);
    lemma_unbroken(first, k1);
    lemma_unbroken(second, k2);
    lemma_settled(s, k0);
    lemma_settled(first, k1);
    lemma_settled(second, k2);
    lemma_stays_settled(first, k0, k1);
    lemma_stays_settled(second, k0, k2);
    lemma_stays_settled(second, k1, k2);
}

/// A line is redacted piece by piece: what stands on the one side of a character that ends a value
/// has no influence on the other.
pub proof fn redaction_goes_piece_by_piece(a: Seq<char>, c: char, b: Seq<char>)
    requires
        Class::ValueEnd.has(c),
    ensures
        redacted(a + seq![c] + b) == redacted(a) + seq![c] + redacted(b),
{
    lemma_keys();
    let (k0, k1, k2) = (secret_keys()[0], secret_keys()[1], secret_keys()[2]);
    lemma_split(a, c, b, k0, 0);
    lemma_split(masked(a, k0), c, masked(b, k0), k1, 0);
    lemma_split(masked(masked(a, k0), k1), c, masked(masked(b, k0), k1), k2, 0);
}

/// No secret is left in a redacted line: after each occurrence of `token=`, `ticket=` or `code=`,
/// in whatever case, the value is empty or masked.
pub proof fn redaction_hides_every_secret(line: Seq<char>)
    ensures
        forall|k: int|
            0 <= k < secret_keys().len() ==> hides(redacted(line), #[trigger] secret_keys()[k]),
    decreases line.len(),
{
    lemma_keys();
    lemma_next_in(line, Class::ValueEnd, 0);
    let e = next_in(line, Class::ValueEnd, 0);
    if e == line.len() {
        lemma_redacted_unbroken(line);
        assert forall|k: int| 0 <= k < 3 implies hides(
            redacted(line),
            #[trigger] secret_keys()[k],
        ) by {
            lemma_settled_hides(redacted(line), secret_keys()[k]);
        }
    } else {
        let (a, c, b) = (line.take(e), line[e], line.skip(e + 1));
        assert(line =~= a + seq![c] + b);
        redaction_hides_every_secret(a);
        redaction_hides_every_secret(b);
        redaction_goes_piece_by_piece(a, c, b);
        assert forall|k: int| 0 <= k < 3 implies hides(
            redacted(line),
            #[trigger] secret_keys()[k],
        ) by {
            lemma_both_hide(redacted(a), c, redacted(b), secret_keys()[k]);
        }
    }
}

/// A line that was redacted stays as it is.
pub proof fn a_redacted_line_stays_as_it_is(line: Seq<char>)
    ensures
        redacted(redacted(line)) == redacted(line),
    decreases line.len(),
{
    lemma_keys();
    lemma_next_in(line, Class::ValueEnd, 0);
    let e = next_in(line, Class::ValueEnd, 0);
    if e == line.len() {
        lemma_redacted_unbroken(line);
        assert(masked(redacted(line), secret_keys()[0]) == redacted(line));
        assert(masked(redacted(line), secret_keys()[1]) == redacted(line));
        assert(masked(redacted(line), secret_keys()[2]) == redacted(line));
    } else {
        let (a, c, b) = (line.take(e), line[e], line.skip(e + 1));
        assert(line =~= a + seq![c] + b);
        a_redacted_line_stays_as_it_is(a);
        a_redacted_line_stays_as_it_is(b);
        redaction_goes_piece_by_piece(a, c, b);
        redaction_goes_piece_by_piece(redacted(a), c, redacted(b));
    }
}

/// Whether `s` holds none of the secret parameters, whatever the case of their letters.
pub open spec fn without_keys(s: Seq<char>) -> bool {
    forall|k: int|
        0 <= k < secret_keys().len() ==> !holds(lowered(s), #[trigger] secret_keys()[k])
}

/// A line without any of the secret parameters is left as it is.
pub proof fn redaction_leaves_other_lines_alone(line: Seq<char>)
    requires
        without_keys(line),
    ensures
        redacted(line) == line,
{
    lemma_keys();
    assert forall|k: int| 0 <= k < 3 implies masked(line, #[trigger] secret_keys()[k]) == line by {
        lemma_position(lowered(line), secret_keys()[k], 0);
        assert(line.skip(0) =~= line);
    }
    assert(masked(line, secret_keys()[0]) == line);
    assert(masked(line, secret_keys()[1]) == line);
    assert(masked(line, secret_keys()[2]) == line);
}

/// Before the value of one parameter, another is not found.
proof fn lemma_other_key(p: Seq<char>, k: Seq<char>, v: Seq<char>, key: Seq<char>, other: Seq<char>)
    requires
        keyword(key),
        keyword(other),
        key[key.len() - 2] != other[other.len() - 2],
        lowered(k) == key,
        !holds(lowered(p), other),
    ensures
        masked(p + k + v, other) == p + k + masked(v, other),
{
    let s = p + k + v;
    let m = p.len() + k.len();
    assert(s.subrange(0, p.len() as int) =~= p);
    assert forall|j: int| 0 <= j < m implies !occurs(lowered(s), other, j) by {
        if occurs(lowered(s), other, j) {
            let e = j + other.len();
            lemma_inside(s, other, j, e - 1);
            lemma_inside(s, other, j, e - 2);
            if e <= p.len() {
                lemma_part(s, p, 0, other, j);
            } else if e < m {
                lemma_key_letter(p, k, v, key, e - 1);
            } else {
                lemma_key_letter(p, k, v, key, m - 1);
                lemma_key_letter(p, k, v, key, m - 2);
                lemma_inside(s, other, j, m - 1);
            }
        }
    }
    lemma_untouched(s, other, 0, m as int);
    lemma_skipped(s, other, m as int, 0);
    assert(s.skip(m as int) =~= v);
    assert(s.subrange(0, m as int) =~= p + k);
}

/// The letters of a key within a line.
proof fn lemma_key_letter(p: Seq<char>, k: Seq<char>, v: Seq<char>, key: Seq<char>, at: int)
    requires
        keyword(key),
        lowered(k) == key,
        p.len() <= at < p.len() + k.len(),
    ensures
        small((p + k + v)[at]) == key[at - p.len()],
        ((p + k + v)[at] == '=') == (at == p.len() + k.len() - 1),
{
    let t = at - p.len();
    assert((p + k + v)[at] == k[t]);
    assert(lowered(k)[t] == small(k[t]));
}

/// A value that reaches to the end is masked.
proof fn lemma_own_key(p: Seq<char>, k: Seq<char>, v: Seq<char>, key: Seq<char>)
    requires
        keyword(key),
        lowered(k) == key,
        !holds(lowered(p), key),
        v.len() > 0,
        unbroken(v),
    ensures
        masked(p + k + v, key) == p + k + mask(),
{
    let s = p + k + v;
    let m = p.len() + k.len();
    let n = s.len() as int;
    assert(s.subrange(0, p.len() as int) =~= p);
    assert(s.subrange(p.len() as int, p.len() as int + k.len()) =~= k);
    assert forall|j: int| 0 <= j < p.len() implies !occurs(lowered(s), key, j) by {
        if occurs(lowered(s), key, j) {
            let e = j + key.len();
            lemma_inside(s, key, j, e - 1);
            if e <= p.len() {
                lemma_part(s, p, 0, key, j);
            } else {
                lemma_key_letter(p, k, v, key, e - 1);
            }
        }
    }
    assert(occurs(lowered(k), key, 0)) by {
        assert(lowered(k).subrange(0, key.len() as int) =~= key);
    }
    lemma_part(s, k, p.len() as int, key, 0);
    lemma_first(lowered(s), key, 0, p.len() as int);
    assert forall|i: int| m <= i < n implies !Class::ValueEnd.has(#[trigger] s[i]) by {
        assert(s[i] == v[i - m]);
    }
    lemma_first_end(s, m as int, n);
    lemma_position(lowered(s), key, n);
    assert(masked_from(s, key, n) =~= seq![]);
    assert(s.subrange(0, m as int) =~= p + k);
    assert(s.subrange(m as int, n) =~= v);
    assert(masked(s, key) =~= p + k + mask());
}

/// A secret at the end of a line is replaced by the mask.
proof fn lemma_last_secret(p: Seq<char>, k: Seq<char>, v: Seq<char>, which: int)
    requires
        without_keys(p),
        0 <= which < 3,
        lowered(k) == secret_keys()[which],
        v.len() > 0,
        unbroken(v),
    ensures
        redacted(p + k + v) == p + k + mask(),
{
    lemma_keys();
    let (k0, k1, k2) = (secret_keys()[0], secret_keys()[1], secret_keys()[2]);
    assert(!holds(lowered(p), k0) && !holds(lowered(p), k1) && !holds(lowered(p), k2));
    assert forall|l: int| 0 <= l < 3 implies masked(mask(), #[trigger] secret_keys()[l])
        == mask() by {
        let key = secret_keys()[l];
        lemma_position(lowered(mask()), key, 0);
        assert(mask().skip(0) =~= mask());
    }
    assert(masked(mask(), k1) == mask() && masked(mask(), k2) == mask());
    if which == 0 {
        lemma_own_key(p, k, v, k0);
        lemma_other_key(p, k, mask(), k0, k1);
        lemma_other_key(p, k, mask(), k0, k2);
    } else if which == 1 {
        lemma_other_key(p, k, v, k1, k0);
        lemma_unbroken(v, k0);
        lemma_own_key(p, k, masked(v, k0), k1);
        lemma_other_key(p, k, mask(), k1, k2);
    } else {
        lemma_other_key(p, k, v, k2, k0);
        lemma_unbroken(v, k0);
        lemma_other_key(p, k, masked(v, k0), k2, k1);
        lemma_unbroken(masked(v, k0), k1);
        lemma_own_key(p, k, masked(masked(v, k0), k1), k2);
    }
}

/// A redacted line does not depend on a secret in it, not even on its length. `k` is a secret
/// parameter, in whatever case, the first in its line; `c` ends its value and `s` is the rest.
pub proof fn a_secret_leaves_no_trace(
    p: Seq<char>,
    k: Seq<char>,
    v1: Seq<char>,
    v2: Seq<char>,
    c: char,
    s: Seq<char>,
)
    requires
        without_keys(p),
        secret_keys().contains(lowered(k)),
        v1.len() > 0,
        v2.len() > 0,
        forall|i: int| 0 <= i < v1.len() ==> !Class::ValueEnd.has(#[trigger] v1[i]),
        forall|i: int| 0 <= i < v2.len() ==> !Class::ValueEnd.has(#[trigger] v2[i]),
        Class::ValueEnd.has(c),
    ensures
        redacted(p + k + v1) == p + k + mask(),
        redacted(p + k + v1 + seq![c] + s) == p + k + mask() + seq![c] + redacted(s),
        redacted(p + k + v1) == redacted(p + k + v2),
        redacted(p + k + v1 + seq![c] + s) == redacted(p + k + v2 + seq![c] + s),
{
    lemma_keys();
    let which = choose|i: int| 0 <= i < secret_keys().len() && secret_keys()[i] == lowered(k);
    lemma_last_secret(p, k, v1, which);
    lemma_last_secret(p, k, v2, which);
    redaction_goes_piece_by_piece(p + k + v1, c, s);
    redaction_goes_piece_by_piece(p + k + v2, c, s);
}

}
