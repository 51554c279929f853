//! Text as sequences of characters: searching, splitting, trimming, numbers.
use vstd::prelude::*;

pub mod laws;

verus! {

broadcast use vstd::string::group_string_axioms;

/// `String::push` appends one character.
pub assume_specification[ String::push ](s: &mut String, c: char)
    ensures
        final(s)@ == old(s)@.push(c),
;

/// The characters with the Unicode property White_Space.
pub open spec fn white_space(c: char) -> bool {
    let n = c as u32;
    ||| 0x09 <= n <= 0x0d
    ||| n == 0x20
    ||| n == 0x85
    ||| n == 0xa0
    ||| n == 0x1680
    ||| 0x2000 <= n <= 0x200a
    ||| n == 0x2028
    ||| n == 0x2029
    ||| n == 0x202f
    ||| n == 0x205f
    ||| n == 0x3000
}

/// Whether `c` is white space.
pub fn is_white_space(c: char) -> (b: bool)
    ensures
        b == white_space(c),
{
    let n: u32 = c as u32;
    (0x09 <= n && n <= 0x0d) || n == 0x20 || n == 0x85 || n == 0xa0 || n == 0x1680
        || (0x2000 <= n && n <= 0x200a) || n == 0x2028 || n == 0x2029 || n == 0x202f
        || n == 0x205f || n == 0x3000
}

/// The ASCII digits.
pub open spec fn digit(c: char) -> bool {
    '0' <= c <= '9'
}

/// Kinds of characters that end or surround the pieces the launcher looks for.
#[derive(Clone, Copy, Debug, PartialEq, Eq, Structural)]
pub enum Class {
    /// white space
    Space,
    /// a double quote
    Quote,
    /// anything that cannot be part of a version number
    NotVersion,
    /// what ends a link inside a page
    LinkEnd,
    /// what ends the value of a parameter in a log line
    ValueEnd,
    /// carriage return and line feed
    LineEnd,
}

impl Class {
    /// The characters of this kind.
    pub open spec fn has(self, c: char) -> bool {
        match self {
            Class::Space => white_space(c),
            Class::Quote => c == '"',
            Class::NotVersion => !digit(c) && c != '.',
            Class::LinkEnd => c == '"' || c == '\'' || c == '<' || white_space(c),
            Class::ValueEnd => c == '&' || c == ';' || c == '"' || white_space(c),
            Class::LineEnd => c == '\r' || c == '\n',
        }
    }

    /// Whether `c` is of this kind.
    pub fn contains(self, c: char) -> (b: bool)
        ensures
            b == self.has(c),
    {
        match self {
            Class::Space => is_white_space(c),
            Class::Quote => c == '"',
            Class::NotVersion => !('0' <= c && c <= '9') && c != '.',
            Class::LinkEnd => c == '"' || c == '\'' || c == '<' || is_white_space(c),
            Class::ValueEnd => c == '&' || c == ';' || c == '"' || is_white_space(c),
            Class::LineEnd => c == '\r' || c == '\n',
        }
    }
}

/// The first position at or after `from` that holds a character of `class`, or the end.
pub open spec fn next_in(s: Seq<char>, class: Class, from: int) -> int
    decreases s.len() - from,
{
    if from >= s.len() {
        s.len() as int
    } else if class.has(s[from]) {
        from
    } else {
        next_in(s, class, from + 1)
    }
}

/// The first position at or after `from` that holds no character of `class`, or the end.
pub open spec fn next_not_in(s: Seq<char>, class: Class, from: int) -> int
    decreases s.len() - from,
{
    if from >= s.len() {
        s.len() as int
    } else if !class.has(s[from]) {
        from
    } else {
        next_not_in(s, class, from + 1)
    }
}

/// Where `s[lo..hi]` ends once the characters of `class` at its end are dropped.
pub open spec fn end_without(s: Seq<char>, class: Class, lo: int, hi: int) -> int
    decreases hi - lo,
{
    if hi <= lo {
        lo
    } else if !class.has(s[hi - 1]) {
        hi
    } else {
        end_without(s, class, lo, hi - 1)
    }
}

/// `s` without the characters of `class` at its two ends.
pub open spec fn trimmed(s: Seq<char>, class: Class) -> Seq<char> {
    let lo = next_not_in(s, class, 0);
    s.subrange(lo, end_without(s, class, lo, s.len() as int))
}

/// `s` without the characters of `class` at its end.
pub open spec fn end_trimmed(s: Seq<char>, class: Class) -> Seq<char> {
    s.subrange(0, end_without(s, class, 0, s.len() as int))
}

pub proof fn lemma_next_in(s: Seq<char>, class: Class, from: int)
    requires
        0 <= from <= s.len(),
    ensures
        from <= next_in(s, class, from) <= s.len(),
        forall|i: int| from <= i < next_in(s, class, from) ==> !class.has(#[trigger] s[i]),
        next_in(s, class, from) < s.len() ==> class.has(s[next_in(s, class, from)]),
    decreases s.len() - from,
{
    if from < s.len() && !class.has(s[from]) {
        lemma_next_in(s, class, from + 1);
    }
}

pub proof fn lemma_next_not_in(s: Seq<char>, class: Class, from: int)
    requires
        0 <= from <= s.len(),
    ensures
        from <= next_not_in(s, class, from) <= s.len(),
        forall|i: int| from <= i < next_not_in(s, class, from) ==> class.has(#[trigger] s[i]),
        next_not_in(s, class, from) < s.len() ==> !class.has(s[next_not_in(s, class, from)]),
    decreases s.len() - from,
{
    if from < s.len() && class.has(s[from]) {
        lemma_next_not_in(s, class, from + 1);
    }
}

pub proof fn lemma_end_without(s: Seq<char>, class: Class, lo: int, hi: int)
    requires
        0 <= lo <= hi <= s.len(),
    ensures
        lo <= end_without(s, class, lo, hi) <= hi,
        forall|i: int| end_without(s, class, lo, hi) <= i < hi ==> class.has(#[trigger] s[i]),
        end_without(s, class, lo, hi) > lo ==> !class.has(s[end_without(s, class, lo, hi) - 1]),
    decreases hi - lo,
{
    if lo < hi && class.has(s[hi - 1]) {
        lemma_end_without(s, class, lo, hi - 1);
    }
}

/// The characters of `s`.
pub fn chars_of(s: &str) -> (v: Vec<char>)
    ensures
        v@ == s@,
{
    let mut v: Vec<char> = Vec::new();
    for c in it: s.chars()
        invariant
            it.seq() == s@,
            v@ == s@.take(it.index()),
    {
        v.push(c);
    }
    v
}

/// The text made of `v[from..to]`.
pub fn text_of(v: &Vec<char>, from: usize, to: usize) -> (s: String)
    requires
        from <= to <= v.len(),
    ensures
        s@ == v@.subrange(from as int, to as int),
{
    let mut s = String::new();
    let mut i: usize = from;
    while i < to
        invariant
            from <= i <= to <= v.len(),
            s@ == v@.subrange(from as int, i as int),
        decreases to - i,
    {
        s.push(v[i]);
        i += 1;
    }
    s
}

/// The texts in a list of strings.
pub open spec fn texts(v: Seq<String>) -> Seq<Seq<char>> {
    Seq::new(v.len(), |i: int| v[i]@)
}

/// The text in an optional string.
pub open spec fn text_in(s: Option<String>) -> Option<Seq<char>> {
    match s {
        Some(s) => Some(s@),
        None => None,
    }
}

/// The text in an optional borrowed string.
pub open spec fn borrowed(s: Option<&str>) -> Option<Seq<char>> {
    match s {
        Some(s) => Some(s@),
        None => None,
    }
}

/// Whether `pattern` stands in `s` at position `at`.
pub open spec fn occurs(s: Seq<char>, pattern: Seq<char>, at: int) -> bool {
    0 <= at && at + pattern.len() <= s.len() && s.subrange(at, at + pattern.len()) == pattern
}

/// The first position at or after `from` where `pattern` stands in `s`.
pub open spec fn position(s: Seq<char>, pattern: Seq<char>, from: int) -> Option<int>
    decreases s.len() + 1 - from,
{
    if from + pattern.len() > s.len() {
        None
    } else if occurs(s, pattern, from) {
        Some(from)
    } else {
        position(s, pattern, from + 1)
    }
}

/// Whether `pattern` stands somewhere in `s`.
pub open spec fn holds(s: Seq<char>, pattern: Seq<char>) -> bool {
    exists|at: int| occurs(s, pattern, at)
}

/// Whether `s` begins with `pattern`.
pub open spec fn begins(s: Seq<char>, pattern: Seq<char>) -> bool {
    occurs(s, pattern, 0)
}

/// Whether `s` ends with `pattern`.
pub open spec fn ends(s: Seq<char>, pattern: Seq<char>) -> bool {
    occurs(s, pattern, s.len() - pattern.len())
}

pub proof fn lemma_position(s: Seq<char>, pattern: Seq<char>, from: int)
    requires
        0 <= from,
    ensures
        match position(s, pattern, from) {
            Some(at) => {
                &&& from <= at
                &&& occurs(s, pattern, at)
                &&& forall|i: int| from <= i < at ==> !occurs(s, pattern, i)
            },
            None => forall|i: int| from <= i ==> !occurs(s, pattern, i),
        },
    decreases s.len() + 1 - from,
{
    if from + pattern.len() <= s.len() && !occurs(s, pattern, from) {
        lemma_position(s, pattern, from + 1);
    }
}

/// The first position at or after `from` that holds `c`, or the end.
pub open spec fn next_char(s: Seq<char>, c: char, from: int) -> int
    decreases s.len() - from,
{
    if from >= s.len() {
        s.len() as int
    } else if s[from] == c {
        from
    } else {
        next_char(s, c, from + 1)
    }
}

pub proof fn lemma_next_char(s: Seq<char>, c: char, from: int)
    requires
        0 <= from <= s.len(),
    ensures
        from <= next_char(s, c, from) <= s.len(),
        forall|i: int| from <= i < next_char(s, c, from) ==> #[trigger] s[i] != c,
        next_char(s, c, from) < s.len() ==> s[next_char(s, c, from)] == c,
    decreases s.len() - from,
{
    if from < s.len() && s[from] != c {
        lemma_next_char(s, c, from + 1);
    }
}

/// The pieces of `s[from..]` between the occurrences of `separator`.
pub open spec fn pieces(s: Seq<char>, separator: char, from: int) -> Seq<Seq<char>>
    decreases s.len() - from,
    when 0 <= from <= s.len()
{
    proof {
        lemma_next_char(s, separator, from);
    }
    let end = next_char(s, separator, from);
    if end >= s.len() {
        seq![s.subrange(from, s.len() as int)]
    } else {
        seq![s.subrange(from, end)] + pieces(s, separator, end + 1)
    }
}

/// The words of `s[from..]`, which white space separates.
pub open spec fn words_in(s: Seq<char>, from: int) -> Seq<Seq<char>>
    decreases s.len() - from,
    when 0 <= from <= s.len()
{
    proof {
        lemma_next_not_in(s, Class::Space, from);
        lemma_next_in(s, Class::Space, next_not_in(s, Class::Space, from));
    }
    let start = next_not_in(s, Class::Space, from);
    let end = next_in(s, Class::Space, start);
    if start >= s.len() {
        seq![]
    } else {
        seq![s.subrange(start, end)] + words_in(s, end)
    }
}

/// The line that starts at `from` and whose line feed, if it has one, is at `end`.
pub open spec fn line_between(s: Seq<char>, from: int, end: int) -> Seq<char> {
    if end < s.len() && end > from && s[end - 1] == '\r' {
        s.subrange(from, end - 1)
    } else {
        s.subrange(from, end)
    }
}

/// The lines of `s[from..]`, without their line feeds and the carriage returns before those.
pub open spec fn lines_in(s: Seq<char>, from: int) -> Seq<Seq<char>>
    decreases s.len() - from,
    when 0 <= from <= s.len()
{
    proof {
        lemma_next_char(s, '\n', from);
    }
    let end = next_char(s, '\n', from);
    if from >= s.len() {
        seq![]
    } else if end >= s.len() {
        seq![line_between(s, from, s.len() as int)]
    } else {
        seq![line_between(s, from, end)] + lines_in(s, end + 1)
    }
}

/// `c` with an ASCII capital made small.
pub open spec fn small(c: char) -> char {
    if 'A' <= c <= 'Z' {
        (c as u32 + 32) as char
    } else {
        c
    }
}

/// `s` with its ASCII capitals made small.
pub open spec fn lowered(s: Seq<char>) -> Seq<char> {
    Seq::new(s.len(), |i: int| small(s[i]))
}

/// The digit that stands for `n`.
pub open spec fn digit_of(n: nat) -> char {
    (48 + n) as char
}

/// `n` in decimal.
pub open spec fn decimal(n: nat) -> Seq<char>
    decreases n,
{
    if n < 10 {
        seq![digit_of(n)]
    } else {
        decimal(n / 10).push(digit_of(n % 10))
    }
}

/// Whether `s` is made of digits only, at least one.
pub open spec fn all_digits(s: Seq<char>) -> bool {
    s.len() > 0 && forall|i: int| 0 <= i < s.len() ==> digit(#[trigger] s[i])
}

/// The number whose decimal digits `s` holds.
pub open spec fn number(s: Seq<char>) -> nat
    decreases s.len(),
{
    if s.len() == 0 {
        0
    } else {
        (number(s.drop_last()) * 10 + (s.last() as u32 - 48)) as nat
    }
}

/// The number that `s` writes in decimal, with an optional plus before it, if it is at most `max`.
pub open spec fn parsed(s: Seq<char>, max: nat) -> Option<nat> {
    let digits = if s.len() > 0 && s[0] == '+' {
        s.subrange(1, s.len() as int)
    } else {
        s
    };
    if all_digits(digits) && number(digits) <= max {
        Some(number(digits))
    } else {
        None
    }
}

proof fn lemma_decimal(n: nat)
    ensures
        all_digits(decimal(n)),
        number(decimal(n)) == n,
    decreases n,
{
    if n < 10 {
        assert(decimal(n).drop_last() =~= Seq::<char>::empty());
        assert(number(Seq::<char>::empty()) == 0);
    } else {
        lemma_decimal(n / 10);
        assert(decimal(n).drop_last() =~= decimal(n / 10));
        assert forall|i: int| 0 <= i < decimal(n).len() implies digit(#[trigger] decimal(n)[i]) by {
            if i < decimal(n / 10).len() {
                assert(digit(decimal(n / 10)[i]));
            }
        }
    }
}

/// A number written in decimal reads back as itself.
pub proof fn decimal_reads_back(n: nat, max: nat)
    requires
        n <= max,
    ensures
        parsed(decimal(n), max) == Some(n),
{
    lemma_decimal(n);
    assert(digit(decimal(n)[0]));
}

/// Whether `a` comes before `b` or equals it, character by character.
pub open spec fn in_order(a: Seq<char>, b: Seq<char>) -> bool
    decreases a.len(),
{
    if a.len() == 0 {
        true
    } else if b.len() == 0 {
        false
    } else if a[0] != b[0] {
        a[0] < b[0]
    } else {
        in_order(a.drop_first(), b.drop_first())
    }
}

/// How many bytes `c` takes in UTF-8.
pub open spec fn width(c: char) -> nat {
    let n = c as u32;
    if n < 0x80 {
        1
    } else if n < 0x800 {
        2
    } else if n < 0x10000 {
        3
    } else {
        4
    }
}

/// How many bytes `s` takes in UTF-8.
pub open spec fn byte_len(s: Seq<char>) -> nat
    decreases s.len(),
{
    if s.len() == 0 {
        0
    } else {
        width(s[0]) + byte_len(s.drop_first())
    }
}

/// `byte_len` counts the bytes of the UTF-8 encoding.
pub proof fn byte_len_is_encoded_len(s: Seq<char>)
    ensures
        byte_len(s) == vstd::utf8::encode_utf8(s).len(),
    decreases s.len(),
{
    if s.len() > 0 {
        byte_len_is_encoded_len(s.drop_first());
        vstd::utf8::char_is_scalar(s[0]);
        assert(vstd::utf8::encode_scalar(s[0] as u32).len() == width(s[0]));
    }
}

/// The order on texts is total.
pub proof fn in_order_total(a: Seq<char>, b: Seq<char>)
    ensures
        in_order(a, b) || in_order(b, a),
    decreases a.len(),
{
    if a.len() > 0 && b.len() > 0 && a[0] == b[0] {
        in_order_total(a.drop_first(), b.drop_first());
    }
}

/// The order on texts is transitive.
pub proof fn in_order_transitive(a: Seq<char>, b: Seq<char>, c: Seq<char>)
    requires
        in_order(a, b),
        in_order(b, c),
    ensures
        in_order(a, c),
    decreases a.len(),
{
    if a.len() > 0 && b.len() > 0 && c.len() > 0 && a[0] == b[0] && b[0] == c[0] {
        in_order_transitive(a.drop_first(), b.drop_first(), c.drop_first());
    }
}

/// Two texts that are each at most the other are equal.
pub proof fn in_order_antisymmetric(a: Seq<char>, b: Seq<char>)
    requires
        in_order(a, b),
        in_order(b, a),
    ensures
        a == b,
    decreases a.len(),
{
    if a.len() > 0 && b.len() > 0 {
        in_order_antisymmetric(a.drop_first(), b.drop_first());
        assert(a == seq![a[0]] + a.drop_first());
        assert(b == seq![b[0]] + b.drop_first());
    } else {
        assert(a =~= b);
    }
}

/// Whether `a` and `b` hold the same characters.
pub fn same_text(a: &str, b: &str) -> (same: bool)
    ensures
        same == (a@ == b@),
{
    let x = chars_of(a);
    let y = chars_of(b);
    if x.len() != y.len() {
        return false;
    }
    let mut i: usize = 0;
    while i < x.len()
        invariant
            i <= x.len(),
            x.len() == y.len(),
            x@ == a@,
            y@ == b@,
            x@.take(i as int) == y@.take(i as int),
        decreases x.len() - i,
    {
        if x[i] != y[i] {
            assert(a@[i as int] != b@[i as int]);
            return false;
        }
        assert(x@.take(i + 1) == x@.take(i as int).push(x@[i as int]));
        assert(y@.take(i + 1) == y@.take(i as int).push(y@[i as int]));
        i += 1;
    }
    assert(x@.take(i as int) == x@);
    assert(y@.take(i as int) == y@);
    true
}

/// The first position at or after `from` that holds a character of `class`, or the end.
pub fn find_in(v: &Vec<char>, class: Class, from: usize) -> (at: usize)
    requires
        from <= v.len(),
    ensures
        at == next_in(v@, class, from as int),
        from <= at <= v.len(),
{
    let mut i: usize = from;
    while i < v.len()
        invariant
            from <= i <= v.len(),
            next_in(v@, class, from as int) == next_in(v@, class, i as int),
        decreases v.len() - i,
    {
        if class.contains(v[i]) {
            return i;
        }
        i += 1;
    }
    i
}

/// The first position at or after `from` that holds no character of `class`, or the end.
pub fn find_not_in(v: &Vec<char>, class: Class, from: usize) -> (at: usize)
    requires
        from <= v.len(),
    ensures
        at == next_not_in(v@, class, from as int),
        from <= at <= v.len(),
{
    let mut i: usize = from;
    while i < v.len()
        invariant
            from <= i <= v.len(),
            next_not_in(v@, class, from as int) == next_not_in(v@, class, i as int),
        decreases v.len() - i,
    {
        if !class.contains(v[i]) {
            return i;
        }
        i += 1;
    }
    i
}

/// Where `v[lo..hi]` ends once the characters of `class` at its end are dropped.
pub fn find_end(v: &Vec<char>, class: Class, lo: usize, hi: usize) -> (end: usize)
    requires
        lo <= hi <= v.len(),
    ensures
        end == end_without(v@, class, lo as int, hi as int),
        lo <= end <= hi,
{
    let mut i: usize = hi;
    while i > lo
        invariant
            lo <= i <= hi <= v.len(),
            end_without(v@, class, lo as int, hi as int) == end_without(
                v@,
                class,
                lo as int,
                i as int,
            ),
        decreases i,
    {
        if !class.contains(v[i - 1]) {
            return i;
        }
        i -= 1;
    }
    i
}

/// `s` without the characters of `class` at its two ends.
pub fn trim(s: &str, class: Class) -> (t: String)
    ensures
        t@ == trimmed(s@, class),
{
    let v = chars_of(s);
    let lo: usize = find_not_in(&v, class, 0);
    let hi: usize = find_end(&v, class, lo, v.len());
    text_of(&v, lo, hi)
}

/// `s` without the characters of `class` at its end.
pub fn trim_end(s: &str, class: Class) -> (t: String)
    ensures
        t@ == end_trimmed(s@, class),
{
    let v = chars_of(s);
    let hi: usize = find_end(&v, class, 0, v.len());
    text_of(&v, 0, hi)
}

/// The first position at or after `from` that holds `c`, or the end.
pub fn find_char(v: &Vec<char>, c: char, from: usize) -> (at: usize)
    requires
        from <= v.len(),
    ensures
        at == next_char(v@, c, from as int),
        from <= at <= v.len(),
{
    let mut i: usize = from;
    while i < v.len()
        invariant
            from <= i <= v.len(),
            next_char(v@, c, from as int) == next_char(v@, c, i as int),
        decreases v.len() - i,
    {
        if v[i] == c {
            return i;
        }
        i += 1;
    }
    i
}

/// Whether `pattern` stands in `v` at position `at`.
pub fn stands_at(v: &Vec<char>, pattern: &Vec<char>, at: usize) -> (b: bool)
    ensures
        b == occurs(v@, pattern@, at as int),
{
    if at > v.len() || pattern.len() > v.len() - at {
        return false;
    }
    let mut i: usize = 0;
    while i < pattern.len()
        invariant
            i <= pattern.len(),
            at + pattern.len() <= v.len(),
            forall|j: int| 0 <= j < i ==> v@[at + j] == #[trigger] pattern@[j],
        decreases pattern.len() - i,
    {
        if v[at + i] != pattern[i] {
            assert(v@.subrange(at as int, at + pattern.len())[i as int] != pattern@[i as int]);
            return false;
        }
        i += 1;
    }
    assert(v@.subrange(at as int, at + pattern.len()) =~= pattern@);
    true
}

/// The first position at or after `from` where `pattern` stands in `v`.
pub fn find_text(v: &Vec<char>, pattern: &Vec<char>, from: usize) -> (at: Option<usize>)
    ensures
        match at {
            Some(at) => position(v@, pattern@, from as int) == Some(at as int) && from <= at
                && occurs(v@, pattern@, at as int),
            None => position(v@, pattern@, from as int) is None,
        },
{
    let mut i: usize = from;
    while i <= v.len() && pattern.len() <= v.len() - i
        invariant
            from <= i,
            position(v@, pattern@, from as int) == position(v@, pattern@, i as int),
        decreases v.len() + 1 - i,
    {
        if stands_at(v, pattern, i) {
            return Some(i);
        }
        assert(pattern.len() == 0 ==> v@.subrange(i as int, i as int) =~= pattern@);
        i += 1;
    }
    None
}

/// Whether `s` begins with `pattern`.
pub fn starts_with(s: &str, pattern: &str) -> (b: bool)
    ensures
        b == begins(s@, pattern@),
{
    stands_at(&chars_of(s), &chars_of(pattern), 0)
}

/// Whether `s` ends with `pattern`.
pub fn ends_with(s: &str, pattern: &str) -> (b: bool)
    ensures
        b == ends(s@, pattern@),
{
    let v = chars_of(s);
    let p = chars_of(pattern);
    if p.len() > v.len() {
        return false;
    }
    stands_at(&v, &p, v.len() - p.len())
}

/// Whether `pattern` stands somewhere in `s`.
pub fn contains_text(s: &str, pattern: &str) -> (b: bool)
    ensures
        b == holds(s@, pattern@),
{
    let v = chars_of(s);
    let p = chars_of(pattern);
    proof {
        lemma_position(s@, pattern@, 0);
    }
    find_text(&v, &p, 0).is_some()
}

/// The pieces of `s` between the occurrences of `separator`.
pub fn split(s: &str, separator: char) -> (parts: Vec<String>)
    ensures
        texts(parts@) == pieces(s@, separator, 0),
{
    let v = chars_of(s);
    let mut parts: Vec<String> = Vec::new();
    let mut from: usize = 0;
    loop
        invariant
            v@ == s@,
            from <= v.len(),
            texts(parts@) + pieces(s@, separator, from as int) == pieces(s@, separator, 0),
        decreases v.len() - from,
    {
        let end: usize = find_char(&v, separator, from);
        let ghost before = parts@;
        parts.push(text_of(&v, from, end));
        assert(texts(parts@) == texts(before).push(s@.subrange(from as int, end as int)));
        if end == v.len() {
            assert(texts(parts@) == texts(before) + pieces(s@, separator, from as int));
            return parts;
        }
        assert(texts(parts@) + pieces(s@, separator, end + 1) == texts(before) + pieces(
            s@,
            separator,
            from as int,
        ));
        from = end + 1;
    }
}

/// The words of `s`, which white space separates.
pub fn words(s: &str) -> (list: Vec<String>)
    ensures
        texts(list@) == words_in(s@, 0),
{
    let v = chars_of(s);
    let mut list: Vec<String> = Vec::new();
    let mut from: usize = 0;
    loop
        invariant
            v@ == s@,
            from <= v.len(),
            texts(list@) + words_in(s@, from as int) == words_in(s@, 0),
        decreases v.len() - from,
    {
        let start: usize = find_not_in(&v, Class::Space, from);
        if start == v.len() {
            assert(texts(list@) + words_in(s@, from as int) == texts(list@));
            return list;
        }
        let end: usize = find_in(&v, Class::Space, start);
        proof {
            lemma_next_not_in(s@, Class::Space, from as int);
            lemma_next_in(s@, Class::Space, start as int);
        }
        let ghost before = list@;
        list.push(text_of(&v, start, end));
        assert(texts(list@) == texts(before).push(s@.subrange(start as int, end as int)));
        assert(texts(list@) + words_in(s@, end as int) == texts(before) + words_in(
            s@,
            from as int,
        ));
        from = end;
    }
}

/// The lines of `s`.
pub fn lines(s: &str) -> (list: Vec<String>)
    ensures
        texts(list@) == lines_in(s@, 0),
{
    let v = chars_of(s);
    let mut list: Vec<String> = Vec::new();
    let mut from: usize = 0;
    while from < v.len()
        invariant
            v@ == s@,
            from <= v.len(),
            texts(list@) + lines_in(s@, from as int) == lines_in(s@, 0),
        decreases v.len() - from,
    {
        let end: usize = find_char(&v, '\n', from);
        let last: usize = if end < v.len() && end > from && v[end - 1] == '\r' {
            end - 1
        } else {
            end
        };
        let ghost before = list@;
        list.push(text_of(&v, from, last));
        assert(texts(list@) == texts(before).push(line_between(s@, from as int, end as int)));
        if end == v.len() {
            assert(texts(list@) == texts(before) + lines_in(s@, from as int));
            return list;
        }
        assert(texts(list@) + lines_in(s@, end + 1) == texts(before) + lines_in(s@, from as int));
        from = end + 1;
    }
    assert(texts(list@) + lines_in(s@, from as int) == texts(list@));
    list
}

/// `c` with an ASCII capital made small.
pub fn small_char(c: char) -> (r: char)
    ensures
        r == small(c),
{
    if 'A' <= c && c <= 'Z' {
        (c as u8 + 32) as char
    } else {
        c
    }
}

/// `s` with its ASCII capitals made small.
pub fn lowercase(s: &str) -> (t: String)
    ensures
        t@ == lowered(s@),
{
    let v = chars_of(s);
    let mut t = String::new();
    let mut i: usize = 0;
    while i < v.len()
        invariant
            v@ == s@,
            i <= v.len(),
            t@ == lowered(s@).take(i as int),
        decreases v.len() - i,
    {
        t.push(small_char(v[i]));
        i += 1;
    }
    t
}

/// `n` in decimal.
pub fn decimal_text(n: u64) -> (s: String)
    ensures
        s@ == decimal(n as nat),
    decreases n,
{
    if n < 10 {
        let mut s = String::new();
        s.push((48 + n as u8) as char);
        s
    } else {
        let mut s = decimal_text(n / 10);
        s.push((48 + (n % 10) as u8) as char);
        s
    }
}

proof fn lemma_number_grows(s: Seq<char>, k: int)
    requires
        all_digits(s),
        0 <= k <= s.len(),
    ensures
        number(s.take(k)) <= number(s),
    decreases s.len(),
{
    if k == s.len() {
        assert(s.take(k) == s);
    } else {
        let front = s.drop_last();
        assert(front.take(k) == s.take(k));
        assert(digit(s[s.len() - 1]));
        if front.len() > 0 {
            assert forall|i: int| 0 <= i < front.len() implies digit(#[trigger] front[i]) by {
                assert(digit(s[i]));
            }
            lemma_number_grows(front, k);
        } else {
            assert(s.take(k) == Seq::<char>::empty());
        }
    }
}

/// The number that `s` writes in decimal, with an optional plus before it, if it is at most `max`.
pub fn parse_number(s: &str, max: u64) -> (n: Option<u64>)
    ensures
        match n {
            Some(n) => parsed(s@, max as nat) == Some(n as nat),
            None => parsed(s@, max as nat) is None,
        },
{
    let v = chars_of(s);
    let from: usize = if v.len() > 0 && v[0] == '+' {
        1
    } else {
        0
    };
    let ghost digits = if s@.len() > 0 && s@[0] == '+' {
        s@.subrange(1, s@.len() as int)
    } else {
        s@
    };
    assert(digits == v@.subrange(from as int, v.len() as int));
    if from == v.len() {
        return None;
    }
    let mut value: u64 = 0;
    let mut i: usize = from;
    while i < v.len()
        invariant
            from <= i <= v.len(),
            digits == v@.subrange(from as int, v.len() as int),
            digits == (if s@.len() > 0 && s@[0] == '+' {
                s@.subrange(1, s@.len() as int)
            } else {
                s@
            }),
            value == number(digits.take(i - from)),
            value <= max,
            forall|j: int| 0 <= j < i - from ==> digit(#[trigger] digits[j]),
        decreases v.len() - i,
    {
        let c = v[i];
        assert(digits[i - from] == c);
        if !('0' <= c && c <= '9') {
            return None;
        }
        let next: u128 = value as u128 * 10 + (c as u32 - 48) as u128;
        proof {
            let k = i - from;
            assert(digits.take(k + 1).drop_last() == digits.take(k));
            if all_digits(digits) {
                lemma_number_grows(digits, k + 1);
            }
        }
        if next > max as u128 {
            return None;
        }
        value = next as u64;
        i += 1;
    }
    assert(digits.take(i - from) == digits);
    Some(value)
}

/// Whether `a` comes before `b` or equals it, character by character.
pub fn ordered(a: &str, b: &str) -> (yes: bool)
    ensures
        yes == in_order(a@, b@),
{
    let x = chars_of(a);
    let y = chars_of(b);
    let mut i: usize = 0;
    assert(a@.skip(0) == a@);
    assert(b@.skip(0) == b@);
    while i < x.len() && i < y.len()
        invariant
            x@ == a@,
            y@ == b@,
            i <= x.len(),
            i <= y.len(),
            in_order(a@, b@) == in_order(a@.skip(i as int), b@.skip(i as int)),
        decreases x.len() - i,
    {
        assert(a@.skip(i as int)[0] == x@[i as int]);
        assert(b@.skip(i as int)[0] == y@[i as int]);
        if x[i] != y[i] {
            return x[i] < y[i];
        }
        assert(a@.skip(i as int).drop_first() == a@.skip(i + 1));
        assert(b@.skip(i as int).drop_first() == b@.skip(i + 1));
        i += 1;
    }
    i == x.len()
}

/// How many bytes `c` takes in UTF-8.
pub fn char_width(c: char) -> (n: usize)
    ensures
        n == width(c),
        1 <= n <= 4,
{
    let n: u32 = c as u32;
    if n < 0x80 {
        1
    } else if n < 0x800 {
        2
    } else if n < 0x10000 {
        3
    } else {
        4
    }
}

/// Whether `s` takes at most `limit` bytes in UTF-8.
pub fn fits(s: &str, limit: usize) -> (b: bool)
    ensures
        b == (byte_len(s@) <= limit),
{
    let v = chars_of(s);
    let mut room: usize = limit;
    let mut i: usize = 0;
    assert(s@.skip(0) == s@);
    while i < v.len()
        invariant
            v@ == s@,
            i <= v.len(),
            byte_len(s@) - byte_len(s@.skip(i as int)) == limit - room,
        decreases v.len() - i,
    {
        let w: usize = char_width(v[i]);
        assert(s@.skip(i as int).drop_first() == s@.skip(i + 1));
        assert(s@.skip(i as int)[0] == s@[i as int]);
        if w > room {
            return false;
        }
        room -= w;
        i += 1;
    }
    assert(s@.skip(i as int).len() == 0);
    true
}

/// Whether `a` and `b` are the same text but for the case of ASCII letters.
pub fn same_ignoring_case(a: &str, b: &str) -> (same: bool)
    ensures
        same == (lowered(a@) == lowered(b@)),
{
    same_text(lowercase(a).as_str(), lowercase(b).as_str())
}

/// `s` as an owned text, if there is one.
pub fn owned(s: Option<&str>) -> (t: Option<String>)
    ensures
        text_in(t) == borrowed(s),
{
    match s {
        Some(s) => Some(s.to_owned()),
        None => None,
    }
}

}
