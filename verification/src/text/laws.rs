//! What holds of every text.
use vstd::prelude::*;

use crate::text::{
    borrowed, decimal, decimal_reads_back, digit, end_without, in_order, lemma_end_without, lemma_next_char,
    lemma_next_in, lemma_next_not_in, lines_in, lowered, next_char, next_in, next_not_in, parsed,
    pieces, text_in, texts, trimmed, white_space, words_in, Class,
};

verus! {

/// Whether all characters of `s` are of `class`.
pub open spec fn all_in(s: Seq<char>, class: Class) -> bool {
    forall|i: int| 0 <= i < s.len() ==> class.has(#[trigger] s[i])
}

/// Whether none of the characters of `s` is of `class`.
pub open spec fn none_in(s: Seq<char>, class: Class) -> bool {
    forall|i: int| 0 <= i < s.len() ==> !class.has(#[trigger] s[i])
}

/// Whether `s` begins and ends with something that is not of `class`.
pub open spec fn bare(s: Seq<char>, class: Class) -> bool {
    s.len() > 0 && !class.has(s[0]) && !class.has(s.last())
}

/// What a text, an optional text and a list of texts hold.
pub proof fn a_text_holds_its_characters(
    text: Option<String>,
    lent: Option<&str>,
    list: Seq<String>,
)
    ensures
        match text {
            Some(text) => text_in(Some(text)) == Some(text@),
            None => text_in(None) is None,
        },
        match lent {
            Some(text) => borrowed(Some(text)) == Some(text@),
            None => borrowed(None) is None,
        },
        texts(list).len() == list.len(),
        forall|i: int| 0 <= i < list.len() ==> #[trigger] texts(list)[i] == list[i]@,
{
}

/// What is white space, and what the other kinds of characters are.
pub proof fn each_class_has_its_characters(c: char)
    ensures
        Class::Space.has(c) <==> (c == '\t' || c == '\n' || c == '\u{b}' || c == '\u{c}' || c == '\r'
            || c == ' ' || c == '\u{85}' || c == '\u{a0}' || c == '\u{1680}' || '\u{2000}' <= c
            <= '\u{200a}' || c == '\u{2028}' || c == '\u{2029}' || c == '\u{202f}' || c
            == '\u{205f}' || c == '\u{3000}'),
        white_space(c) == Class::Space.has(c),
        Class::Quote.has(c) <==> c == '"',
        Class::LineEnd.has(c) <==> c == '\r' || c == '\n',
        Class::NotVersion.has(c) <==> !('0' <= c <= '9') && c != '.',
        Class::LinkEnd.has(c) <==> Class::Space.has(c) || c == '"' || c == '\'' || c == '<',
        Class::ValueEnd.has(c) <==> Class::Space.has(c) || c == '"' || c == '&' || c == ';',
        digit(c) <==> '0' <= c <= '9',
{
}

/// What stands around a text is dropped by trimming, and nothing else.
pub proof fn trimming_drops_what_stands_around(
    front: Seq<char>,
    text: Seq<char>,
    back: Seq<char>,
    class: Class,
)
    requires
        all_in(front, class),
        all_in(back, class),
        bare(text, class),
    ensures
        trimmed(front + text + back, class) == text,
{
    let s = front + text + back;
    let n = s.len() as int;
    lemma_next_not_in(s, class, 0);
    let lo = next_not_in(s, class, 0);
    assert(s[front.len() as int] == text[0]);
    if lo < front.len() {
        assert(s[lo] == front[lo]);
    }
    assert(lo == front.len()) by {
        if lo > front.len() {
            assert(class.has(s[front.len() as int]));
        }
    }
    lemma_end_without(s, class, lo, n);
    let hi = end_without(s, class, lo, n);
    let end = (front.len() + text.len()) as int;
    assert(s[end - 1] == text.last());
    if hi > end {
        assert(s[hi - 1] == back[hi - 1 - end]);
    }
    if hi < end {
        assert(class.has(s[end - 1]));
    }
    assert(s.subrange(lo, hi) =~= text);
}

/// Of a text that is all of one kind, trimming leaves nothing.
pub proof fn trimming_may_leave_nothing(s: Seq<char>, class: Class)
    requires
        all_in(s, class),
    ensures
        trimmed(s, class).len() == 0,
{
    lemma_next_not_in(s, class, 0);
    lemma_end_without(s, class, next_not_in(s, class, 0), s.len() as int);
}

/// A text without a separator is one piece.
pub proof fn a_text_without_separator_is_one_piece(s: Seq<char>, c: char)
    requires
        !s.contains(c),
    ensures
        pieces(s, c, 0) == seq![s],
{
    lemma_next_char(s, c, 0);
    if next_char(s, c, 0) < s.len() {
        assert(s.contains(s[next_char(s, c, 0)]));
    }
    assert(s.subrange(0, s.len() as int) =~= s);
}

proof fn lemma_shifted_pieces(a: Seq<char>, b: Seq<char>, c: char, i: int)
    requires
        0 <= i <= b.len(),
    ensures
        pieces(a + b, c, a.len() + i) == pieces(b, c, i),
    decreases b.len() - i,
{
    let s = a + b;
    lemma_next_char(s, c, a.len() + i);
    lemma_next_char(b, c, i);
    let here = next_char(s, c, a.len() + i);
    let there = next_char(b, c, i);
    assert(here == a.len() + there) by {
        if there < b.len() {
            assert(s[a.len() + there] == c);
        }
        if here < s.len() {
            assert(b[here - a.len()] == c);
        }
        if here < a.len() + there {
            assert(b[here - a.len()] == s[here]);
        }
        if here > a.len() + there {
            assert(s[a.len() + there] == b[there]);
        }
    }
    assert(s.subrange(a.len() + i, here) =~= b.subrange(i, there));
    if there < b.len() {
        lemma_shifted_pieces(a, b, c, there + 1);
    }
}

/// A text is split at each separator: what stands before the first is a piece, and what stands behind
/// it is split in turn.
pub proof fn pieces_around_a_separator(a: Seq<char>, c: char, b: Seq<char>)
    requires
        !a.contains(c),
    ensures
        pieces(a + seq![c] + b, c, 0) == seq![a] + pieces(b, c, 0),
{
    let front = a + seq![c];
    let s = front + b;
    lemma_next_char(s, c, 0);
    let end = next_char(s, c, 0);
    assert(s[a.len() as int] == c);
    if end < a.len() {
        assert(a[end] == c);
    }
    assert(s.subrange(0, end) =~= a);
    lemma_shifted_pieces(front, b, c, 0);
}

proof fn lemma_shifted_next_in(a: Seq<char>, b: Seq<char>, class: Class, i: int)
    requires
        0 <= i <= b.len(),
    ensures
        next_in(a + b, class, a.len() + i) == a.len() + next_in(b, class, i),
        next_not_in(a + b, class, a.len() + i) == a.len() + next_not_in(b, class, i),
    decreases b.len() - i,
{
    if i < b.len() {
        lemma_shifted_next_in(a, b, class, i + 1);
        assert((a + b)[a.len() + i] == b[i]);
    }
}

proof fn lemma_shifted_words(a: Seq<char>, b: Seq<char>, i: int)
    requires
        0 <= i <= b.len(),
    ensures
        words_in(a + b, a.len() + i) == words_in(b, i),
    decreases b.len() - i,
{
    let s = a + b;
    lemma_shifted_next_in(a, b, Class::Space, i);
    lemma_next_not_in(b, Class::Space, i);
    let start = next_not_in(b, Class::Space, i);
    lemma_next_in(b, Class::Space, start);
    lemma_shifted_next_in(a, b, Class::Space, start);
    let end = next_in(b, Class::Space, start);
    if start < b.len() {
        assert(s.subrange(a.len() + start, a.len() + end) =~= b.subrange(start, end));
        lemma_shifted_words(a, b, end);
    }
}

/// The first word of a text ends at the first white space behind it.
pub proof fn the_first_word_ends_at_white_space(word: Seq<char>, rest: Seq<char>)
    requires
        word.len() > 0,
        none_in(word, Class::Space),
        rest.len() == 0 || Class::Space.has(rest[0]),
    ensures
        words_in(word + rest, 0).len() > 0,
        words_in(word + rest, 0)[0] == word,
        words_in(word + rest, 0) == seq![word] + words_in(rest, 0),
{
    let s = word + rest;
    lemma_next_not_in(s, Class::Space, 0);
    assert(s[0] == word[0]);
    assert(next_not_in(s, Class::Space, 0) == 0);
    lemma_next_in(s, Class::Space, 0);
    let end = next_in(s, Class::Space, 0);
    let n = word.len() as int;
    if end < n {
        assert(s[end] == word[end]);
    }
    if end > n {
        assert(s[n] == rest[0]);
    }
    assert(s.subrange(0, end) =~= word);
    lemma_shifted_words(word, rest, 0);
}

/// White space between two words separates them and is dropped.
pub proof fn words_around_white_space(word: Seq<char>, rest: Seq<char>)
    requires
        word.len() > 0,
        none_in(word, Class::Space),
    ensures
        words_in(word + seq![' '] + rest, 0) == seq![word] + words_in(rest, 0),
{
    let behind = seq![' '] + rest;
    assert(word + seq![' '] + rest =~= word + behind);
    the_first_word_ends_at_white_space(word, behind);
    let space = seq![' '];
    lemma_shifted_words(space, rest, 0);
    assert(Class::Space.has(behind[0]));
    lemma_next_not_in(rest, Class::Space, 0);
    lemma_shifted_next_in(space, rest, Class::Space, 0);
    assert(next_not_in(behind, Class::Space, 0) == next_not_in(behind, Class::Space, 1));
    assert(words_in(behind, 0) == words_in(behind, 1)) by {
        lemma_next_in(behind, Class::Space, next_not_in(behind, Class::Space, 0));
    }
}

proof fn lemma_shifted_lines(a: Seq<char>, b: Seq<char>, i: int)
    requires
        0 <= i <= b.len(),
    ensures
        lines_in(a + b, a.len() + i) == lines_in(b, i),
    decreases b.len() - i,
{
    let s = a + b;
    lemma_next_char(s, '\n', a.len() + i);
    lemma_next_char(b, '\n', i);
    let here = next_char(s, '\n', a.len() + i);
    let there = next_char(b, '\n', i);
    assert(here == a.len() + there) by {
        if here < a.len() + there {
            assert(b[here - a.len()] == s[here]);
        }
        if here > a.len() + there {
            assert(s[a.len() + there] == b[there]);
        }
    }
    if i < b.len() {
        assert(s.subrange(a.len() + i, here) =~= b.subrange(i, there));
        if there > i {
            assert(s[here - 1] == b[there - 1]);
            assert(s.subrange(a.len() + i, here - 1) =~= b.subrange(i, there - 1));
        }
        if there < b.len() {
            lemma_shifted_lines(a, b, there + 1);
        }
    }
}

/// The first line of a text ends at its first line feed, and the rest is read in turn; a carriage
/// return before the line feed belongs to the end of the line.
pub proof fn first_line_and_the_rest(line: Seq<char>, rest: Seq<char>)
    requires
        !line.contains('\n'),
    ensures
        line.len() == 0 || line.last() != '\r' ==> lines_in(line + seq!['\n'] + rest, 0) == seq![
            line,
        ] + lines_in(rest, 0),
        line.len() > 0 && line.last() == '\r' ==> lines_in(line + seq!['\n'] + rest, 0) == seq![
            line.drop_last(),
        ] + lines_in(rest, 0),
{
    let front = line + seq!['\n'];
    let s = front + rest;
    lemma_next_char(s, '\n', 0);
    let end = next_char(s, '\n', 0);
    let n = line.len() as int;
    assert(s[n] == '\n');
    if end < n {
        assert(line[end] == '\n');
    }
    assert(s.subrange(0, n) =~= line);
    if n > 0 {
        assert(s[n - 1] == line.last());
        assert(s.subrange(0, n - 1) =~= line.drop_last());
    }
    lemma_shifted_lines(front, rest, 0);
}

/// A last line without a line feed is read as it is.
pub proof fn a_last_line_is_itself(line: Seq<char>)
    requires
        !line.contains('\n'),
    ensures
        line.len() > 0 ==> lines_in(line, 0) == seq![line],
        line.len() == 0 ==> lines_in(line, 0).len() == 0,
{
    lemma_next_char(line, '\n', 0);
    if next_char(line, '\n', 0) < line.len() {
        assert(line.contains(line[next_char(line, '\n', 0)]));
    }
    assert(line.subrange(0, line.len() as int) =~= line);
}

/// Texts are ordered by the first character in which they differ, and one that another begins with
/// comes before it.
pub proof fn the_first_difference_decides(
    front: Seq<char>,
    a: char,
    b: char,
    rest: Seq<char>,
    other: Seq<char>,
)
    ensures
        a < b ==> in_order(front + seq![a] + rest, front + seq![b] + other) && !in_order(
            front + seq![b] + other,
            front + seq![a] + rest,
        ),
        in_order(front, front + rest),
        rest.len() > 0 ==> !in_order(front + rest, front),
    decreases front.len(),
{
    let left = front + seq![a] + rest;
    let right = front + seq![b] + other;
    let longer = front + rest;
    if front.len() > 0 {
        let less = front.drop_first();
        the_first_difference_decides(less, a, b, rest, other);
        assert(left.drop_first() =~= less + seq![a] + rest);
        assert(right.drop_first() =~= less + seq![b] + other);
        assert(longer.drop_first() =~= less + rest);
    } else {
        assert(left[0] == a && right[0] == b);
        assert(longer =~= rest);
    }
}

/// A number is read where digits alone write it, with a plus before them or not, and where it is not
/// too large; nothing else is a number.
pub proof fn only_digits_write_a_number(s: Seq<char>, n: nat, max: nat)
    ensures
        n <= max ==> parsed(decimal(n), max) == Some(n) && parsed(seq!['+'] + decimal(n), max)
            == Some(n),
        n > max ==> parsed(decimal(n), max) is None,
        (exists|i: int| 0 < i < s.len() && !digit(#[trigger] s[i])) ==> parsed(s, max) is None,
        s.len() > 0 && s[0] != '+' && !digit(s[0]) ==> parsed(s, max) is None,
        s.len() == 0 || s == seq!['+'] ==> parsed(s, max) is None,
{
    decimals_are_digits(n);
    decimal_reads_back(n, n);
    decimal_reads_back(n, n + max);
    let number = decimal(n);
    assert(digit(number[0]));
    let signed = seq!['+'] + number;
    assert(signed.subrange(1, signed.len() as int) =~= number);
    if n <= max {
        decimal_reads_back(n, max);
    }
    let digits = if s.len() > 0 && s[0] == '+' {
        s.subrange(1, s.len() as int)
    } else {
        s
    };
    if exists|i: int| 0 < i < s.len() && !digit(#[trigger] s[i]) {
        let i = choose|i: int| 0 < i < s.len() && !digit(#[trigger] s[i]);
        if s[0] == '+' {
            assert(digits[i - 1] == s[i]);
        } else {
            assert(digits[i] == s[i]);
        }
    }
    if s == seq!['+'] {
        assert(digits.len() == 0);
    }
}

/// A further digit makes ten times as much and adds itself.
pub proof fn each_digit_counts_for_its_place(n: nat, d: nat)
    requires
        d < 10,
        n > 0,
    ensures
        decimal(10 * n + d) == decimal(n) + decimal(d),
        decimal(0) == seq!['0'],
        decimal(9) == seq!['9'],
{
    assert((10 * n + d) / 10 == n && (10 * n + d) % 10 == d);
    assert(decimal(10 * n + d) =~= decimal(n) + decimal(d));
}

/// Small letters stay as they are, and each capital becomes its small letter; the length stays.
pub proof fn capitals_become_small(s: Seq<char>, i: int)
    requires
        0 <= i < s.len(),
    ensures
        lowered(s).len() == s.len(),
        s[i] < 'A' || 'Z' < s[i] ==> lowered(s)[i] == s[i],
        s[i] == 'A' ==> lowered(s)[i] == 'a',
        s[i] == 'G' ==> lowered(s)[i] == 'g',
        s[i] == 'Z' ==> lowered(s)[i] == 'z',
        'A' <= s[i] <= 'Z' ==> lowered(s)[i] as int - 'a' as int == s[i] as int - 'A' as int,
        lowered(lowered(s)) == lowered(s),
{
    assert(lowered(lowered(s)) =~= lowered(s));
}

/// Digits only, so no other character stands in a decimal number, and different numbers differ.
pub proof fn decimals_are_digits(n: nat)
    ensures
        decimal(n).len() > 0,
        forall|i: int| 0 <= i < decimal(n).len() ==> digit(#[trigger] decimal(n)[i]),
        forall|m: nat| #[trigger] decimal(m) == decimal(n) ==> m == n,
    decreases n,
{
    decimal_reads_back(n, n);
    assert forall|m: nat| #[trigger] decimal(m) == decimal(n) implies m == n by {
        let max = m + n;
        decimal_reads_back(m, max);
        decimal_reads_back(n, max);
    }
    if n >= 10 {
        decimals_are_digits(n / 10);
        assert forall|i: int| 0 <= i < decimal(n).len() implies digit(#[trigger] decimal(n)[i]) by {
            if i < decimal(n / 10).len() {
                assert(decimal(n)[i] == decimal(n / 10)[i]);
            }
        }
    }
}

}
