//! What holds of every path.
use vstd::prelude::*;

use crate::paths::{
    free_bytes, joined, lemma_pieces, own_dir, parts, parts_from, plain, same_place, Paths,
};
use crate::text::laws::{
    a_last_line_is_itself, a_text_without_separator_is_one_piece, decimals_are_digits,
    first_line_and_the_rest, none_in, the_first_word_ends_at_white_space, words_around_white_space,
};
use crate::text::{
    begins, decimal, decimal_reads_back, digit, lemma_next_char, lines_in, pieces, words_in, Class,
};

verus! {

broadcast use vstd::string::group_string_axioms;

/// A relative path lies below the one it is joined to, with one slash between them; an absolute one
/// stands for itself.
pub proof fn a_relative_path_lies_below(base: Seq<char>, rest: Seq<char>)
    ensures
        rest.len() > 0 && rest[0] == '/' ==> joined(base, rest) == rest,
        !(rest.len() > 0 && rest[0] == '/') && base.len() > 0 && base.last() != '/' ==> joined(
            base,
            rest,
        ) == base + seq!['/'] + rest,
        !(rest.len() > 0 && rest[0] == '/') && base.len() > 0 && base.last() == '/' ==> joined(
            base,
            rest,
        ) == base + rest,
        !(rest.len() > 0 && rest[0] == '/') && base.len() == 0 ==> joined(base, rest) == rest,
{
    if base.len() == 0 {
        assert(base + rest =~= rest);
    }
}

/// The launcher's own directories carry its name, and each thing it keeps has its own place.
pub proof fn the_launcher_has_its_own_directories(base: Seq<char>, paths: Paths)
    ensures
        own_dir(base) == joined(base, "vortex-launcher"@),
        paths.dirs() == seq![
            paths.data@,
            paths.config@,
            joined(paths.data@, "game"@),
            joined(paths.data@, "proton"@),
            joined(paths.data@, "prefix"@),
            joined(paths.data@, "compat-client"@),
            joined(paths.data@, "downloads"@),
            joined(paths.data@, "logs"@),
        ],
{
}

/// Being the same place is told by the parts alone, goes both ways, and carries over.
pub proof fn the_same_place_is_an_equivalence(a: Seq<char>, b: Seq<char>, c: Seq<char>)
    ensures
        same_place(a, a),
        same_place(a, b) == same_place(b, a),
        same_place(a, b) && same_place(b, c) ==> same_place(a, c),
        same_place(a, b) ==> parts(a) == parts(b),
{
}

proof fn lemma_one_more(x: Seq<Seq<char>>, name: Seq<char>, i: int)
    requires
        0 <= i <= x.len(),
        x.len() > 0,
        name.len() > 0,
        name != seq!['.'],
    ensures
        parts_from(x + seq![name], i) == parts_from(x, i).push(name),
    decreases x.len() - i,
{
    let y = x + seq![name];
    if i < x.len() {
        assert(y[i] == x[i]);
        lemma_one_more(x, name, i + 1);
        assert(parts_from(y, i) =~= parts_from(x, i).push(name));
    } else {
        assert(y[i] == name);
        assert(parts_from(y, i + 1) =~= seq![]);
        assert(parts_from(x, i) =~= seq![]);
        assert(parts_from(y, i) =~= seq![name]);
    }
}

/// A plain name below a directory is one more part of the path, so that different names below one
/// directory lead to different places; and no absolute path is the same place as a relative one.
pub proof fn different_names_lead_to_different_places(
    dir: Seq<char>,
    name: Seq<char>,
    other: Seq<char>,
)
    requires
        plain(name) && plain(other),
        dir.len() > 0 && dir.last() != '/',
    ensures
        parts(joined(dir, name)) == parts(dir).push(name),
        same_place(joined(dir, name), joined(dir, other)) ==> name == other,
        !same_place(joined(dir, name), dir),
        forall|a: Seq<char>, b: Seq<char>| #[trigger]
            same_place(a, b) ==> begins(a, seq!['/']) == begins(b, seq!['/']),
{
    assert(!name.contains('/')) by {
        if name.contains('/') {
            let i = choose|i: int| 0 <= i < name.len() && name[i] == '/';
            assert(name[i] != '/');
        }
    }
    assert(!other.contains('/')) by {
        if other.contains('/') {
            let i = choose|i: int| 0 <= i < other.len() && other[i] == '/';
            assert(other[i] != '/');
        }
    }
    assert(name[0] != '/' && other[0] != '/');
    lemma_pieces(dir, name, 0);
    lemma_pieces(dir, other, 0);
    a_text_without_separator_is_one_piece(name, '/');
    a_text_without_separator_is_one_piece(other, '/');
    let x = pieces(dir, '/', 0);
    lemma_next_char(dir, '/', 0);
    assert(x.len() > 0);
    lemma_one_more(x, name, 0);
    lemma_one_more(x, other, 0);
    assert(parts(dir).push(name).last() == name);
    assert(parts(dir).push(other).last() == other);
}

/// The free space is what the fourth column of the second line says, in blocks of 1024 bytes.
pub proof fn the_fourth_column_tells_the_free_space(
    header: Seq<char>,
    one: Seq<char>,
    two: Seq<char>,
    three: Seq<char>,
    blocks: u64,
    rest: Seq<char>,
)
    requires
        !header.contains('\n') && !rest.contains('\n'),
        header.len() > 0 && header.last() != '\r',
        rest.len() == 0 || rest[0] == ' ',
        one.len() > 0 && none_in(one, Class::Space),
        two.len() > 0 && none_in(two, Class::Space),
        three.len() > 0 && none_in(three, Class::Space),
    ensures
        free_bytes(
            header + seq!['\n'] + (one + seq![' '] + (two + seq![' '] + (three + seq![' '] + (decimal(
                blocks as nat,
            ) + rest)))),
        ) == Some(
            if blocks * 1024 <= 0xffff_ffff_ffff_ffff {
                (blocks * 1024) as u64
            } else {
                0xffff_ffff_ffff_ffff
            },
        ),
{
    let number = decimal(blocks as nat);
    decimals_are_digits(blocks as nat);
    decimal_reads_back(blocks as nat, u64::MAX as nat);
    let last = number + rest;
    let third = three + seq![' '] + last;
    let second = two + seq![' '] + third;
    let row = one + seq![' '] + second;
    let df = header + seq!['\n'] + row;
    assert(none_in(number, Class::Space)) by {
        assert forall|i: int| 0 <= i < number.len() implies !Class::Space.has(#[trigger] number[i]) by {
            assert(digit(number[i]));
        }
    }
    assert(!row.contains('\n')) by {
        if row.contains('\n') {
            let i = choose|i: int| 0 <= i < row.len() && row[i] == '\n';
            let a = one.len() as int;
            let b = a + 1 + two.len();
            let c = b + 1 + three.len();
            let d = c + 1 + number.len();
            if i < a {
                assert(one[i] == '\n');
            } else if i == a {
            } else if i < b {
                assert(two[i - a - 1] == '\n');
            } else if i == b {
            } else if i < c {
                assert(three[i - b - 1] == '\n');
            } else if i == c {
            } else if i < d {
                assert(number[i - c - 1] == '\n');
                assert(digit(number[i - c - 1]));
            } else {
                assert(rest[i - d] == '\n');
            }
        }
    }
    first_line_and_the_rest(header, row);
    assert(lines_in(df, 0)[1] == lines_in(row, 0)[0]);
    a_last_line_is_itself(row);
    words_around_white_space(one, second);
    words_around_white_space(two, third);
    words_around_white_space(three, last);
    the_first_word_ends_at_white_space(number, rest);
    let columns = words_in(row, 0);
    assert(columns[3] == number);
}

}
