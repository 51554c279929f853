//! What holds of everything that was seen of the file system.
use vstd::prelude::*;

use crate::disk::{dir_at, file_at, first_file, on_path, Disk};
use crate::paths::joined;
use crate::text::laws::{
    a_text_without_separator_is_one_piece, pieces_around_a_separator,
};
use crate::text::texts;

verus! {

proof fn lemma_file_at(disk: Disk, path: Seq<char>, i: int)
    requires
        0 <= i,
    ensures
        match file_at(disk.files@, path, i) {
            Some(file) => file.path@ == path && exists|j: int|
                i <= j < disk.files@.len() && #[trigger] disk.files@[j] == file && forall|k: int|
                    i <= k < j ==> (#[trigger] disk.files@[k]).path@ != path,
            None => forall|j: int|
                i <= j < disk.files@.len() ==> (#[trigger] disk.files@[j]).path@ != path,
        },
    decreases disk.files@.len() - i,
{
    if i < disk.files@.len() && disk.files@[i].path@ != path {
        lemma_file_at(disk, path, i + 1);
    }
}

proof fn lemma_dir_at(disk: Disk, path: Seq<char>, i: int)
    requires
        0 <= i,
    ensures
        match dir_at(disk.dirs@, path, i) {
            Some(dir) => dir.path@ == path && exists|j: int|
                i <= j < disk.dirs@.len() && #[trigger] disk.dirs@[j] == dir && forall|k: int|
                    i <= k < j ==> (#[trigger] disk.dirs@[k]).path@ != path,
            None => forall|j: int|
                i <= j < disk.dirs@.len() ==> (#[trigger] disk.dirs@[j]).path@ != path,
        },
    decreases disk.dirs@.len() - i,
{
    if i < disk.dirs@.len() && disk.dirs@[i].path@ != path {
        lemma_dir_at(disk, path, i + 1);
    }
}

/// A path leads to a file exactly if a file was seen there, and what is read of it is what was seen
/// first.
pub proof fn a_file_is_there_if_it_was_seen(disk: Disk, path: Seq<char>)
    ensures
        disk.file(path) <==> exists|i: int|
            0 <= i < disk.files@.len() && (#[trigger] disk.files@[i]).path@ == path,
        forall|i: int|
            0 <= i < disk.files@.len() && (#[trigger] disk.files@[i]).path@ == path && (forall|j: int|
                0 <= j < i ==> (#[trigger] disk.files@[j]).path@ != path) ==> match disk.files@[i].bytes {
                Some(bytes) => disk.content(path) == Some(bytes@),
                None => disk.content(path) is None,
            },
        !disk.file(path) ==> disk.content(path) is None,
{
    lemma_file_at(disk, path, 0);
}

/// A path leads to a directory exactly if a directory was seen there, and what lies in it is what was
/// seen first. Nothing lies in what is no directory.
pub proof fn a_directory_is_there_if_it_was_seen(disk: Disk, path: Seq<char>)
    ensures
        disk.directory(path) <==> exists|i: int|
            0 <= i < disk.dirs@.len() && (#[trigger] disk.dirs@[i]).path@ == path,
        forall|i: int|
            0 <= i < disk.dirs@.len() && (#[trigger] disk.dirs@[i]).path@ == path && (forall|j: int|
                0 <= j < i ==> (#[trigger] disk.dirs@[j]).path@ != path) ==> disk.listing(path)
                == texts(disk.dirs@[i].entries@),
        !disk.directory(path) ==> disk.listing(path).len() == 0,
{
    lemma_dir_at(disk, path, 0);
}

proof fn lemma_first_file(disk: Disk, paths: Seq<Seq<char>>, i: int)
    requires
        0 <= i,
    ensures
        match first_file(disk, paths, i) {
            Some(path) => disk.file(path) && exists|j: int|
                i <= j < paths.len() && #[trigger] paths[j] == path && forall|k: int|
                    i <= k < j ==> !disk.file(#[trigger] paths[k]),
            None => forall|j: int| i <= j < paths.len() ==> !disk.file(#[trigger] paths[j]),
        },
    decreases paths.len() - i,
{
    if i < paths.len() && !disk.file(paths[i]) {
        lemma_first_file(disk, paths, i + 1);
    }
}

/// Of several paths the first that leads to a file is taken, and none only where none does.
pub proof fn the_first_file_is_taken(disk: Disk, paths: Seq<Seq<char>>)
    ensures
        forall|i: int|
            0 <= i < paths.len() && disk.file(#[trigger] paths[i]) && (forall|j: int|
                0 <= j < i ==> !disk.file(#[trigger] paths[j])) ==> first_file(disk, paths, 0)
                == Some(paths[i]),
        (forall|i: int| 0 <= i < paths.len() ==> !disk.file(#[trigger] paths[i])) ==> first_file(
            disk,
            paths,
            0,
        ) is None,
{
    lemma_first_file(disk, paths, 0);
}

/// A program is looked for in each directory of the search path, in order.
pub proof fn the_search_path_is_taken_in_order(
    dir: Seq<char>,
    rest: Seq<char>,
    program: Seq<char>,
)
    requires
        !dir.contains(':'),
    ensures
        on_path(dir, program) == seq![joined(dir, program)],
        on_path(dir + seq![':'] + rest, program) == seq![joined(dir, program)] + on_path(
            rest,
            program,
        ),
{
    a_text_without_separator_is_one_piece(dir, ':');
    pieces_around_a_separator(dir, ':', rest);
}

}
