//! What holds of every message between two launchers.
use vstd::prelude::*;

use crate::ipc::{line_read, sent, served, socket_in};
use crate::paths::joined;
use crate::text::laws::{all_in, bare, trimming_drops_what_stands_around, trimming_may_leave_nothing};
use crate::text::{lemma_next_char, next_char, Class};

verus! {

broadcast use vstd::string::group_string_axioms;

/// The socket lies in the runtime directory, else in the data directory, else where temporary files
/// go.
pub proof fn the_socket_lies_in_the_first_directory_there_is(
    runtime: Seq<char>,
    data: Option<Seq<char>>,
    dir: Seq<char>,
    temporary: Seq<char>,
)
    ensures
        socket_in(Some(runtime), data, temporary) == joined(runtime, "vortex-launcher.sock"@),
        socket_in(None, Some(dir), temporary) == joined(dir, "vortex-launcher.sock"@),
        socket_in(None, None, temporary) == joined(temporary, "vortex-launcher.sock"@),
{
}

/// The message of a line is all that stands in it but the white space around it, and white space
/// alone is no message.
pub proof fn a_line_carries_what_stands_in_it(
    front: Seq<char>,
    message: Seq<char>,
    back: Seq<char>,
)
    requires
        all_in(front, Class::Space),
        all_in(back, Class::Space),
    ensures
        bare(message, Class::Space) ==> served(front + message + back) == Some(message),
        served(front) is None,
{
    if bare(message, Class::Space) {
        trimming_drops_what_stands_around(front, message, back, Class::Space);
    }
    trimming_may_leave_nothing(front, Class::Space);
}

/// What is read is the first line, with its line feed, whatever is sent behind it.
pub proof fn the_first_line_is_read(line: Seq<char>, rest: Seq<char>)
    requires
        !line.contains('\n'),
    ensures
        line_read(line + seq!['\n'] + rest) == line + seq!['\n'],
        line_read(line) == line,
        sent(line) == line + seq!['\n'],
{
    reveal_strlit("\n");
    let all = line + seq!['\n'] + rest;
    lemma_next_char(all, '\n', 0);
    let end = next_char(all, '\n', 0);
    assert(all[line.len() as int] == '\n');
    if end < line.len() {
        assert(line[end] == '\n');
    }
    assert(all.take(end + 1) =~= line + seq!['\n']);
    lemma_next_char(line, '\n', 0);
    if next_char(line, '\n', 0) < line.len() {
        assert(line.contains(line[next_char(line, '\n', 0)]));
    }
    assert(sent(line) =~= line + seq!['\n']);
}

}
