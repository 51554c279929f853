//! One socket, so that a vortex:// link opens in the window that is already there.
use vstd::prelude::*;

pub mod laws;

use crate::auth::launchable;
use crate::paths::{data_dir, join, joined};
use crate::text::{
    borrowed, end_without, lemma_end_without, lemma_next_char, lemma_next_not_in, next_char,
    next_not_in, same_text, text_in, trim, trimmed, white_space, Class,
};

verus! {

broadcast use vstd::string::group_string_axioms;

/// Where the socket is: below the runtime directory, or else the data directory, or else where
/// temporary files go.
pub open spec fn socket_in(
    runtime: Option<Seq<char>>,
    data: Option<Seq<char>>,
    temporary: Seq<char>,
) -> Seq<char> {
    joined(
        match (runtime, data) {
            (Some(dir), _) => dir,
            (None, Some(dir)) => dir,
            (None, None) => temporary,
        },
        "vortex-launcher.sock"@,
    )
}

/// Where the socket is, with this runtime directory, data directory and directory for temporary
/// files.
pub fn socket_below(runtime: Option<&str>, data: Option<String>, temporary: &str) -> (path: String)
    ensures
        path@ == socket_in(borrowed(runtime), text_in(data), temporary@),
{
    match runtime {
        Some(dir) => join(dir, "vortex-launcher.sock"),
        None => match data {
            Some(dir) => join(dir.as_str(), "vortex-launcher.sock"),
            None => join(temporary, "vortex-launcher.sock"),
        },
    }
}

/// Where the socket is, with this runtime directory and directory for temporary files. Which data
/// directory there is decides only where there is no runtime directory.
pub fn socket_path(runtime: Option<&str>, temporary: &str) -> (path: String)
    ensures
        runtime is Some ==> path@ == socket_in(borrowed(runtime), None, temporary@),
        exists|data: Option<Seq<char>>| path@ == #[trigger] socket_in(
            borrowed(runtime),
            data,
            temporary@,
        ),
{
    let data = if runtime.is_some() {
        None
    } else {
        data_dir()
    };
    let ghost found = text_in(data);
    let path = socket_below(runtime, data, temporary);
    assert(path@ == socket_in(borrowed(runtime), found, temporary@));
    path
}

/// What to do about the socket.
#[derive(Clone, Copy, Debug, PartialEq, Eq, Structural)]
pub enum Listening {
    /// it is ours
    Ours,
    /// nobody answers at it: it is left over from a crash, so it can be removed and taken
    Stale,
    /// another launcher listens
    Taken,
}

/// Whose the socket is, going by whether it could be bound, and whether anybody answers at it.
pub fn listen(bound: bool, answered: bool) -> (listening: Listening)
    ensures
        listening == (if bound {
            Listening::Ours
        } else if !answered {
            Listening::Stale
        } else {
            Listening::Taken
        }),
{
    if bound {
        Listening::Ours
    } else if !answered {
        Listening::Stale
    } else {
        Listening::Taken
    }
}

/// The message in a line that came in, if there is one.
pub open spec fn served(line: Seq<char>) -> Option<Seq<char>> {
    if trimmed(line, Class::Space).len() > 0 {
        Some(trimmed(line, Class::Space))
    } else {
        None
    }
}

/// The message in a line that came in, if there is one.
pub fn serve(line: &str) -> (message: Option<String>)
    ensures
        text_in(message) == served(line@),
{
    let message = trim(line, Class::Space);
    proof {
        reveal_strlit("");
        assert(message@.len() == 0 ==> message@ =~= ""@);
    }
    if same_text(message.as_str(), "") {
        None
    } else {
        Some(message)
    }
}

/// The line that carries a message.
pub open spec fn sent(message: Seq<char>) -> Seq<char> {
    message + "\n"@
}

/// The line that carries a message.
pub fn send(message: &str) -> (line: String)
    ensures
        line@ == sent(message@),
{
    message.to_owned().concat("\n")
}

/// What is read of all that was sent: one line, with the line feed that ends it.
pub open spec fn line_read(all: Seq<char>) -> Seq<char> {
    let end = next_char(all, '\n', 0);
    if end < all.len() {
        all.take(end + 1)
    } else {
        all
    }
}

/// A message without white space around it, that is not empty and takes one line, arrives as it
/// was sent.
pub proof fn a_message_arrives_as_it_was_sent(message: Seq<char>)
    requires
        message.len() > 0,
        trimmed(message, Class::Space) == message,
        !message.contains('\n'),
    ensures
        line_read(sent(message)) == sent(message),
        served(sent(message)) == Some(message),
{
    reveal_strlit("\n");
    let line = sent(message);
    let n = message.len() as int;
    assert(line =~= message.push('\n'));
    lemma_next_char(line, '\n', 0);
    if next_char(line, '\n', 0) < n {
        assert(message[next_char(line, '\n', 0)] == '\n');
    }
    assert(line.take(n + 1) =~= line);
    // the first character and the last one are no white space, or the message would be shorter
    lemma_next_not_in(message, Class::Space, 0);
    let lo = next_not_in(message, Class::Space, 0);
    lemma_end_without(message, Class::Space, lo, n);
    assert(lo == 0 && end_without(message, Class::Space, lo, n) == n);
    assert(!white_space(message[0]) && !white_space(message[n - 1]));
    assert(line[0] == message[0] && line[n - 1] == message[n - 1]);
    assert(next_not_in(line, Class::Space, 0) == 0);
    assert(Class::Space.has(line[n]));
    assert(end_without(line, Class::Space, 0, n + 1) == end_without(line, Class::Space, 0, n));
    assert(line.subrange(0, n) =~= message);
}

/// Every link that may be handed to a program arrives as it was sent: a second start hands it over
/// to the first.
pub proof fn a_launch_link_is_handed_over(uri: Seq<char>, scheme: Seq<char>)
    requires
        scheme.len() > 0,
        launchable(uri, scheme),
    ensures
        served(line_read(sent(uri))) == Some(uri),
{
    let n = uri.len() as int;
    if uri.contains('\n') {
        let i = choose|i: int| 0 <= i < n && uri[i] == '\n';
        assert(!white_space(uri[i]));
    }
    assert(!white_space(uri[0]) && !white_space(uri[n - 1]));
    assert(next_not_in(uri, Class::Space, 0) == 0);
    assert(end_without(uri, Class::Space, 0, n) == n);
    assert(trimmed(uri, Class::Space) =~= uri);
    a_message_arrives_as_it_was_sent(uri);
}

/// A start without a link hands over nothing, nor does asking whether anybody listens.
pub proof fn an_empty_message_asks_for_nothing()
    ensures
        served(line_read(sent(seq![]))) is None,
{
    reveal_strlit("\n");
    let line = sent(seq![]);
    assert(line =~= seq!['\n']);
    assert(next_char(line, '\n', 0) == 0);
    assert(line.take(1) =~= line);
    lemma_next_not_in(line, Class::Space, 0);
    lemma_end_without(line, Class::Space, next_not_in(line, Class::Space, 0), 1);
    assert(Class::Space.has(line[0]));
}

}
