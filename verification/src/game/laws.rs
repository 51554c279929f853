//! What holds of every installation of the game and of the studio.
use vstd::prelude::*;

use crate::error::failure;
use crate::game::{
    dirs_in, follows, goes_below, part_of, program_in, progress_text, the_game,
    Action, Build, Entry, Event, Install, Item, Stage,
};
use crate::net::laws::a_probe_tells_what_the_answer_carries;
use crate::net::{human_size, probed, Reply};
use crate::paths::{joined, name_in, parent_in, Paths};
use crate::spelling::legible;
use crate::state::laws::same;
use crate::state::{Part, SharedView};
use crate::studio::the_studio;
use crate::text::{decimal, lowered, text_in, texts};

verus! {

broadcast use vstd::string::group_string_axioms;

/// A program that can be installed is what its fields say.
pub proof fn a_program_is_what_its_fields_say(build: Build)
    ensures
        build@.url == build.url@,
        same(build.token, build@.token),
        build@.archive == build.archive@,
        build@.exe == build.exe@,
        build@.label == build.label@,
        build@.dir == build.dir@,
{
}

/// The game is there for everybody, and the studio only for a session; each has its own archive, its
/// own program and its own directory.
pub proof fn the_game_and_the_studio_are_kept_apart(paths: Paths, token: Seq<char>)
    ensures
        ({
            let game = the_game(paths);
            let studio = the_studio(paths, token);
            &&& game.url == "https://playvortex.io/download/windows"@ && game.token is None
            &&& studio.url == "https://playvortex.io/download/studio-windows"@ && studio.token
                == Some(token)
            &&& game.archive == "Vortex-Windows.zip"@ && studio.archive
                == "VortexStudio-Windows.zip"@
            &&& game.exe == "Vortex.exe"@ && studio.exe == "VortexStudio.exe"@
            &&& game.dir == joined(paths.data@, "game"@) && studio.dir == joined(
                paths.data@,
                "studio"@,
            )
            &&& game.label == "vortex"@ && studio.label == "studio"@
        }),
{
}

/// What is said of a download is how much of it is there, and of how much where that is known; what is
/// known to be empty or unknown has no progress.
pub proof fn a_download_shows_how_far_it_is(done: u64, total: u64)
    ensures
        total > 0 ==> (part_of(done, total) matches Some(part) && part.done == done && part.whole
            == total),
        total == 0 ==> part_of(done, total) is None && progress_text(done, total) == human_size(
            done,
        ),
        total > 0 ==> progress_text(done, total) == human_size(done) + " of "@ + human_size(total),
{
}

/// Once the server said which build it has, the free space is looked up where the launcher keeps its
/// data, and what the server said is kept.
pub proof fn what_the_server_has_is_kept(
    before: Install,
    shared: SharedView,
    reply: Reply,
    after: Stage,
    later: SharedView,
    action: Action,
)
    requires
        before.stage is Probing,
        follows(before, shared, Event::Replied(Ok(reply)), after, later, action),
        200 <= reply.status <= 299,
    ensures
        after matches Stage::Measuring(remote) && remote@.etag == text_in(reply.headers.etag)
            && remote@.last_modified == text_in(reply.headers.last_modified) && remote@.size
            == probed(before.build@.url, Ok(reply))->Ok_0.size,
        action matches Action::Measure { dir } && dir@ == before.paths.data@,
{
    a_probe_tells_what_the_answer_carries(before.build@.url, reply, seq![], 0);
}

/// A download starts unless it is known that three times the size of the archive is not free; it
/// fetches the archive of the program, for its session where it has one.
pub proof fn a_download_needs_three_times_its_size(
    before: Install,
    shared: SharedView,
    free: Option<u64>,
    after: Stage,
    later: SharedView,
    action: Action,
)
    requires
        before.stage is Measuring,
        follows(before, shared, Event::Free(free), after, later, action),
    ensures
        ({
            let remote = before.stage->Measuring_0;
            let needed: int = if 3 * remote.size <= 0xffff_ffff_ffff_ffff {
                3 * remote.size
            } else {
                0xffff_ffff_ffff_ffff
            };
            let short = remote.size > 0 && free is Some && free->0 < needed;
            &&& action is Download <==> !short
            &&& action matches Action::Download { url, token, file } ==> url@
                == before.build.url@ && text_in(token) == text_in(before.build.token) && file@
                == joined(joined(before.paths.data@, "downloads"@), before.build.archive@) && (
            after matches Stage::Downloading(next) && next@ == remote@)
            &&& short ==> after is Over && (action matches Action::Fail(error) && error@ == failure(
                "not enough disk space: "@ + human_size(free->0) + " free, about "@ + human_size(
                    needed as u64,
                ) + " needed"@,
            ))
        }),
{
}

/// While the archive comes, how much of it is there is shown, and the download goes on.
pub proof fn the_download_is_shown(
    before: Install,
    shared: SharedView,
    done: u64,
    total: u64,
    after: Stage,
    later: SharedView,
    action: Action,
)
    requires
        before.stage is Downloading,
        follows(before, shared, Event::Received(done, total), after, later, action),
    ensures
        action is Wait,
        after matches Stage::Downloading(next) && next@ == before.stage->Downloading_0@,
        total > 0 ==> later.status.progress == Some(Part { done, whole: total })
            && later.status.detail == human_size(done) + " of "@ + human_size(total),
        total == 0 ==> later.status.progress is None && later.status.detail == human_size(done),
{
}

/// The archive that was downloaded is the one that is unpacked, into the directory of the program,
/// and what was unpacked there is searched for it.
pub proof fn what_was_downloaded_is_unpacked_and_searched(
    before: Install,
    shared: SharedView,
    event: Event,
    after: Stage,
    later: SharedView,
    action: Action,
)
    requires
        follows(before, shared, event, after, later, action),
    ensures
        before.stage is Downloading && event == Event::Downloaded(Ok(())) ==> (
        action matches Action::Extract { archive, dir } && archive@ == joined(
            joined(before.paths.data@, "downloads"@),
            before.build.archive@,
        ) && dir@ == before.build.dir@) && (after matches Stage::Extracting(next) && next@
            == before.stage->Downloading_0@),
        before.stage is Extracting && event == Event::Extracted(Ok(())) ==> (
        action matches Action::List { dir } && dir@ == before.build.dir@) && (
        after matches Stage::Searching(next, stack) && next@ == before.stage->Extracting_0@ && texts(
            stack@,
        ) == seq![before.build.dir@]),
{
    assert(seq![before.build@.dir].last() == before.build@.dir);
}

/// Whether an item is the program: a file with its name, whatever the case of its letters.
pub open spec fn is_it(item: Item, exe: Seq<char>) -> bool {
    !item.is_dir && name_in(item.path@) is Some && lowered(name_in(item.path@)->0) == lowered(exe)
}

proof fn lemma_program(items: Seq<Item>, exe: Seq<char>, i: int)
    requires
        0 <= i,
    ensures
        match program_in(items, exe, i) {
            Some(path) => exists|j: int|
                i <= j < items.len() && is_it(#[trigger] items[j], exe) && items[j].path@ == path
                    && forall|k: int| i <= k < j ==> !is_it(#[trigger] items[k], exe),
            None => forall|j: int| i <= j < items.len() ==> !is_it(#[trigger] items[j], exe),
        },
    decreases items.len() - i,
{
    if i < items.len() {
        if is_it(items[i], exe) {
            assert(items[i].path@ == program_in(items, exe, i)->0);
        } else {
            lemma_program(items, exe, i + 1);
        }
    }
}

/// Whether `path` is a directory among the items from the `i`th on.
pub open spec fn is_listed_dir(items: Seq<Item>, i: int, path: Seq<char>) -> bool {
    exists|j: int| i <= j < items.len() && (#[trigger] items[j]).is_dir && items[j].path@ == path
}

proof fn lemma_dirs(items: Seq<Item>, i: int, path: Seq<char>)
    requires
        0 <= i,
    ensures
        dirs_in(items, i).contains(path) <==> is_listed_dir(items, i, path),
    decreases items.len() - i,
{
    if i < items.len() {
        lemma_dirs(items, i + 1, path);
        let rest = dirs_in(items, i + 1);
        let all = dirs_in(items, i);
        if items[i].is_dir {
            assert(all =~= seq![items[i].path@] + rest);
            if is_listed_dir(items, i, path) {
                if items[i].path@ == path {
                    assert(all[0] == path);
                } else {
                    let k = choose|k: int| 0 <= k < rest.len() && rest[k] == path;
                    assert(all[k + 1] == path);
                }
            }
            if all.contains(path) {
                let k = choose|k: int| 0 <= k < all.len() && all[k] == path;
                if k > 0 {
                    assert(rest[k - 1] == path);
                } else {
                    assert(items[i].path@ == path);
                }
            }
        }
    }
}

/// The first file of a directory with the name of the program is the program; it is installed with
/// what the server said of its archive, which is no longer needed then.
pub proof fn the_first_file_of_that_name_is_installed(
    before: Install,
    shared: SharedView,
    items: Vec<Item>,
    after: Stage,
    later: SharedView,
    action: Action,
    i: int,
)
    requires
        before.stage is Searching,
        follows(before, shared, Event::Listed(Ok(items)), after, later, action),
        0 <= i < items@.len(),
        is_it(items@[i], before.build.exe@),
        forall|j: int| 0 <= j < i ==> !is_it(#[trigger] items@[j], before.build.exe@),
    ensures
        ({
            let remote = before.stage->Searching_0;
            &&& after is Over
            &&& action matches Action::Done { install, discard } && install.exe@ == items@[i].path@
                && text_in(install.etag) == text_in(remote.etag) && text_in(install.last_modified)
                == text_in(remote.last_modified) && install.size == remote.size && discard@
                == joined(joined(before.paths.data@, "downloads"@), before.build.archive@)
            &&& later.lines == shared.lines.push("installed "@ + legible(items@[i].path@))
        }),
{
    lemma_program(items@, before.build@.exe, 0);
}

/// A directory without the program is done with: its directories are searched too, and those that
/// were still to be searched stay so. Where none is left, the program is not there.
pub proof fn every_directory_is_searched(
    before: Install,
    shared: SharedView,
    items: Vec<Item>,
    after: Stage,
    later: SharedView,
    action: Action,
)
    requires
        before.stage matches Stage::Searching(_, stack) && stack@.len() > 0,
        follows(before, shared, Event::Listed(Ok(items)), after, later, action),
        forall|j: int|
            0 <= j < items@.len() ==> !is_it(#[trigger] items@[j], before.build.exe@),
    ensures
        match after {
            Stage::Searching(remote, stack) => {
                let was = texts(before.stage->Searching_1@);
                let left = texts(stack@);
                &&& remote@ == before.stage->Searching_0@
                &&& was.len() - 1 <= left.len() && left.take(was.len() - 1) == was.drop_last()
                &&& forall|path: Seq<char>| #[trigger]
                    left.skip(was.len() - 1).contains(path) <==> is_listed_dir(items@, 0, path)
                &&& left.len() > 0 && (action matches Action::List { dir } && dir@ == left.last())
            },
            Stage::Over => {
                &&& before.stage->Searching_1@.len() == 1
                &&& forall|j: int| 0 <= j < items@.len() ==> !(#[trigger] items@[j]).is_dir
                &&& action matches Action::Fail(error) && error@ == failure(
                    before.build.exe@
                        + " was not in the archive, the download may have changed format"@,
                )
            },
            _ => false,
        },
{
    lemma_program(items@, before.build@.exe, 0);
    let was = texts(before.stage->Searching_1@);
    let found = dirs_in(items@, 0);
    let left = was.drop_last() + found;
    assert(left.take(was.len() - 1) =~= was.drop_last());
    assert(left.skip(was.len() - 1) =~= found);
    assert forall|path: Seq<char>| #[trigger]
        left.skip(was.len() - 1).contains(path) <==> is_listed_dir(items@, 0, path) by {
        lemma_dirs(items@, 0, path);
    }
    if left.len() == 0 {
        assert forall|j: int| 0 <= j < items@.len() implies !(#[trigger] items@[j]).is_dir by {
            lemma_dirs(items@, 0, items@[j].path@);
            assert(!found.contains(items@[j].path@));
        }
    }
}

/// What goes wrong on the way ends the installation with just that.
pub proof fn what_goes_wrong_is_told(
    before: Install,
    shared: SharedView,
    event: Event,
    after: Stage,
    later: SharedView,
    action: Action,
)
    requires
        follows(before, shared, event, after, later, action),
    ensures
        before.stage is Downloading ==> (event matches Event::Downloaded(Err(reason)) ==> after
            is Over && (action matches Action::Fail(error) && error@ == reason@)),
        before.stage is Extracting ==> (event matches Event::Extracted(Err(reason)) ==> after
            is Over && (action matches Action::Fail(error) && error@ == reason@)),
        before.stage is Searching ==> (event matches Event::Listed(Err(reason)) ==> after is Over
            && (action matches Action::Fail(error) && error@ == reason@)),
        before.stage is Probing ==> (event matches Event::Replied(Ok(reply)) ==> (reply.status < 200
            || 299 < reply.status ==> after is Over && (action matches Action::Fail(error) && error@
            == failure(
            before.build.url@ + " answered HTTP "@ + decimal(reply.status as nat),
        )))),
{
    if let Event::Replied(Ok(reply)) = event {
        a_probe_tells_what_the_answer_carries(before.build@.url, reply, seq![], 0);
    }
}

/// The first and the last entry, and every sixteenth in between, are shown as they are unpacked.
pub proof fn unpacking_is_shown_now_and_then(
    before: Install,
    shared: SharedView,
    n: u64,
    count: u64,
    after: Stage,
    later: SharedView,
    action: Action,
)
    requires
        before.stage is Extracting,
        follows(before, shared, Event::Unpacked(n, count), after, later, action),
    ensures
        action is Wait && after is Extracting,
        n == 1 || n == count || n % 16 == 1 ==> later.status.progress == Some(
            Part { done: n, whole: count },
        ) && later.status.detail == "extracting "@ + decimal(n as nat) + " of "@ + decimal(
            count as nat,
        ) + " files"@,
        n != count && n % 16 != 1 ==> later == shared,
{
}

/// An entry of an archive goes below the destination under its own name, a directory as a directory
/// and a file as a file; one without a name that stays inside goes nowhere.
pub proof fn an_entry_goes_below_the_destination(
    dest: Seq<char>,
    relative: Seq<char>,
    is_dir: bool,
    entry: Entry,
)
    ensures
        goes_below(dest, None, is_dir, entry) <==> entry is Skip,
        goes_below(dest, Some(relative), is_dir, entry) ==> (entry is Directory <==> is_dir) && (
        entry is File <==> !is_dir),
        goes_below(dest, Some(relative), is_dir, entry) ==> (entry matches Entry::Directory { dir }
            ==> dir@ == joined(dest, relative)),
        goes_below(dest, Some(relative), is_dir, entry) ==> (entry matches Entry::File {
            file,
            parent,
        } ==> file@ == joined(dest, relative) && text_in(parent) == parent_in(file@)),
{
}

}
