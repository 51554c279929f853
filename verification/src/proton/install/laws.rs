//! What holds of every installation of Proton.
use vstd::prelude::*;

use crate::disk::Disk;
use crate::error::{failure, Error};
use crate::net::laws::{a_text_is_asked_for_by_nobody, speaks_for_nobody};
use crate::net::{human_size, Reply};
use crate::paths::{joined, joined_path_has_its_name_and_parent, name_in, plain, Paths};
use crate::proton::install::{
    follows, highest, lowercase_of, told_checksum, Action, Event, Install, Stage,
};
use crate::proton::laws::build_among;
use crate::proton::release::release_reply;
use crate::proton::{usable, usable_entries};
use crate::spelling::{legible, named, ordinary};
use crate::state::{Part, SharedView};
use crate::text::laws::{all_in, none_in};
use crate::text::{
    in_order, in_order_total, in_order_transitive, lemma_next_in, lemma_next_not_in, next_in,
    next_not_in, text_in, Class,
};

verus! {

broadcast use vstd::string::group_string_axioms;

/// Where the builds that the launcher installs lie.
pub open spec fn own_builds(paths: Paths) -> Seq<char> {
    joined(paths.data@, "proton"@)
}

proof fn lemma_highest(builds: Seq<(Seq<char>, Seq<char>)>, n: int)
    requires
        0 <= n <= builds.len(),
    ensures
        match highest(builds, n) {
            Some(best) => {
                &&& exists|i: int|
                    0 <= i < n && #[trigger] builds[i] == best && forall|j: int|
                        i < j < n ==> !in_order(best.0, (#[trigger] builds[j]).0)
                &&& forall|i: int| 0 <= i < n ==> in_order((#[trigger] builds[i]).0, best.0)
            },
            None => n == 0,
        },
    decreases n,
{
    if n > 0 {
        lemma_highest(builds, n - 1);
        let last = builds[n - 1];
        in_order_total(last.0, last.0);
        if let Some(best) = highest(builds, n - 1) {
            in_order_total(best.0, last.0);
            if in_order(best.0, last.0) {
                assert forall|i: int| 0 <= i < n implies in_order(
                    (#[trigger] builds[i]).0,
                    last.0,
                ) by {
                    if i < n - 1 {
                        in_order_transitive(builds[i].0, best.0, last.0);
                    }
                }
            }
        }
    }
}

/// Where the directory named after the tag holds a proton script, the installation ends with just
/// that directory, whatever other builds lie beside it.
pub proof fn the_release_that_was_unpacked_is_taken(
    before: Install,
    shared: SharedView,
    disk: Disk,
    after: Stage,
    later: SharedView,
    action: Action,
)
    requires
        before.stage is Looking,
        follows(before, shared, Event::Looked(disk), after, later, action),
        disk.file(
            joined(
                joined(own_builds(before.paths), named(before.stage->Looking_0.tag@)),
                "proton"@,
            ),
        ),
    ensures
        action matches Action::Done(install) && install.dir@ == joined(
            own_builds(before.paths),
            named(before.stage->Looking_0.tag@),
        ) && install.source is Managed,
        plain(before.stage->Looking_0.tag@) && ordinary(before.stage->Looking_0.tag@)
            ==> action->Done_0.name@ == before.stage->Looking_0.tag@ && later.lines
            == shared.lines.push("installed "@ + before.stage->Looking_0.tag@),
        after is Over,
{
    let tag = before.stage->Looking_0.tag@;
    if plain(tag) && ordinary(tag) {
        joined_path_has_its_name_and_parent(own_builds(before.paths), tag);
    }
}

/// Another build is only taken where the directory named after the tag has no proton script: it is
/// one that lies among the launcher's own builds and that this host can use, and no other such build
/// has a higher name. Where there is none, the installation failed.
pub proof fn another_build_is_only_taken_for_want_of_it(
    before: Install,
    shared: SharedView,
    disk: Disk,
    after: Stage,
    later: SharedView,
    action: Action,
)
    requires
        before.stage is Looking,
        follows(before, shared, Event::Looked(disk), after, later, action),
        !disk.file(
            joined(
                joined(own_builds(before.paths), named(before.stage->Looking_0.tag@)),
                "proton"@,
            ),
        ),
    ensures
        after is Over,
        action is Done || action is Fail,
        action matches Action::Done(install) ==> {
            let entries = disk.listing(own_builds(before.paths));
            &&& install.source is Managed
            &&& entries.contains(install.dir@) && usable(install.dir@, before.arch@, disk)
            &&& name_in(install.dir@) is Some && install.name@ == legible(
                name_in(install.dir@)->0,
            )
            &&& forall|i: int|
                0 <= i < entries.len() && usable(#[trigger] entries[i], before.arch@, disk)
                    && name_in(entries[i]) is Some ==> in_order(
                    legible(name_in(entries[i])->0),
                    install.name@,
                )
            &&& later.lines == shared.lines.push("installed "@ + install.name@)
        },
        action matches Action::Fail { error, discard } ==> {
            let entries = disk.listing(own_builds(before.paths));
            &&& error@ == failure("the Proton archive did not contain a proton script"@)
            &&& discard is None
            &&& forall|i: int|
                0 <= i < entries.len() ==> name_in(#[trigger] entries[i]) is None || !usable(
                    entries[i],
                    before.arch@,
                    disk,
                )
        },
{
    let entries = disk.listing(own_builds(before.paths));
    let builds = usable_entries(entries, before.arch@, disk, 0);
    build_among(entries, before.arch@, disk, 0);
    lemma_highest(builds, builds.len() as int);
    if let Some(best) = highest(builds, builds.len() as int) {
        let k = choose|k: int| 0 <= k < builds.len() && #[trigger] builds[k] == best;
        assert(builds[k] == best);
        assert forall|i: int|
            0 <= i < entries.len() && usable(#[trigger] entries[i], before.arch@, disk) && name_in(
                entries[i],
            ) is Some implies in_order(legible(name_in(entries[i])->0), best.0) by {
            assert(builds.contains((legible(name_in(entries[i])->0), entries[i])));
        }
    } else {
        assert forall|i: int| 0 <= i < entries.len() implies name_in(#[trigger] entries[i]) is None
            || !usable(entries[i], before.arch@, disk) by {
            if name_in(entries[i]) is Some && usable(entries[i], before.arch@, disk) {
                assert(builds.contains((legible(name_in(entries[i])->0), entries[i])));
            }
        }
    }
}

/// The release that was found is the one that is installed, once the free space is looked up where the
/// launcher keeps its data; where none was found, that is told.
pub proof fn the_release_that_was_found_is_installed(
    before: Install,
    shared: SharedView,
    reply: Result<Reply, Error>,
    after: Stage,
    later: SharedView,
    action: Action,
)
    requires
        before.stage is Asking,
        follows(before, shared, Event::Replied(reply), after, later, action),
    ensures
        match release_reply(text_in(before.tag), reply, before.arch@) {
            Ok(release) => {
                &&& after matches Stage::Measuring(next) && next@ == release
                &&& action matches Action::Measure { dir } && dir@ == before.paths.data@
                &&& later.lines == shared.lines.push("installing proton "@ + release.tag)
                &&& later.status == shared.status
            },
            Err(reason) => {
                &&& after is Over
                &&& action matches Action::Fail { error, discard } && error@ == reason && discard
                    is None
            },
        },
{
}

/// While the archive comes, how much of it is there is shown, and the download goes on.
pub proof fn the_download_is_shown(
    before: Install,
    shared: SharedView,
    done: u64,
    total: u64,
    after: Stage,
    later: SharedView,
    action: Action,
)
    requires
        before.stage is Downloading,
        follows(before, shared, Event::Received(done, total), after, later, action),
    ensures
        action is Wait,
        after matches Stage::Downloading(next) && next@ == before.stage->Downloading_0@,
        total > 0 ==> later.status.progress == Some(Part { done, whole: total })
            && later.status.detail == human_size(done) + " of "@ + human_size(total),
        total == 0 ==> later.status.progress is None && later.status.detail == human_size(done),
{
}

/// A download starts only where two gibibytes are free, or where the free space is not known; it
/// fetches the archive of the release that was found, into a file named after its tag.
pub proof fn a_download_needs_two_gibibytes(
    before: Install,
    shared: SharedView,
    free: Option<u64>,
    after: Stage,
    later: SharedView,
    action: Action,
)
    requires
        before.stage is Measuring,
        follows(before, shared, Event::Free(free), after, later, action),
    ensures
        ({
            let release = before.stage->Measuring_0;
            &&& action is Download <==> !(free matches Some(free) && free < 2 * 1024 * 1024 * 1024)
            &&& action matches Action::Download { url, file } ==> url@ == release.tarball@ && file@
                == joined(joined(before.paths.data@, "downloads"@), named(release.tag@ + ".tar.gz"@))
                && (after matches Stage::Downloading(next) && next@ == release@)
            &&& !(action is Download) ==> (action matches Action::Fail { error, discard } && discard
                is None && error@ == failure(
                "not enough disk space for Proton: "@ + human_size(free->0) + " free, about "@
                    + human_size(2147483648) + " needed"@,
            )) && after is Over
        }),
{
}

/// Once the archive is there, its checksum is asked for where one is known, at its own address and by
/// nobody, and the archive is unpacked where none is.
pub proof fn a_download_is_checked_where_it_can_be(
    before: Install,
    shared: SharedView,
    after: Stage,
    later: SharedView,
    action: Action,
)
    requires
        before.stage is Downloading,
        follows(before, shared, Event::Downloaded(Ok(())), after, later, action),
    ensures
        ({
            let release = before.stage->Downloading_0;
            &&& release.checksum matches Some(url) ==> (action matches Action::Fetch(request)
                && request@.url == url@ && request@.form is None && speaks_for_nobody(request@)
                && (after matches Stage::Checking(next, at) && next@ == release@ && at@ == url@))
            &&& release.checksum is None ==> after is Unpacking && unpacks_own(
                before.paths,
                release.tag@,
                action,
            )
        }),
{
    if let Some(url) = before.stage->Downloading_0.checksum {
        a_text_is_asked_for_by_nobody(url@);
    }
}

/// Whether the archive of a release is unpacked among the launcher's own builds, and what lay there
/// under its name is removed first.
pub open spec fn unpacks_own(paths: Paths, tag: Seq<char>, action: Action) -> bool {
    action matches Action::Unpack { file, dest, old } && file@ == joined(
        joined(paths.data@, "downloads"@),
        named(tag + ".tar.gz"@),
    ) && dest@ == own_builds(paths) && old@ == joined(own_builds(paths), named(tag))
}

/// The text that came with a reply, where the server served one that can be read.
pub open spec fn came(reply: Result<Reply, Error>) -> Option<Seq<char>> {
    match reply {
        Ok(reply) => if 200 <= reply.status <= 299 && reply.body is Ok {
            Some(reply.body->Ok_0@)
        } else {
            None
        },
        Err(_) => None,
    }
}

/// The archive that is hashed is the one that was downloaded, and it is unpacked if and only if its
/// hash is the first word of the checksum file; else it is thrown away. An archive whose checksum
/// could not be had is unpacked all the same.
pub proof fn only_the_right_archive_is_unpacked(
    before: Install,
    shared: SharedView,
    event: Event,
    after: Stage,
    later: SharedView,
    action: Action,
)
    requires
        follows(before, shared, event, after, later, action),
    ensures
        before.stage matches Stage::Checking(release, url) ==> (event matches Event::Replied(reply)
            ==> match came(reply) {
            Some(text) => (action matches Action::Hash { file } && file@ == joined(
                joined(before.paths.data@, "downloads"@),
                named(release.tag@ + ".tar.gz"@),
            )) && (after matches Stage::Hashing(next, expected) && next@ == release@ && expected@
                == told_checksum(text)),
            None => unpacks_own(before.paths, release.tag@, action),
        }),
        before.stage matches Stage::Hashing(release, expected) ==> (event matches Event::Hashed(
            Ok(actual),
        ) ==> if actual@ == expected@ {
            unpacks_own(before.paths, release.tag@, action)
        } else {
            action matches Action::Fail { error, discard } && error@ == failure(
                "Proton download failed its checksum, try again"@,
            ) && text_in(discard) == Some(
                joined(
                    joined(before.paths.data@, "downloads"@),
                    named(release.tag@ + ".tar.gz"@),
                ),
            )
        }),
        before.stage is Unpacking && event is Unpacked && event->Unpacked_0 is Ok ==> (
        action matches Action::Look { dir } && dir@ == own_builds(before.paths)) && (
        after matches Stage::Looking(release) && release@ == before.stage->Unpacking_0@),
{
}

/// What goes wrong on the way ends the installation with just that.
pub proof fn what_goes_wrong_is_told(
    before: Install,
    shared: SharedView,
    event: Event,
    after: Stage,
    later: SharedView,
    action: Action,
)
    requires
        follows(before, shared, event, after, later, action),
    ensures
        before.stage is Downloading ==> (event matches Event::Downloaded(Err(reason)) ==> after
            is Over && (action matches Action::Fail { error, discard } && error@ == reason@
            && discard is None)),
        before.stage is Hashing ==> (event matches Event::Hashed(Err(reason)) ==> after is Over && (
        action matches Action::Fail { error, discard } && error@ == reason@ && discard is None)),
        before.stage is Unpacking ==> (event matches Event::Unpacked(Err(reason)) ==> after is Over
            && (action matches Action::Fail { error, discard } && error@ == reason@ && discard
            is None)),
{
}

/// The checksum is the first word of the checksum file, whatever white space stands before it and
/// whatever stands behind it, in small letters.
pub proof fn the_checksum_is_the_first_word(
    front: Seq<char>,
    word: Seq<char>,
    rest: Seq<char>,
)
    requires
        all_in(front, Class::Space),
        word.len() > 0,
        none_in(word, Class::Space),
        rest.len() > 0 ==> Class::Space.has(rest[0]),
    ensures
        told_checksum(front + word + rest) == lowercase_of(word),
{
    let s = front + word + rest;
    lemma_next_not_in(s, Class::Space, 0);
    let start = next_not_in(s, Class::Space, 0);
    assert(s[front.len() as int] == word[0]);
    if start < front.len() {
        assert(s[start] == front[start]);
    }
    if start > front.len() {
        assert(Class::Space.has(s[front.len() as int]));
    }
    lemma_next_in(s, Class::Space, start);
    let end = next_in(s, Class::Space, start);
    let stop = (front.len() + word.len()) as int;
    if end < stop {
        assert(s[end] == word[end - front.len()]);
    }
    if end > stop {
        assert(s[stop] == rest[0]);
    }
    assert(s.subrange(start, end) =~= word);
}

}
