//! Installing a GE-Proton release.
//!
//! The work alternates between looking at the world and deciding what to do next. An [`Install`]
//! decides: it is told what happened, and answers with what to do.
use vstd::prelude::*;

pub mod laws;

use crate::config::{ProtonInstall, ProtonInstallView, ProtonSource};
use crate::disk::Disk;
use crate::error::{failure, headline, Error};
use crate::game::{part_of, progress_text, report};
use crate::net::{
    get_text, human_bytes, human_size, text_answer, text_at, text_request, Reply, Request,
};
use crate::paths::{file_name, join, joined, name_in, Paths};
use crate::proton::release::{
    latest_release, release_by_tag, release_page, release_reply, release_url, Release,
    ReleaseView,
};
use crate::proton::{builds_in, named_dirs, usable_entries};
use crate::spelling::{as_name, legible, named, shown};
use crate::state::{Shared, SharedView};
use crate::text::{
    borrowed, in_order, lowered, ordered, same_text, text_in, texts, words, words_in,
};

verus! {

broadcast use vstd::string::group_string_axioms;

/// How much room Proton takes.
pub const NEEDED: u64 = 2147483648;

/// How far the installation is.
#[derive(Debug)]
pub enum Stage {
    /// the release has been asked for
    Asking,
    /// the free space is being looked up
    Measuring(Release),
    /// the archive is being downloaded
    Downloading(Release),
    /// the checksum has been asked for, at this address
    Checking(Release, String),
    /// the archive is being hashed, and this is what should come of it
    Hashing(Release, String),
    /// the archive is being unpacked
    Unpacking(Release),
    /// what was unpacked is being looked at
    Looking(Release),
    /// all is said
    Over,
}

/// What happened.
#[derive(Debug)]
pub enum Event {
    /// what came back for a request, or why nothing did
    Replied(Result<Reply, Error>),
    /// the free space, where it could be told
    Free(Option<u64>),
    /// so much of the download is there
    Received(u64, u64),
    /// the download came to an end
    Downloaded(Result<(), Error>),
    /// the SHA-512 checksum of the archive, in hexadecimal
    Hashed(Result<String, Error>),
    /// the archive was unpacked and removed, or not
    Unpacked(Result<(), Error>),
    /// what lies in the directory of the builds
    Looked(Disk),
}

/// What to do next.
#[derive(Debug)]
pub enum Action {
    /// nothing until something else happens
    Wait,
    Fetch(Request),
    /// tell how much space is free where `dir` lies
    Measure { dir: String },
    Download { url: String, file: String },
    Hash { file: String },
    /// remove `old`, unpack `file` into `dest`, remove `file`
    Unpack { file: String, dest: String, old: String },
    /// look into `dir` at the builds there
    Look { dir: String },
    Done(ProtonInstall),
    /// give up, and remove a file where one is named
    Fail { error: Error, discard: Option<String> },
}

/// An installation: of the release that `tag` names, or of the latest one.
#[derive(Debug)]
pub struct Install {
    pub paths: Paths,
    pub arch: String,
    pub tag: Option<String>,
    pub stage: Stage,
}

/// Where the archive of a release is kept while it is needed.
pub open spec fn archive_file(paths: Paths, tag: Seq<char>) -> Seq<char> {
    joined(joined(paths.data@, "downloads"@), named(tag + ".tar.gz"@))
}

/// Where a release is expected once it is unpacked.
pub open spec fn release_dir(paths: Paths, tag: Seq<char>) -> Seq<char> {
    joined(joined(paths.data@, "proton"@), named(tag))
}

/// What `str::to_lowercase` makes of a text.
pub uninterp spec fn lowercase_of(text: Seq<char>) -> Seq<char>;

/// `str::to_lowercase`: it depends on the text alone, and where all of the text is ASCII it makes the
/// capitals small. What it makes of other characters is Unicode's to say.
#[verifier::external_body]
fn lowercase(text: &str) -> (small: String)
    ensures
        small@ == lowercase_of(text@),
        (forall|i: int| 0 <= i < text@.len() ==> (#[trigger] text@[i] as u32) < 128) ==> small@
            == lowered(text@),
{
    text.to_lowercase()
}

/// The checksum that a checksum file tells: its first word, without regard to case.
pub open spec fn told_checksum(text: Seq<char>) -> Seq<char> {
    let words = words_in(text, 0);
    if words.len() > 0 {
        lowercase_of(words[0])
    } else {
        seq![]
    }
}

/// What to say where there is too little space.
pub open spec fn too_little_space(free: u64) -> Seq<char> {
    "not enough disk space for Proton: "@ + human_size(free) + " free, about "@ + human_size(NEEDED)
        + " needed"@
}

/// The one with the highest name among the first `n`, the last of those with that name.
pub open spec fn highest(builds: Seq<(Seq<char>, Seq<char>)>, n: int) -> Option<
    (Seq<char>, Seq<char>),
>
    decreases n,
{
    if n <= 0 {
        None
    } else {
        match highest(builds, n - 1) {
            Some(best) => if in_order(best.0, builds[n - 1].0) {
                Some(builds[n - 1])
            } else {
                Some(best)
            },
            None => Some(builds[n - 1]),
        }
    }
}

/// Where the unpacked build is. The tag and the directory in the archive do not always match.
pub open spec fn unpacked_dir(
    paths: Paths,
    tag: Seq<char>,
    arch: Seq<char>,
    disk: Disk,
) -> Option<Seq<char>> {
    let builds = usable_entries(disk.listing(joined(paths.data@, "proton"@)), arch, disk, 0);
    if disk.file(joined(release_dir(paths, tag), "proton"@)) {
        Some(release_dir(paths, tag))
    } else {
        match highest(builds, builds.len() as int) {
            Some(best) => Some(best.1),
            None => None,
        }
    }
}

/// The name of the build in `dir`.
pub open spec fn build_name(dir: Seq<char>, tag: Seq<char>) -> Seq<char> {
    match name_in(dir) {
        Some(name) => legible(name),
        None => tag,
    }
}

/// The archive of `release` is to be unpacked.
pub open spec fn unpacks(paths: Paths, release: ReleaseView, after: Stage, action: Action) -> bool {
    &&& after matches Stage::Unpacking(r) && r@ == release
    &&& action matches Action::Unpack { file, dest, old } && file@ == archive_file(
        paths,
        release.tag,
    ) && dest@ == joined(paths.data@, "proton"@) && old@ == release_dir(paths, release.tag)
}

/// What follows an event: the next stage, what is shown and logged, and what to do. What was not
/// asked for changes nothing.
pub open spec fn follows(
    before: Install,
    shared: SharedView,
    event: Event,
    after: Stage,
    later: SharedView,
    action: Action,
) -> bool {
    match (before.stage, event) {
        (Stage::Asking, Event::Replied(reply)) => match release_reply(
            text_in(before.tag),
            reply,
            before.arch@,
        ) {
            Ok(release) => {
                &&& after matches Stage::Measuring(r) && r@ == release
                &&& action matches Action::Measure { dir } && dir@ == before.paths.data@
                &&& later == shared.logged("installing proton "@ + release.tag)
            },
            Err(reason) => {
                &&& after is Over
                &&& action matches Action::Fail { error, discard } && error@ == reason && discard
                    is None
                &&& later == shared
            },
        },
        (Stage::Measuring(release), Event::Free(free)) => if free matches Some(free) && free
            < NEEDED {
            &&& after is Over
            &&& action matches Action::Fail { error, discard } && error@ == failure(
                too_little_space(free->0),
            ) && discard is None
            &&& later == shared
        } else {
            &&& after matches Stage::Downloading(r) && r@ == release@
            &&& action matches Action::Download { url, file } && url@ == release.tarball@ && file@
                == archive_file(before.paths, release.tag@)
            &&& later == shared.detailed("connecting"@)
        },
        (Stage::Downloading(release), Event::Received(done, total)) => {
            &&& after matches Stage::Downloading(r) && r@ == release@
            &&& action is Wait
            &&& later == shared.advanced(part_of(done, total), progress_text(done, total))
        },
        (Stage::Downloading(release), Event::Downloaded(Ok(_))) => match release.checksum {
            Some(url) => {
                &&& after matches Stage::Checking(r, u) && r@ == release@ && u@ == url@
                &&& action matches Action::Fetch(request) && request@ == text_at(url@)
                &&& later == shared.advanced(None, "verifying"@)
            },
            None => unpacks(before.paths, release@, after, action) && later == shared.detailed(
                "extracting"@,
            ),
        },
        (Stage::Downloading(_), Event::Downloaded(Err(reason))) => {
            &&& after is Over
            &&& action matches Action::Fail { error, discard } && error@ == reason@ && discard
                is None
            &&& later == shared
        },
        (Stage::Checking(release, url), Event::Replied(reply)) => match text_answer(url@, reply) {
            Ok(text) => {
                &&& after matches Stage::Hashing(r, expected) && r@ == release@ && expected@
                    == told_checksum(text)
                &&& action matches Action::Hash { file } && file@ == archive_file(
                    before.paths,
                    release.tag@,
                )
                &&& later == shared
            },
            Err(reason) => unpacks(before.paths, release@, after, action) && later
                == shared.logged("could not fetch checksum: "@ + headline(reason)).detailed(
                "extracting"@,
            ),
        },
        (Stage::Hashing(release, expected), Event::Hashed(Ok(actual))) => if expected@ == actual@ {
            unpacks(before.paths, release@, after, action) && later == shared.logged(
                "proton checksum ok"@,
            ).detailed("extracting"@)
        } else {
            &&& after is Over
            &&& action matches Action::Fail { error, discard } && error@ == failure(
                "Proton download failed its checksum, try again"@,
            ) && text_in(discard) == Some(archive_file(before.paths, release.tag@))
            &&& later == shared
        },
        (Stage::Hashing(_, _), Event::Hashed(Err(reason))) => {
            &&& after is Over
            &&& action matches Action::Fail { error, discard } && error@ == reason@ && discard
                is None
            &&& later == shared
        },
        (Stage::Unpacking(release), Event::Unpacked(Ok(_))) => {
            &&& after matches Stage::Looking(r) && r@ == release@
            &&& action matches Action::Look { dir } && dir@ == joined(
                before.paths.data@,
                "proton"@,
            )
            &&& later == shared
        },
        (Stage::Unpacking(_), Event::Unpacked(Err(reason))) => {
            &&& after is Over
            &&& action matches Action::Fail { error, discard } && error@ == reason@ && discard
                is None
            &&& later == shared
        },
        (Stage::Looking(release), Event::Looked(disk)) => match unpacked_dir(
            before.paths,
            release.tag@,
            before.arch@,
            disk,
        ) {
            Some(dir) => {
                &&& after is Over
                &&& action matches Action::Done(install) && install@ == (ProtonInstallView {
                    name: build_name(dir, release.tag@),
                    dir,
                    source: ProtonSource::Managed,
                })
                &&& later == shared.logged("installed "@ + build_name(dir, release.tag@))
            },
            None => {
                &&& after is Over
                &&& action matches Action::Fail { error, discard } && error@ == failure(
                    "the Proton archive did not contain a proton script"@,
                ) && discard is None
                &&& later == shared
            },
        },
        _ => after == before.stage && action is Wait && later == shared,
    }
}

fn lent(s: &Option<String>) -> (t: Option<&str>)
    ensures
        borrowed(t) == text_in(*s),
{
    match s {
        Some(s) => Some(s.as_str()),
        None => None,
    }
}

fn failing(error: Error) -> (action: Action)
    ensures
        action == (Action::Fail { error, discard: None::<String> }),
{
    Action::Fail { error, discard: None }
}

fn read_checksum(text: &str) -> (checksum: String)
    ensures
        checksum@ == told_checksum(text@),
{
    let list = words(text);
    assert(texts(list@).len() == list@.len());
    if list.len() > 0 {
        assert(texts(list@)[0] == list@[0]@);
        lowercase(list[0].as_str())
    } else {
        let none = String::new();
        assert(none@ =~= seq![]);
        none
    }
}

fn find_highest(builds: &Vec<(String, String)>) -> (best: Option<usize>)
    ensures
        match best {
            Some(i) => i < builds.len() && highest(named_dirs(builds@), builds@.len() as int)
                == Some(named_dirs(builds@)[i as int]),
            None => highest(named_dirs(builds@), builds@.len() as int) is None,
        },
{
    let ghost all = named_dirs(builds@);
    let mut best: Option<usize> = None;
    let mut n: usize = 0;
    while n < builds.len()
        invariant
            n <= builds.len(),
            all == named_dirs(builds@),
            match best {
                Some(i) => i < n && highest(all, n as int) == Some(all[i as int]),
                None => highest(all, n as int) is None,
            },
        decreases builds.len() - n,
    {
        assert(all[n as int] == (builds@[n as int].0@, builds@[n as int].1@));
        match best {
            Some(i) => {
                assert(all[i as int] == (builds@[i as int].0@, builds@[i as int].1@));
                if ordered(builds[i].0.as_str(), builds[n].0.as_str()) {
                    best = Some(n);
                }
            },
            None => {
                best = Some(n);
            },
        }
        n += 1;
    }
    best
}

/// Sets out to install the release that `tag` names, or the latest one. The first thing to do
/// is to ask for it.
pub fn install(paths: &Paths, arch: &str, tag: Option<&str>) -> (begun: (Install, Action))
    ensures
        begun.0.paths.data@ == paths.data@,
        begun.0.paths.config@ == paths.config@,
        begun.0.arch@ == arch@,
        text_in(begun.0.tag) == borrowed(tag),
        begun.0.stage is Asking,
        begun.1 matches Action::Fetch(request) && request@ == text_at(
            release_page(borrowed(tag)),
        ),
{
    let request = text_request(release_url(tag).as_str());
    let install = Install {
        paths: paths.clone(),
        arch: arch.to_owned(),
        tag: crate::text::owned(tag),
        stage: Stage::Asking,
    };
    (install, Action::Fetch(request))
}

impl Install {
    fn archive(&self, tag: &str) -> (file: String)
        ensures
            file@ == archive_file(self.paths, tag@),
    {
        let name = as_name(tag.to_owned().concat(".tar.gz").as_str());
        join(self.paths.downloads().as_str(), name.as_str())
    }

    fn unpacking(&self, release: Release) -> (next: (Stage, Action))
        ensures
            unpacks(self.paths, release@, next.0, next.1),
    {
        let dest = self.paths.proton();
        let old = join(dest.as_str(), as_name(release.tag.as_str()).as_str());
        let file = self.archive(release.tag.as_str());
        (Stage::Unpacking(release), Action::Unpack { file, dest, old })
    }

    fn locate(&self, tag: &str, disk: &Disk) -> (dir: Option<String>)
        ensures
            text_in(dir) == unpacked_dir(self.paths, tag@, self.arch@, *disk),
    {
        let dest = self.paths.proton();
        let existing = join(dest.as_str(), as_name(tag).as_str());
        if disk.is_file(join(existing.as_str(), "proton").as_str()) {
            return Some(existing);
        }
        let builds = builds_in(dest.as_str(), self.arch.as_str(), disk);
        match find_highest(&builds) {
            Some(i) => {
                assert(named_dirs(builds@)[i as int] == (
                    builds@[i as int].0@,
                    builds@[i as int].1@,
                ));
                Some(builds[i].1.clone())
            },
            None => None,
        }
    }

    /// Takes note of what happened, and decides what to do next.
    pub fn next(self, shared: &mut Shared, event: Event) -> (turn: (Install, Action))
        ensures
            turn.0.paths == self.paths,
            turn.0.arch == self.arch,
            turn.0.tag == self.tag,
            follows(self, old(shared)@, event, turn.0.stage, final(shared)@, turn.1),
    {
        let Install { paths, arch, tag, stage } = self;
        let me = Install { paths, arch, tag, stage: Stage::Over };
        let (stage, action): (Stage, Action) = match (stage, event) {
            (Stage::Asking, Event::Replied(reply)) => {
                let release = match &me.tag {
                    Some(tag) => release_by_tag(tag.as_str(), reply, me.arch.as_str()),
                    None => latest_release(reply, me.arch.as_str()),
                };
                match release {
                    Ok(release) => {
                        shared.log("installing proton ".to_owned().concat(release.tag.as_str()));
                        (Stage::Measuring(release), Action::Measure { dir: me.paths.data.clone() })
                    },
                    Err(error) => (Stage::Over, failing(error)),
                }
            },
            (Stage::Measuring(release), Event::Free(free)) => {
                let short: Option<u64> = match free {
                    Some(free) => if free < NEEDED {
                        Some(free)
                    } else {
                        None
                    },
                    None => None,
                };
                match short {
                    Some(free) => {
                        let error = Error::new(
                            "not enough disk space for Proton: ".to_owned().concat(
                                human_bytes(free).as_str(),
                            ).concat(" free, about ").concat(human_bytes(NEEDED).as_str()).concat(
                                " needed",
                            ),
                        );
                        (Stage::Over, failing(error))
                    },
                    None => {
                        let url = release.tarball.clone();
                        let file = me.archive(release.tag.as_str());
                        shared.detail("connecting");
                        (Stage::Downloading(release), Action::Download { url, file })
                    },
                }
            },
            (Stage::Downloading(release), Event::Received(done, total)) => {
                report(shared, done, total);
                (Stage::Downloading(release), Action::Wait)
            },
            (Stage::Downloading(release), Event::Downloaded(Ok(_))) => match &release.checksum {
                Some(url) => {
                    let url = url.clone();
                    let request = text_request(url.as_str());
                    shared.advance(None, "verifying".to_owned());
                    (Stage::Checking(release, url), Action::Fetch(request))
                },
                None => {
                    shared.detail("extracting");
                    me.unpacking(release)
                },
            },
            (Stage::Downloading(_), Event::Downloaded(Err(error))) => (
                Stage::Over,
                failing(error),
            ),
            (Stage::Checking(release, url), Event::Replied(reply)) => match get_text(
                url.as_str(),
                reply,
            ) {
                Ok(text) => {
                    let expected = read_checksum(text.as_str());
                    let file = me.archive(release.tag.as_str());
                    (Stage::Hashing(release, expected), Action::Hash { file })
                },
                Err(reason) => {
                    shared.log(
                        "could not fetch checksum: ".to_owned().concat(reason.headline().as_str()),
                    );
                    shared.detail("extracting");
                    me.unpacking(release)
                },
            },
            (Stage::Hashing(release, expected), Event::Hashed(Ok(actual))) => {
                if same_text(expected.as_str(), actual.as_str()) {
                    shared.log("proton checksum ok".to_owned());
                    shared.detail("extracting");
                    me.unpacking(release)
                } else {
                    let error = Error::says("Proton download failed its checksum, try again");
                    let discard = Some(me.archive(release.tag.as_str()));
                    (Stage::Over, Action::Fail { error, discard })
                }
            },
            (Stage::Hashing(_, _), Event::Hashed(Err(error))) => (Stage::Over, failing(error)),
            (Stage::Unpacking(release), Event::Unpacked(Ok(_))) => {
                let dir = me.paths.proton();
                (Stage::Looking(release), Action::Look { dir })
            },
            (Stage::Unpacking(_), Event::Unpacked(Err(error))) => (Stage::Over, failing(error)),
            (Stage::Looking(release), Event::Looked(disk)) => match me.locate(
                release.tag.as_str(),
                &disk,
            ) {
                Some(dir) => {
                    let name = match file_name(dir.as_str()) {
                        Some(name) => shown(name.as_str()),
                        None => release.tag.clone(),
                    };
                    shared.log("installed ".to_owned().concat(name.as_str()));
                    let install = ProtonInstall { name, dir, source: ProtonSource::Managed };
                    (Stage::Over, Action::Done(install))
                },
                None => (
                    Stage::Over,
                    failing(Error::says("the Proton archive did not contain a proton script")),
                ),
            },
            (stage, _) => (stage, Action::Wait),
        };
        let Install { paths, arch, tag, stage: _ } = me;
        (Install { paths, arch, tag, stage }, action)
    }
}

/// An archive that was checked against a checksum is unpacked only if the two agree; where they do
/// not, it is thrown away.
pub proof fn only_what_matches_its_checksum_is_unpacked(
    before: Install,
    shared: SharedView,
    event: Event,
    after: Stage,
    later: SharedView,
    action: Action,
)
    requires
        follows(before, shared, event, after, later, action),
        before.stage is Hashing,
        event matches Event::Hashed(Ok(_)),
    ensures
        action is Unpack || action is Fail,
        action is Unpack <==> before.stage->Hashing_1@ == event->Hashed_0->Ok_0@,
        action is Fail ==> text_in(action->discard) == Some(
            archive_file(before.paths, before.stage->Hashing_0.tag@),
        ),
{
}

/// An archive for which a checksum is known is not unpacked right after its download; where it is
/// unpacked unchecked later, the checksum could not be fetched, and that is logged.
pub proof fn a_known_checksum_is_asked_for(
    before: Install,
    shared: SharedView,
    event: Event,
    after: Stage,
    later: SharedView,
    action: Action,
)
    requires
        follows(before, shared, event, after, later, action),
        action is Unpack,
    ensures
        before.stage is Downloading ==> before.stage->Downloading_0.checksum is None,
        before.stage is Checking ==> (event matches Event::Replied(reply) && text_answer(
            before.stage->Checking_1@,
            reply,
        ) is Err && later.lines.len() == shared.lines.len() + 1),
        before.stage is Downloading || before.stage is Checking || before.stage is Hashing,
{
}

/// Once an installation succeeded or failed, nothing more happens.
pub proof fn an_installation_ends_once(
    before: Install,
    shared: SharedView,
    event: Event,
    after: Stage,
    later: SharedView,
    action: Action,
)
    requires
        follows(before, shared, event, after, later, action),
    ensures
        action is Done || action is Fail ==> after is Over && !(before.stage is Over),
        before.stage is Over ==> after is Over && action is Wait && later == shared,
{
}

}
