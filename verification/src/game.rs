//! Downloading and unpacking the Windows build of Vortex.
//!
//! As with Proton, an [`Install`] is told what happened and answers with what to do.
use vstd::prelude::*;

pub mod laws;

use crate::config::{GameInstall, GameInstallView};
use crate::error::{failure, Error};
use crate::net::{human_bytes, human_size, probe_request, probed, probing, Remote, Reply, Request};
use crate::paths::{
    enclosed, file_name, join, joined, lies_within, name_in, parent, parent_in,
    what_does_not_lead_up_stays_within, Paths,
};
use crate::spelling::{legible, shown};
use crate::state::{Part, Shared, SharedView};
use crate::text::{borrowed, decimal, decimal_text, lowered, same_ignoring_case, text_in, texts};

verus! {

broadcast use vstd::string::group_string_axioms;

/// How far a download is, where its size is known.
pub open spec fn part_of(done: u64, total: u64) -> Option<Part> {
    if total > 0 {
        Some(Part { done, whole: total })
    } else {
        None
    }
}

/// What is said about how far a download is.
pub open spec fn progress_text(done: u64, total: u64) -> Seq<char> {
    if total > 0 {
        human_size(done) + " of "@ + human_size(total)
    } else {
        human_size(done)
    }
}

/// Shows how far a download is.
pub fn report(shared: &mut Shared, done: u64, total: u64)
    ensures
        final(shared)@ == old(shared)@.advanced(part_of(done, total), progress_text(done, total)),
{
    if total > 0 {
        shared.advance(
            Some(Part { done, whole: total }),
            human_bytes(done).concat(" of ").concat(human_bytes(total).as_str()),
        );
    } else {
        shared.advance(None, human_bytes(done));
    }
}

/// A program that can be installed.
#[derive(Debug)]
pub struct Build {
    /// where its archive is
    pub url: String,
    /// the session that the archive is for, where it is not for everybody
    pub token: Option<String>,
    /// what the archive is called
    pub archive: String,
    /// what the program in it is called
    pub exe: String,
    /// what the log calls it
    pub label: String,
    /// where it goes
    pub dir: String,
}

/// What a [`Build`] says.
pub struct BuildView {
    pub url: Seq<char>,
    pub token: Option<Seq<char>>,
    pub archive: Seq<char>,
    pub exe: Seq<char>,
    pub label: Seq<char>,
    pub dir: Seq<char>,
}

impl View for Build {
    type V = BuildView;

    open spec fn view(&self) -> BuildView {
        BuildView {
            url: self.url@,
            token: text_in(self.token),
            archive: self.archive@,
            exe: self.exe@,
            label: self.label@,
            dir: self.dir@,
        }
    }
}

/// The game.
pub open spec fn the_game(paths: Paths) -> BuildView {
    BuildView {
        url: "https://playvortex.io/download/windows"@,
        token: None,
        archive: "Vortex-Windows.zip"@,
        exe: "Vortex.exe"@,
        label: "vortex"@,
        dir: joined(paths.data@, "game"@),
    }
}

/// The game.
pub fn build(paths: &Paths) -> (build: Build)
    ensures
        build@ == the_game(*paths),
{
    Build {
        url: "https://playvortex.io/download/windows".to_owned(),
        token: None,
        archive: "Vortex-Windows.zip".to_owned(),
        exe: "Vortex.exe".to_owned(),
        label: "vortex".to_owned(),
        dir: paths.game(),
    }
}

/// The request that tells which build of the game the server has.
pub fn ask() -> (request: Request)
    ensures
        request@ == probing("https://playvortex.io/download/windows"@, None),
{
    probe_request("https://playvortex.io/download/windows", None)
}

/// Reads what came back for the probe of the game, or why nothing did.
pub fn probe(reply: Result<Reply, Error>) -> (remote: Result<Remote, Error>)
    ensures
        crate::error::said(remote) == probed("https://playvortex.io/download/windows"@, reply),
{
    crate::net::probe("https://playvortex.io/download/windows", reply)
}

/// Something in a directory.
#[derive(Debug)]
pub struct Item {
    pub path: String,
    pub is_dir: bool,
}

/// How far the installation is.
#[derive(Debug)]
pub enum Stage {
    /// the server has been asked which build it has
    Probing,
    /// the free space is being looked up
    Measuring(Remote),
    /// the archive is being downloaded
    Downloading(Remote),
    /// the archive is being unpacked, over what was there before
    Extracting(Remote),
    /// the last of these directories is being read, the others are still to be searched
    Searching(Remote, Vec<String>),
    /// all is said
    Over,
}

/// What happened.
#[derive(Debug)]
pub enum Event {
    /// what came back for a request, or why nothing did
    Replied(Result<Reply, Error>),
    /// the free space, where it could be told
    Free(Option<u64>),
    /// so much of the download is there
    Received(u64, u64),
    /// the download came to an end
    Downloaded(Result<(), Error>),
    /// so many entries of the archive, out of so many, are unpacked
    Unpacked(u64, u64),
    /// the archive was unpacked, or not
    Extracted(Result<(), Error>),
    /// what lies in the directory that was read
    Listed(Result<Vec<Item>, Error>),
}

/// What to do next.
#[derive(Debug)]
pub enum Action {
    /// nothing until something else happens
    Wait,
    Fetch(Request),
    /// tell how much space is free where `dir` lies
    Measure { dir: String },
    /// download, for the account that `token` stands for where there is one
    Download { url: String, token: Option<String>, file: String },
    /// empty `dir`, and unpack `archive` there
    Extract { archive: String, dir: String },
    /// read the directory
    List { dir: String },
    /// the program is there, and the file is no longer needed
    Done { install: GameInstall, discard: String },
    Fail(Error),
}

/// An installation.
#[derive(Debug)]
pub struct Install {
    pub paths: Paths,
    pub build: Build,
    pub stage: Stage,
}

/// Where the archive is kept while it is needed.
pub open spec fn archive_file(paths: Paths, build: BuildView) -> Seq<char> {
    joined(joined(paths.data@, "downloads"@), build.archive)
}

/// The space that a build of this size takes: the archive, the extracted copy, and room to spare.
pub open spec fn space_needed(size: u64) -> u64 {
    if 3 * size <= u64::MAX {
        (3 * size) as u64
    } else {
        u64::MAX
    }
}

/// What to say where there is too little space.
pub open spec fn too_little_space(free: u64, size: u64) -> Seq<char> {
    "not enough disk space: "@ + human_size(free) + " free, about "@ + human_size(
        space_needed(size),
    ) + " needed"@
}

/// Whether the program that is called `exe`, whatever the case of its letters, is at `path`.
pub open spec fn is_program(path: Seq<char>, exe: Seq<char>) -> bool {
    name_in(path) matches Some(name) && lowered(name) == lowered(exe)
}

/// The first program called `exe` among the items from the `i`th on.
pub open spec fn program_in(items: Seq<Item>, exe: Seq<char>, i: int) -> Option<Seq<char>>
    decreases items.len() - i,
{
    if i >= items.len() {
        None
    } else if !items[i].is_dir && is_program(items[i].path@, exe) {
        Some(items[i].path@)
    } else {
        program_in(items, exe, i + 1)
    }
}

/// The directories among the items from the `i`th on.
pub open spec fn dirs_in(items: Seq<Item>, i: int) -> Seq<Seq<char>>
    decreases items.len() - i,
{
    if i >= items.len() {
        seq![]
    } else if items[i].is_dir {
        seq![items[i].path@] + dirs_in(items, i + 1)
    } else {
        dirs_in(items, i + 1)
    }
}

/// What to say where the program is not to be found.
pub open spec fn not_there(exe: Seq<char>) -> Seq<char> {
    exe + " was not in the archive, the download may have changed format"@
}

/// What is shown once `n` of `count` entries are unpacked: now and then, and at the end.
pub open spec fn unpacked(shared: SharedView, n: u64, count: u64) -> SharedView {
    if n % 16 == 1 || n == count {
        shared.advanced(
            Some(Part { done: n, whole: count }),
            "extracting "@ + decimal(n as nat) + " of "@ + decimal(count as nat) + " files"@,
        )
    } else {
        shared
    }
}

/// The search goes on: the last of `stack` is read, or it ends where there is none.
pub open spec fn searches(
    build: BuildView,
    stack: Seq<Seq<char>>,
    remote: Remote,
    after: Stage,
    action: Action,
) -> bool {
    if stack.len() == 0 {
        &&& after is Over
        &&& action matches Action::Fail(error) && error@ == failure(not_there(build.exe))
    } else {
        &&& after matches Stage::Searching(r, s) && r@ == remote@ && texts(s@) == stack
        &&& action matches Action::List { dir } && dir@ == stack.last()
    }
}

/// What follows an event: the next stage, what is shown and logged, and what to do. What was not
/// asked for changes nothing.
pub open spec fn follows(
    before: Install,
    shared: SharedView,
    event: Event,
    after: Stage,
    later: SharedView,
    action: Action,
) -> bool {
    let build = before.build@;
    match (before.stage, event) {
        (Stage::Probing, Event::Replied(reply)) => match probed(build.url, reply) {
            Ok(remote) => {
                &&& after matches Stage::Measuring(r) && r@ == remote
                &&& action matches Action::Measure { dir } && dir@ == before.paths.data@
                &&& later == shared.logged(build.label + " build is "@ + human_size(remote.size))
            },
            Err(reason) => {
                &&& after is Over
                &&& action matches Action::Fail(error) && error@ == reason
                &&& later == shared
            },
        },
        (Stage::Measuring(remote), Event::Free(free)) => if remote.size > 0 && (free matches Some(
            free,
        ) && free < space_needed(remote.size)) {
            &&& after is Over
            &&& action matches Action::Fail(error) && error@ == failure(
                too_little_space(free->0, remote.size),
            )
            &&& later == shared
        } else {
            &&& after matches Stage::Downloading(r) && r@ == remote@
            &&& action matches Action::Download { url, token, file } && url@ == build.url
                && text_in(token) == build.token && file@ == archive_file(before.paths, build)
            &&& later == shared.detailed("connecting"@)
        },
        (Stage::Downloading(remote), Event::Received(done, total)) => {
            &&& after matches Stage::Downloading(r) && r@ == remote@
            &&& action is Wait
            &&& later == shared.advanced(part_of(done, total), progress_text(done, total))
        },
        (Stage::Downloading(remote), Event::Downloaded(Ok(_))) => {
            &&& after matches Stage::Extracting(r) && r@ == remote@
            &&& action matches Action::Extract { archive, dir } && archive@ == archive_file(
                before.paths,
                build,
            ) && dir@ == build.dir
            &&& later == shared.advanced(None, "extracting"@)
        },
        (Stage::Downloading(_), Event::Downloaded(Err(reason))) => {
            &&& after is Over
            &&& action matches Action::Fail(error) && error@ == reason@
            &&& later == shared
        },
        (Stage::Extracting(remote), Event::Unpacked(n, count)) => {
            &&& after matches Stage::Extracting(r) && r@ == remote@
            &&& action is Wait
            &&& later == unpacked(shared, n, count)
        },
        (Stage::Extracting(remote), Event::Extracted(Ok(_))) => {
            &&& searches(build, seq![build.dir], remote, after, action)
            &&& later == shared
        },
        (Stage::Extracting(_), Event::Extracted(Err(reason))) => {
            &&& after is Over
            &&& action matches Action::Fail(error) && error@ == reason@
            &&& later == shared
        },
        (Stage::Searching(remote, stack), Event::Listed(Ok(items))) => match program_in(
            items@,
            build.exe,
            0,
        ) {
            Some(exe) => {
                &&& after is Over
                &&& action matches Action::Done { install, discard } && install@ == (
                GameInstallView {
                    exe,
                    etag: text_in(remote.etag),
                    last_modified: text_in(remote.last_modified),
                    size: remote.size,
                }) && discard@ == archive_file(before.paths, build)
                &&& later == shared.logged("installed "@ + legible(exe))
            },
            None => {
                &&& searches(
                    build,
                    (if stack@.len() > 0 {
                        texts(stack@).drop_last()
                    } else {
                        texts(stack@)
                    }) + dirs_in(items@, 0),
                    remote,
                    after,
                    action,
                )
                &&& later == shared
            },
        },
        (Stage::Searching(_, _), Event::Listed(Err(reason))) => {
            &&& after is Over
            &&& action matches Action::Fail(error) && error@ == reason@
            &&& later == shared
        },
        _ => after == before.stage && action is Wait && later == shared,
    }
}

fn find_program(items: &Vec<Item>, exe: &str) -> (path: Option<String>)
    ensures
        text_in(path) == program_in(items@, exe@, 0),
{
    let mut i: usize = 0;
    while i < items.len()
        invariant
            i <= items.len(),
            program_in(items@, exe@, 0) == program_in(items@, exe@, i as int),
        decreases items.len() - i,
    {
        if !items[i].is_dir {
            if let Some(name) = file_name(items[i].path.as_str()) {
                if same_ignoring_case(name.as_str(), exe) {
                    return Some(items[i].path.clone());
                }
            }
        }
        i += 1;
    }
    None
}

fn push_dirs(stack: &mut Vec<String>, items: &Vec<Item>)
    ensures
        texts(final(stack)@) == texts(old(stack)@) + dirs_in(items@, 0),
{
    let ghost before = texts(stack@);
    let mut i: usize = 0;
    while i < items.len()
        invariant
            i <= items.len(),
            texts(stack@) + dirs_in(items@, i as int) == before + dirs_in(items@, 0),
        decreases items.len() - i,
    {
        let ghost so_far = texts(stack@);
        if items[i].is_dir {
            stack.push(items[i].path.clone());
            assert(texts(stack@) =~= so_far.push(items@[i as int].path@));
            assert(so_far.push(items@[i as int].path@) + dirs_in(items@, i + 1) =~= so_far + (seq![
                items@[i as int].path@,
            ] + dirs_in(items@, i + 1)));
        }
        i += 1;
    }
    assert(texts(stack@) + dirs_in(items@, i as int) =~= texts(stack@));
}

/// Shows that `n` of `count` entries of an archive are unpacked.
fn report_unpacked(shared: &mut Shared, n: u64, count: u64)
    ensures
        final(shared)@ == unpacked(old(shared)@, n, count),
{
    if n % 16 == 1 || n == count {
        shared.advance(
            Some(Part { done: n, whole: count }),
            "extracting ".to_owned().concat(decimal_text(n).as_str()).concat(" of ").concat(
                decimal_text(count).as_str(),
            ).concat(" files"),
        );
    }
}

/// Sets out to install a program. The first thing to do is to ask which build the server has.
pub fn install_build(paths: &Paths, build: Build) -> (begun: (Install, Action))
    ensures
        begun.0.paths.data@ == paths.data@,
        begun.0.paths.config@ == paths.config@,
        begun.0.build == build,
        begun.0.stage is Probing,
        begun.1 matches Action::Fetch(request) && request@ == probing(build@.url, build@.token),
{
    let token = match &build.token {
        Some(token) => Some(token.as_str()),
        None => None,
    };
    let request = probe_request(build.url.as_str(), token);
    (Install { paths: paths.clone(), build, stage: Stage::Probing }, Action::Fetch(request))
}

/// Sets out to install the game.
pub fn install(paths: &Paths) -> (begun: (Install, Action))
    ensures
        begun.0.paths.data@ == paths.data@,
        begun.0.paths.config@ == paths.config@,
        begun.0.build@ == the_game(*paths),
        begun.0.stage is Probing,
        begun.1 matches Action::Fetch(request) && request@ == probing(
            the_game(*paths).url,
            None,
        ),
{
    install_build(paths, build(paths))
}

impl Install {
    fn archive(&self) -> (file: String)
        ensures
            file@ == archive_file(self.paths, self.build@),
    {
        join(self.paths.downloads().as_str(), self.build.archive.as_str())
    }

    /// Goes on looking for the program in the directories of `stack`.
    fn find_exe(&self, remote: Remote, stack: Vec<String>) -> (next: (Stage, Action))
        ensures
            searches(self.build@, texts(stack@), remote, next.0, next.1),
    {
        if stack.len() == 0 {
            let error = Error::new(
                self.build.exe.clone().concat(
                    " was not in the archive, the download may have changed format",
                ),
            );
            (Stage::Over, Action::Fail(error))
        } else {
            let dir = stack[stack.len() - 1].clone();
            assert(texts(stack@).last() == stack@.last()@);
            (Stage::Searching(remote, stack), Action::List { dir })
        }
    }

    /// Takes note of what happened, and decides what to do next.
    pub fn next(self, shared: &mut Shared, event: Event) -> (turn: (Install, Action))
        ensures
            turn.0.paths == self.paths,
            turn.0.build == self.build,
            follows(self, old(shared)@, event, turn.0.stage, final(shared)@, turn.1),
    {
        let Install { paths, build, stage } = self;
        let me = Install { paths, build, stage: Stage::Over };
        let (stage, action): (Stage, Action) = match (stage, event) {
            (Stage::Probing, Event::Replied(reply)) => match crate::net::probe(
                me.build.url.as_str(),
                reply,
            ) {
                Ok(remote) => {
                    shared.log(
                        me.build.label.clone().concat(" build is ").concat(
                            human_bytes(remote.size).as_str(),
                        ),
                    );
                    (Stage::Measuring(remote), Action::Measure { dir: me.paths.data.clone() })
                },
                Err(error) => (Stage::Over, Action::Fail(error)),
            },
            (Stage::Measuring(remote), Event::Free(free)) => {
                let needed: u64 = if remote.size <= u64::MAX / 3 {
                    remote.size * 3
                } else {
                    u64::MAX
                };
                let short: Option<u64> = match free {
                    Some(free) => if remote.size > 0 && free < needed {
                        Some(free)
                    } else {
                        None
                    },
                    None => None,
                };
                match short {
                    Some(free) => {
                        let error = Error::new(
                            "not enough disk space: ".to_owned().concat(
                                human_bytes(free).as_str(),
                            ).concat(" free, about ").concat(human_bytes(needed).as_str()).concat(
                                " needed",
                            ),
                        );
                        (Stage::Over, Action::Fail(error))
                    },
                    None => {
                        let url = me.build.url.clone();
                        let token = crate::config::copied(&me.build.token);
                        let file = me.archive();
                        shared.detail("connecting");
                        (Stage::Downloading(remote), Action::Download { url, token, file })
                    },
                }
            },
            (Stage::Downloading(remote), Event::Received(done, total)) => {
                report(shared, done, total);
                (Stage::Downloading(remote), Action::Wait)
            },
            (Stage::Downloading(remote), Event::Downloaded(Ok(_))) => {
                let archive = me.archive();
                let dir = me.build.dir.clone();
                shared.advance(None, "extracting".to_owned());
                (Stage::Extracting(remote), Action::Extract { archive, dir })
            },
            (Stage::Downloading(_), Event::Downloaded(Err(error))) => (
                Stage::Over,
                Action::Fail(error),
            ),
            (Stage::Extracting(remote), Event::Unpacked(n, count)) => {
                report_unpacked(shared, n, count);
                (Stage::Extracting(remote), Action::Wait)
            },
            (Stage::Extracting(remote), Event::Extracted(Ok(_))) => {
                let mut stack: Vec<String> = Vec::new();
                stack.push(me.build.dir.clone());
                assert(texts(stack@) =~= seq![me.build@.dir]);
                me.find_exe(remote, stack)
            },
            (Stage::Extracting(_), Event::Extracted(Err(error))) => (
                Stage::Over,
                Action::Fail(error),
            ),
            (Stage::Searching(remote, stack), Event::Listed(Ok(items))) => match find_program(
                &items,
                me.build.exe.as_str(),
            ) {
                Some(exe) => {
                    shared.log("installed ".to_owned().concat(shown(exe.as_str()).as_str()));
                    let install = GameInstall {
                        exe,
                        etag: remote.etag,
                        last_modified: remote.last_modified,
                        size: remote.size,
                    };
                    (Stage::Over, Action::Done { install, discard: me.archive() })
                },
                None => {
                    let mut stack = stack;
                    let ghost before = texts(stack@);
                    if stack.len() > 0 {
                        stack.pop();
                        assert(texts(stack@) =~= before.drop_last());
                    }
                    push_dirs(&mut stack, &items);
                    me.find_exe(remote, stack)
                },
            },
            (Stage::Searching(_, _), Event::Listed(Err(error))) => (
                Stage::Over,
                Action::Fail(error),
            ),
            (stage, _) => (stage, Action::Wait),
        };
        let Install { paths, build, stage: _ } = me;
        (Install { paths, build, stage }, action)
    }
}

/// What to do with an entry of an archive.
#[derive(Debug)]
pub enum Entry {
    /// its name leads out of the destination
    Skip,
    Directory { dir: String },
    /// the file, and the directory it lies in
    File { file: String, parent: Option<String> },
}

/// Whether this is to be done with an entry of an archive: it goes below `dest`, and one without a
/// name that stays inside is left out.
pub open spec fn goes_below(
    dest: Seq<char>,
    relative: Option<Seq<char>>,
    is_dir: bool,
    entry: Entry,
) -> bool {
    match relative {
        None => entry is Skip,
        Some(relative) => if is_dir {
            entry matches Entry::Directory { dir } && dir@ == joined(dest, relative)
        } else {
            entry matches Entry::File { file, parent } && file@ == joined(dest, relative)
                && text_in(parent) == parent_in(joined(dest, relative))
        },
    }
}

/// Where an entry of an archive goes: one whose name does not stay inside is left out.
pub fn extract(dest: &str, relative: Option<&str>, is_dir: bool) -> (entry: Entry)
    ensures
        goes_below(dest@, borrowed(relative), is_dir, entry),
{
    match relative {
        None => Entry::Skip,
        Some(relative) => {
            let target = join(dest, relative);
            if is_dir {
                Entry::Directory { dir: target }
            } else {
                let dir = parent(target.as_str());
                Entry::File { file: target, parent: dir }
            }
        },
    }
}

/// Nothing is extracted to a place outside the destination, where the names of the entries do not
/// lead up.
pub proof fn extraction_stays_inside(dest: Seq<char>, relative: Seq<char>, is_dir: bool, entry: Entry)
    requires
        enclosed(relative),
        goes_below(dest, Some(relative), is_dir, entry),
    ensures
        match entry {
            Entry::Skip => false,
            Entry::Directory { dir } => lies_within(dest, dir@),
            Entry::File { file, .. } => lies_within(dest, file@),
        },
{
    what_does_not_lead_up_stays_within(dest, relative);
}

/// Once an installation succeeded or failed, nothing more happens.
pub proof fn an_installation_ends_once(
    before: Install,
    shared: SharedView,
    event: Event,
    after: Stage,
    later: SharedView,
    action: Action,
)
    requires
        follows(before, shared, event, after, later, action),
    ensures
        action is Done || action is Fail ==> after is Over && !(before.stage is Over),
        before.stage is Over ==> after is Over && action is Wait && later == shared,
{
}

/// The program that an installation ends with is called as it should be, whatever the case of its
/// letters, and is kept together with what the server said of the archive it came from.
pub proof fn the_installed_program_is_the_wanted_one(
    before: Install,
    shared: SharedView,
    event: Event,
    after: Stage,
    later: SharedView,
    action: Action,
)
    requires
        follows(before, shared, event, after, later, action),
        action is Done,
    ensures
        is_program(action->install.exe@, before.build@.exe),
        before.stage matches Stage::Searching(remote, _) && text_in(action->install.etag)
            == text_in(remote.etag) && text_in(action->install.last_modified) == text_in(
            remote.last_modified,
        ) && action->install.size == remote.size,
{
    lemma_program_in(event->Listed_0->Ok_0@, before.build@.exe, 0);
}

proof fn lemma_program_in(items: Seq<Item>, exe: Seq<char>, i: int)
    requires
        0 <= i,
    ensures
        program_in(items, exe, i) matches Some(path) ==> is_program(path, exe),
    decreases items.len() - i,
{
    if i < items.len() {
        lemma_program_in(items, exe, i + 1);
    }
}

/// A build that the server still has as it was installed is not taken for a new one.
pub proof fn what_was_just_installed_is_up_to_date(remote: crate::net::RemoteView)
    ensures
        !remote.differs(remote.etag, remote.last_modified, remote.size),
{
}

}
