//! Picking the Proton build that is used, and downloading it where it is not there.
//!
//! A [`Picking`] is told what happened and answers with what to do.
use vstd::prelude::*;

use crate::cli::{
    downloaded, lemma_meant, lemma_placed_in, meant, pick_proton, picked_lines, placed_in,
    unknown_build, use_build,
};
use crate::config::{Config, ConfigView, ProtonInstall};
use crate::error::{failure, CauseView, Error};
use crate::proton::{Build, BuildView};
use crate::sort::views;
use crate::text::texts;

verus! {

broadcast use vstd::string::group_string_axioms;

/// What picking a build waits for.
#[derive(Debug)]
pub enum Stage {
    /// the builds that are there
    Listing,
    /// the launcher's directories
    Preparing,
    /// the download of the release
    Installing,
    /// the builds that are there after the download, which went into this directory
    Relisting(String),
    /// the configuration, into which this build goes
    Loading(Build),
    /// the configuration is being saved, and then this is printed
    Saving(Vec<String>),
    /// all is said
    Over,
}

/// What a [`Stage`] says.
pub enum StageView {
    Listing,
    Preparing,
    Installing,
    Relisting(Seq<char>),
    Loading(BuildView),
    Saving(Seq<Seq<char>>),
    Over,
}

impl View for Stage {
    type V = StageView;

    open spec fn view(&self) -> StageView {
        match self {
            Stage::Listing => StageView::Listing,
            Stage::Preparing => StageView::Preparing,
            Stage::Installing => StageView::Installing,
            Stage::Relisting(dir) => StageView::Relisting(dir@),
            Stage::Loading(build) => StageView::Loading(build@),
            Stage::Saving(lines) => StageView::Saving(texts(lines@)),
            Stage::Over => StageView::Over,
        }
    }
}

/// What happened.
#[derive(Debug)]
pub enum Event {
    /// the builds that are there
    Listed(Vec<Build>),
    /// the launcher's directories were made, or not
    Prepared(Result<(), Error>),
    /// the release was installed, or not
    Installed(Result<ProtonInstall, Error>),
    /// the stored configuration
    Loaded(Config),
    /// the configuration was saved, or not
    Saved(Result<(), Error>),
}

/// What to do next.
#[derive(Debug)]
pub enum Action {
    /// nothing until something else happens
    Wait,
    /// look which builds are there
    List,
    /// make the launcher's directories
    Prepare,
    /// print this, and install the release with this tag
    Install { line: String, tag: String },
    /// read the configuration
    Load,
    /// save the configuration
    Save(Config),
    /// print this; the build is in use
    Done(Vec<String>),
    Fail(Error),
}

/// What an [`Action`] says.
pub enum ActionView {
    Wait,
    List,
    Prepare,
    Install { line: Seq<char>, tag: Seq<char> },
    Load,
    Save(ConfigView),
    Done(Seq<Seq<char>>),
    Fail(Seq<CauseView>),
}

impl View for Action {
    type V = ActionView;

    open spec fn view(&self) -> ActionView {
        match self {
            Action::Wait => ActionView::Wait,
            Action::List => ActionView::List,
            Action::Prepare => ActionView::Prepare,
            Action::Install { line, tag } => ActionView::Install { line: line@, tag: tag@ },
            Action::Load => ActionView::Load,
            Action::Save(config) => ActionView::Save(config@),
            Action::Done(lines) => ActionView::Done(texts(lines@)),
            Action::Fail(error) => ActionView::Fail(error@),
        }
    }
}

/// The picking of the build that the user calls `name`, on a host with this C library.
#[derive(Debug)]
pub struct Picking {
    pub name: String,
    pub host: Option<(u32, u32)>,
    pub stage: Stage,
}

/// It came to nothing, for this reason.
pub open spec fn failed(reason: Seq<CauseView>) -> (StageView, ActionView) {
    (StageView::Over, ActionView::Fail(reason))
}

/// What follows an event: what is waited for then, and what to do. A build that is not there is
/// taken for a release and downloaded. What was not asked for changes nothing.
pub open spec fn after(
    name: Seq<char>,
    host: Option<(u32, u32)>,
    stage: StageView,
    event: Event,
) -> (StageView, ActionView) {
    match (stage, event) {
        (StageView::Listing, Event::Listed(builds)) => match meant(views(builds@), name) {
            Some(build) => (StageView::Loading(build), ActionView::Load),
            None => (StageView::Preparing, ActionView::Prepare),
        },
        (StageView::Preparing, Event::Prepared(Ok(_))) => (
            StageView::Installing,
            ActionView::Install {
                line: "downloading "@ + name + ", this takes a while"@,
                tag: name,
            },
        ),
        (StageView::Preparing, Event::Prepared(Err(reason))) => failed(reason@),
        (StageView::Installing, Event::Installed(Ok(install))) => (
            StageView::Relisting(install.dir@),
            ActionView::List,
        ),
        (StageView::Installing, Event::Installed(Err(reason))) => failed(
            failure("no Proton called `"@ + name + "` (see `vortex-launcher-cli proton`)"@)
                + reason@,
        ),
        (StageView::Relisting(dir), Event::Listed(builds)) => match placed_in(
            views(builds@),
            dir,
            0,
        ) {
            Some(build) => (StageView::Loading(build), ActionView::Load),
            None => failed(failure("the build vanished right after being installed"@)),
        },
        (StageView::Loading(build), Event::Loaded(config)) => (
            StageView::Saving(picked_lines(build, host)),
            ActionView::Save(
                ConfigView { proton: Some(build.installed()), proton_wanted: None, ..config@ },
            ),
        ),
        (StageView::Saving(lines), Event::Saved(Ok(_))) => (
            StageView::Over,
            ActionView::Done(lines),
        ),
        (StageView::Saving(_), Event::Saved(Err(reason))) => failed(reason@),
        _ => (stage, ActionView::Wait),
    }
}

/// Sets out to pick a build. The first thing to do is to look which are there.
pub fn pick(name: &str, host: Option<(u32, u32)>) -> (begun: (Picking, Action))
    ensures
        begun.0.name@ == name@,
        begun.0.host == host,
        begun.0.stage is Listing,
        begun.1 is List,
{
    (Picking { name: name.to_owned(), host, stage: Stage::Listing }, Action::List)
}

fn fail(reason: Error) -> (turn: (Stage, Action))
    ensures
        (turn.0@, turn.1@) == failed(reason@),
{
    (Stage::Over, Action::Fail(reason))
}

impl Picking {
    /// Takes note of what happened, and decides what to do next.
    pub fn next(self, event: Event) -> (turn: (Picking, Action))
        ensures
            turn.0.name == self.name,
            turn.0.host == self.host,
            (turn.0.stage@, turn.1@) == after(self.name@, self.host, self.stage@, event),
    {
        let Picking { name, host, stage } = self;
        let (stage, action): (Stage, Action) = match (stage, event) {
            (Stage::Listing, Event::Listed(builds)) => match pick_proton(&builds, name.as_str()) {
                Some(build) => (Stage::Loading(build), Action::Load),
                None => (Stage::Preparing, Action::Prepare),
            },
            (Stage::Preparing, Event::Prepared(Ok(_))) => (
                Stage::Installing,
                Action::Install {
                    line: "downloading ".to_owned().concat(name.as_str()).concat(
                        ", this takes a while",
                    ),
                    tag: name.clone(),
                },
            ),
            (Stage::Preparing, Event::Prepared(Err(reason))) => fail(reason),
            (Stage::Installing, Event::Installed(Ok(install))) => (
                Stage::Relisting(install.dir),
                Action::List,
            ),
            (Stage::Installing, Event::Installed(Err(reason))) => fail(
                unknown_build(name.as_str(), reason),
            ),
            (Stage::Relisting(dir), Event::Listed(builds)) => match downloaded(
                &builds,
                name.as_str(),
                Ok(dir.as_str()),
            ) {
                Ok(build) => (Stage::Loading(build), Action::Load),
                Err(reason) => fail(reason),
            },
            (Stage::Loading(build), Event::Loaded(config)) => {
                let mut config = config;
                let lines = use_build(&mut config, &build, host);
                (Stage::Saving(lines), Action::Save(config))
            },
            (Stage::Saving(lines), Event::Saved(Ok(_))) => (Stage::Over, Action::Done(lines)),
            (Stage::Saving(_), Event::Saved(Err(reason))) => fail(reason),
            (stage, _) => (stage, Action::Wait),
        };
        (Picking { name, host, stage }, action)
    }
}

/// Nothing is downloaded where a build of that name is there, and what was not named is never
/// downloaded.
pub proof fn only_a_missing_build_is_downloaded(
    name: Seq<char>,
    host: Option<(u32, u32)>,
    stage: StageView,
    event: Event,
)
    ensures
        stage is Listing && after(name, host, stage, event).1 is Prepare ==> (event matches
            Event::Listed(builds) && meant(views(builds@), name) is None),
        after(name, host, stage, event).1 matches ActionView::Install { tag, .. } ==> tag == name
            && stage is Preparing,
        after(name, host, stage, event).0 is Preparing && !(stage is Preparing) ==> stage is Listing,
{
}

/// What is saved names a build that is there, and asks for no other.
pub proof fn a_picked_build_is_there(
    name: Seq<char>,
    host: Option<(u32, u32)>,
    stage: StageView,
    event: Event,
)
    ensures
        !(stage is Loading) ==> (after(name, host, stage, event).0 matches StageView::Loading(build)
            ==> (event matches Event::Listed(builds) && views(builds@).contains(build))),
        after(name, host, stage, event).1 matches ActionView::Save(config) ==> (stage matches
            StageView::Loading(build) && config.proton == Some(build.installed())
            && config.proton_wanted is None),
{
    if let Event::Listed(builds) = event {
        let all = views(builds@);
        lemma_meant(all, name);
        if let StageView::Relisting(dir) = stage {
            lemma_placed_in(all, dir, 0);
        }
    }
}

}
