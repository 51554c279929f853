//! Opening the studio from the terminal, and installing it where it is not there.
//!
//! An [`Opening`] is told what happened and answers with what to do.
use vstd::prelude::*;

use crate::cli::{open_studio, stored};
use crate::config::{Config, ConfigView, GameInstall};
use crate::disk::Disk;
use crate::error::{failure, CauseView, Error};
use crate::session::{Session, SessionView};
use crate::text::text_in;

verus! {

broadcast use vstd::string::group_string_axioms;

/// What opening the studio waits for.
#[derive(Clone, Copy, Debug, PartialEq, Eq, Structural)]
pub enum Stage {
    /// the launcher's directories
    Preparing,
    /// the studio's installation
    Installing,
    /// the configuration is being saved
    Saving,
    /// the studio's launch link
    Linking,
    /// all is said
    Over,
}

/// What happened.
#[derive(Debug)]
pub enum Event {
    /// the launcher's directories were made, or not
    Prepared(Result<(), Error>),
    /// the studio was installed, or not
    Installed(Result<GameInstall, Error>),
    /// the configuration was saved, or not
    Saved(Result<(), Error>),
    /// the studio's launch link, or why there is none
    Linked(Result<String, Error>),
}

/// What to do next.
#[derive(Debug)]
pub enum Action {
    /// nothing until something else happens
    Wait,
    /// make the launcher's directories
    Prepare,
    /// print this, and install the studio for the session that the token stands for
    Install { line: String, token: String },
    /// save the configuration
    Save,
    /// print this, where there is anything, and ask for the studio's launch link for the session
    /// that the token stands for
    Link { line: Option<String>, token: String },
    /// start the studio with this link
    Launch(String),
    Fail(Error),
}

/// What an [`Action`] says.
pub enum ActionView {
    Wait,
    Prepare,
    Install { line: Seq<char>, token: Seq<char> },
    Save,
    Link { line: Option<Seq<char>>, token: Seq<char> },
    Launch(Seq<char>),
    Fail(Seq<CauseView>),
}

impl View for Action {
    type V = ActionView;

    open spec fn view(&self) -> ActionView {
        match self {
            Action::Wait => ActionView::Wait,
            Action::Prepare => ActionView::Prepare,
            Action::Install { line, token } => ActionView::Install { line: line@, token: token@ },
            Action::Save => ActionView::Save,
            Action::Link { line, token } => ActionView::Link {
                line: text_in(*line),
                token: token@,
            },
            Action::Launch(uri) => ActionView::Launch(uri@),
            Action::Fail(error) => ActionView::Fail(error@),
        }
    }
}

/// The opening of the studio for a session, with this configuration.
#[derive(Debug)]
pub struct Opening {
    pub session: Session,
    pub config: Config,
    pub stage: Stage,
}

/// What an [`Opening`] says.
pub struct OpeningView {
    pub session: SessionView,
    pub config: ConfigView,
    pub stage: Stage,
}

impl View for Opening {
    type V = OpeningView;

    open spec fn view(&self) -> OpeningView {
        OpeningView { session: self.session@, config: self.config@, stage: self.stage }
    }
}

impl OpeningView {
    /// Waits for what `action` leads to.
    pub open spec fn turn(self, stage: Stage, action: ActionView) -> (OpeningView, ActionView) {
        (OpeningView { stage, ..self }, action)
    }

    /// The link is asked for, once this is printed.
    pub open spec fn linking(self, line: Option<Seq<char>>) -> (OpeningView, ActionView) {
        self.turn(Stage::Linking, ActionView::Link { line, token: self.session.token })
    }

    /// It came to nothing, for this reason.
    pub open spec fn failed(self, reason: Seq<CauseView>) -> (OpeningView, ActionView) {
        self.turn(Stage::Over, ActionView::Fail(reason))
    }

    /// What follows an event: what is known and waited for then, and what to do. What was not asked
    /// for changes nothing.
    pub open spec fn after(self, event: Event) -> (OpeningView, ActionView) {
        match (self.stage, event) {
            (Stage::Preparing, Event::Prepared(Ok(_))) => self.turn(
                Stage::Installing,
                ActionView::Install {
                    line: "downloading Vortex Studio..."@,
                    token: self.session.token,
                },
            ),
            (Stage::Preparing, Event::Prepared(Err(reason))) => self.failed(reason@),
            (Stage::Installing, Event::Installed(Ok(studio))) => OpeningView {
                config: ConfigView { studio: Some(studio@), ..self.config },
                ..self
            }.turn(Stage::Saving, ActionView::Save),
            (Stage::Installing, Event::Installed(Err(reason))) => self.failed(reason@),
            (Stage::Saving, Event::Saved(Ok(_))) => self.linking(Some("studio installed"@)),
            (Stage::Saving, Event::Saved(Err(reason))) => self.failed(reason@),
            (Stage::Linking, Event::Linked(Ok(uri))) => self.turn(
                Stage::Over,
                ActionView::Launch(uri@),
            ),
            (Stage::Linking, Event::Linked(Err(reason))) => self.failed(reason@),
            _ => (self, ActionView::Wait),
        }
    }
}

/// Sets out to open the studio, which takes a session and Proton. Where the studio is there its link
/// is asked for, else it is installed, as the first thing the directories.
pub fn open(session: Option<Session>, config: Config, disk: &Disk) -> (begun: Result<
    (Opening, Action),
    Error,
>)
    ensures
        match session {
            None => begun matches Err(e) && e@ == failure("not signed in, run `login`"@),
            Some(session) => if config@.proton is None {
                begun matches Err(e) && e@ == failure(
                    "Proton is not installed yet, run the GUI (vortex-launcher) once to install"@,
                )
            } else {
                begun matches Ok(begun) && begun.0@.session == session@ && begun.0@.config
                    == config@ && (begun.0@, begun.1@) == if config@.has_studio(*disk) {
                    begun.0@.linking(None)
                } else {
                    begun.0@.turn(Stage::Preparing, ActionView::Prepare)
                }
            },
        },
{
    let session = match stored(session) {
        Ok(session) => session,
        Err(reason) => {
            return Err(reason);
        },
    };
    if let Err(reason) = open_studio(&config) {
        return Err(reason);
    }
    if config.studio_ready(disk) {
        let token = session.token.clone();
        Ok(
            (
                Opening { session, config, stage: Stage::Linking },
                Action::Link { line: None, token },
            ),
        )
    } else {
        Ok((Opening { session, config, stage: Stage::Preparing }, Action::Prepare))
    }
}

impl Opening {
    /// Takes note of what happened, and decides what to do next.
    pub fn next(self, event: Event) -> (turn: (Opening, Action))
        ensures
            (turn.0@, turn.1@) == self@.after(event),
    {
        let mut me = self;
        let action = match (me.stage, event) {
            (Stage::Preparing, Event::Prepared(Ok(_))) => {
                me.stage = Stage::Installing;
                Action::Install {
                    line: "downloading Vortex Studio...".to_owned(),
                    token: me.session.token.clone(),
                }
            },
            (Stage::Installing, Event::Installed(Ok(studio))) => {
                me.config.studio = Some(studio);
                me.stage = Stage::Saving;
                Action::Save
            },
            (Stage::Saving, Event::Saved(Ok(_))) => {
                me.stage = Stage::Linking;
                Action::Link {
                    line: Some("studio installed".to_owned()),
                    token: me.session.token.clone(),
                }
            },
            (Stage::Linking, Event::Linked(Ok(uri))) => {
                me.stage = Stage::Over;
                Action::Launch(uri)
            },
            (Stage::Preparing, Event::Prepared(Err(reason))) => {
                me.stage = Stage::Over;
                Action::Fail(reason)
            },
            (Stage::Installing, Event::Installed(Err(reason))) => {
                me.stage = Stage::Over;
                Action::Fail(reason)
            },
            (Stage::Saving, Event::Saved(Err(reason))) => {
                me.stage = Stage::Over;
                Action::Fail(reason)
            },
            (Stage::Linking, Event::Linked(Err(reason))) => {
                me.stage = Stage::Over;
                Action::Fail(reason)
            },
            _ => Action::Wait,
        };
        (me, action)
    }
}

/// The studio is started only with the link that was asked for, and what was installed is saved
/// before that.
pub proof fn an_installation_is_saved_before_the_start(opening: OpeningView, event: Event)
    ensures
        opening.after(event).1 matches ActionView::Launch(uri) ==> opening.stage == Stage::Linking
            && (event matches Event::Linked(Ok(link)) && link@ == uri),
        opening.after(event).1 is Link ==> opening.stage == Stage::Saving,
        opening.after(event).0.config != opening.config ==> opening.after(event).1 is Save,
        opening.stage == Stage::Over ==> opening.after(event) == (opening, ActionView::Wait),
{
}

}
