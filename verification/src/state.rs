//! What the window and the worker share: how far the work is, and what is to be logged of it.
use vstd::prelude::*;

pub mod laws;

use crate::sort::views;
use crate::text::{text_in, texts};

verus! {

/// What the launcher is busy with.
#[derive(Clone, Copy, Debug, PartialEq, Eq, Structural)]
pub enum Task {
    Detecting,
    InstallingGame,
    InstallingStudio,
    InstallingProton,
    CheckingUpdate,
    Launching,
    LaunchingStudio,
    SigningIn,
    LoadingGames,
    InstallingCompiler,
}

impl Task {
    /// What the window calls it.
    pub open spec fn called(self) -> Seq<char> {
        match self {
            Task::Detecting => "Checking your installation"@,
            Task::InstallingGame => "Downloading Vortex"@,
            Task::InstallingStudio => "Downloading Vortex Studio"@,
            Task::InstallingProton => "Downloading Proton"@,
            Task::CheckingUpdate => "Checking for updates"@,
            Task::Launching => "Starting Vortex"@,
            Task::LaunchingStudio => "Starting Vortex Studio"@,
            Task::SigningIn => "Signing in"@,
            Task::LoadingGames => "Loading games"@,
            Task::InstallingCompiler => "Installing the shader compiler"@,
        }
    }

    /// What the window calls it.
    pub fn label(self) -> (label: &'static str)
        ensures
            label@ == self.called(),
    {
        match self {
            Task::Detecting => "Checking your installation",
            Task::InstallingGame => "Downloading Vortex",
            Task::InstallingStudio => "Downloading Vortex Studio",
            Task::InstallingProton => "Downloading Proton",
            Task::CheckingUpdate => "Checking for updates",
            Task::Launching => "Starting Vortex",
            Task::LaunchingStudio => "Starting Vortex Studio",
            Task::SigningIn => "Signing in",
            Task::LoadingGames => "Loading games",
            Task::InstallingCompiler => "Installing the shader compiler",
        }
    }
}

/// A game in the list.
#[derive(Debug)]
pub struct GameRow {
    pub id: u64,
    pub name: String,
    pub players: u64,
}

/// What a [`GameRow`] says.
pub struct GameRowView {
    pub id: u64,
    pub name: Seq<char>,
    pub players: u64,
}

impl View for GameRow {
    type V = GameRowView;

    open spec fn view(&self) -> GameRowView {
        GameRowView { id: self.id, name: self.name@, players: self.players }
    }
}

impl Clone for GameRow {
    fn clone(&self) -> (copy: GameRow)
        ensures
            copy@ == self@,
    {
        GameRow { id: self.id, name: self.name.clone(), players: self.players }
    }
}

/// A copy of a list of games.
pub fn copied_rows(rows: &Vec<GameRow>) -> (copy: Vec<GameRow>)
    ensures
        views(copy@) == views(rows@),
{
    let mut copy: Vec<GameRow> = Vec::new();
    let mut i: usize = 0;
    while i < rows.len()
        invariant
            i <= rows.len(),
            copy@.len() == i,
            forall|j: int| 0 <= j < i ==> #[trigger] copy@[j]@ == rows@[j]@,
        decreases rows.len() - i,
    {
        copy.push(rows[i].clone());
        i += 1;
    }
    assert(views(copy@) =~= views(rows@));
    copy
}

/// How much of something is done: `done` out of `whole`, which is never zero where it is shown.
#[derive(Clone, Copy, Debug, PartialEq, Eq, Structural)]
pub struct Part {
    pub done: u64,
    pub whole: u64,
}

/// How things stand.
#[derive(Debug)]
pub struct Status {
    pub task: Option<Task>,
    pub detail: String,
    pub progress: Option<Part>,
    pub error: Option<String>,
    pub game_ready: bool,
    pub studio_ready: bool,
    pub proton_ready: bool,
    pub proton_name: Option<String>,
    pub game_running: bool,
    pub studio_running: bool,
    pub allow_self_update: bool,
    pub native_shader_compiler: bool,
    pub update_available: bool,
    pub account: Option<String>,
    pub needs_2fa: bool,
    pub auth_error: Option<String>,
    pub games: Vec<GameRow>,
    pub selected_game: Option<u64>,
}

/// What a [`Status`] says.
#[verifier::ext_equal]
pub struct StatusView {
    pub task: Option<Task>,
    pub detail: Seq<char>,
    pub progress: Option<Part>,
    pub error: Option<Seq<char>>,
    pub game_ready: bool,
    pub studio_ready: bool,
    pub proton_ready: bool,
    pub proton_name: Option<Seq<char>>,
    pub game_running: bool,
    pub studio_running: bool,
    pub allow_self_update: bool,
    pub native_shader_compiler: bool,
    pub update_available: bool,
    pub account: Option<Seq<char>>,
    pub needs_2fa: bool,
    pub auth_error: Option<Seq<char>>,
    pub games: Seq<GameRowView>,
    pub selected_game: Option<u64>,
}

impl View for Status {
    type V = StatusView;

    open spec fn view(&self) -> StatusView {
        StatusView {
            task: self.task,
            detail: self.detail@,
            progress: self.progress,
            error: text_in(self.error),
            game_ready: self.game_ready,
            studio_ready: self.studio_ready,
            proton_ready: self.proton_ready,
            proton_name: text_in(self.proton_name),
            game_running: self.game_running,
            studio_running: self.studio_running,
            allow_self_update: self.allow_self_update,
            native_shader_compiler: self.native_shader_compiler,
            update_available: self.update_available,
            account: text_in(self.account),
            needs_2fa: self.needs_2fa,
            auth_error: text_in(self.auth_error),
            games: views(self.games@),
            selected_game: self.selected_game,
        }
    }
}

/// Nothing is known yet.
pub open spec fn nothing_known() -> StatusView {
    StatusView {
        task: None,
        detail: seq![],
        progress: None,
        error: None,
        game_ready: false,
        studio_ready: false,
        proton_ready: false,
        proton_name: None,
        game_running: false,
        studio_running: false,
        allow_self_update: false,
        native_shader_compiler: false,
        update_available: false,
        account: None,
        needs_2fa: false,
        auth_error: None,
        games: seq![],
        selected_game: None,
    }
}

impl Default for Status {
    fn default() -> (status: Status)
        ensures
            status@ == nothing_known(),
    {
        let status = Status {
            task: None,
            detail: String::new(),
            progress: None,
            error: None,
            game_ready: false,
            studio_ready: false,
            proton_ready: false,
            proton_name: None,
            game_running: false,
            studio_running: false,
            allow_self_update: false,
            native_shader_compiler: false,
            update_available: false,
            account: None,
            needs_2fa: false,
            auth_error: None,
            games: Vec::new(),
            selected_game: None,
        };
        assert(status@ =~= nothing_known());
        status
    }
}

/// What is installed, and who is signed in.
pub struct Facts {
    pub game_ready: bool,
    pub studio_ready: bool,
    pub proton_ready: bool,
    pub proton_name: Option<String>,
    pub allow_self_update: bool,
    pub native_shader_compiler: bool,
    pub account: Option<String>,
}

impl StatusView {
    /// With what is installed, and who is signed in.
    pub open spec fn knowing(self, facts: Facts) -> StatusView {
        StatusView {
            game_ready: facts.game_ready,
            studio_ready: facts.studio_ready,
            proton_ready: facts.proton_ready,
            proton_name: text_in(facts.proton_name),
            allow_self_update: facts.allow_self_update,
            native_shader_compiler: facts.native_shader_compiler,
            account: text_in(facts.account),
            ..self
        }
    }

    /// With these games listed. The first is selected where none is.
    pub open spec fn listing(self, rows: Seq<GameRowView>) -> StatusView {
        StatusView {
            games: rows,
            selected_game: match self.selected_game {
                Some(id) => Some(id),
                None => if rows.len() > 0 {
                    Some(rows[0].id)
                } else {
                    None
                },
            },
            ..self
        }
    }
}

impl Status {
    /// Shows what is installed, and who is signed in.
    pub fn show(&mut self, facts: Facts)
        ensures
            final(self)@ == old(self)@.knowing(facts),
    {
        self.game_ready = facts.game_ready;
        self.studio_ready = facts.studio_ready;
        self.proton_ready = facts.proton_ready;
        self.proton_name = facts.proton_name;
        self.allow_self_update = facts.allow_self_update;
        self.native_shader_compiler = facts.native_shader_compiler;
        self.account = facts.account;
    }

    /// Lists the games. The first is selected where none is.
    pub fn list(&mut self, rows: Vec<GameRow>)
        ensures
            final(self)@ == old(self)@.listing(views(rows@)),
    {
        if self.selected_game.is_none() && rows.len() > 0 {
            assert(views(rows@)[0] == rows@[0]@);
            self.selected_game = Some(rows[0].id);
        }
        self.games = rows;
    }
}

/// How things stand, whether the user asked to stop, and the log lines not yet written.
#[derive(Debug)]
pub struct Shared {
    pub status: Status,
    pub cancel: bool,
    pub lines: Vec<String>,
}

/// What a [`Shared`] says.
#[verifier::ext_equal]
pub struct SharedView {
    pub status: StatusView,
    pub cancel: bool,
    pub lines: Seq<Seq<char>>,
}

impl View for Shared {
    type V = SharedView;

    open spec fn view(&self) -> SharedView {
        SharedView { status: self.status@, cancel: self.cancel, lines: texts(self.lines@) }
    }
}

impl SharedView {
    /// With another status.
    pub open spec fn with(self, status: StatusView) -> SharedView {
        SharedView { status, ..self }
    }

    /// With one more line to log.
    pub open spec fn logged(self, line: Seq<char>) -> SharedView {
        SharedView { lines: self.lines.push(line), ..self }
    }

    /// A task begins: what was said of the one before is gone, and so is a wish to stop it.
    pub open spec fn begun(self, task: Task) -> SharedView {
        SharedView {
            status: StatusView {
                task: Some(task),
                detail: seq![],
                progress: None,
                error: None,
                ..self.status
            },
            cancel: false,
            ..self
        }
    }

    /// The work is done.
    pub open spec fn finished(self) -> SharedView {
        self.with(StatusView { task: None, detail: seq![], progress: None, ..self.status })
    }

    /// The work failed.
    pub open spec fn failed(self, message: Seq<char>) -> SharedView {
        self.logged("error: "@ + message).with(
            StatusView {
                task: None,
                detail: seq![],
                progress: None,
                error: Some(message),
                ..self.status
            },
        )
    }

    /// With a word on what is being done.
    pub open spec fn detailed(self, detail: Seq<char>) -> SharedView {
        self.with(StatusView { detail, ..self.status })
    }

    /// With a word on what is being done, and how far it is.
    pub open spec fn advanced(self, progress: Option<Part>, detail: Seq<char>) -> SharedView {
        self.with(StatusView { progress, detail, ..self.status })
    }
}

impl Shared {
    /// Nothing is known, and nobody asked to stop.
    pub fn new() -> (shared: Shared)
        ensures
            shared@ == (SharedView { status: nothing_known(), cancel: false, lines: seq![] }),
    {
        let shared = Shared { status: Status::default(), cancel: false, lines: Vec::new() };
        assert(shared@.lines =~= seq![]);
        shared
    }

    /// Puts a line in the log.
    pub fn log(&mut self, line: String)
        ensures
            final(self)@ == old(self)@.logged(line@),
    {
        self.lines.push(line);
        assert(self@ =~= old(self)@.logged(line@));
    }

    /// Hands out the lines that are still to be written, oldest first.
    pub fn take_lines(&mut self) -> (lines: Vec<String>)
        ensures
            texts(lines@) == old(self)@.lines,
            final(self)@ == (SharedView { lines: seq![], ..old(self)@ }),
    {
        let mut lines: Vec<String> = Vec::new();
        lines.append(&mut self.lines);
        assert(texts(lines@) =~= old(self)@.lines);
        assert(texts(self.lines@) =~= seq![]);
        lines
    }

    /// A task begins.
    pub fn begin(&mut self, task: Task)
        ensures
            final(self)@ == old(self)@.begun(task),
    {
        self.cancel = false;
        self.status.task = Some(task);
        self.status.detail = String::new();
        self.status.progress = None;
        self.status.error = None;
        assert(self@ =~= old(self)@.begun(task));
    }

    /// The work is done.
    pub fn finish(&mut self)
        ensures
            final(self)@ == old(self)@.finished(),
    {
        self.status.task = None;
        self.status.detail = String::new();
        self.status.progress = None;
        assert(self@ =~= old(self)@.finished());
    }

    /// The work failed.
    pub fn fail(&mut self, message: String)
        ensures
            final(self)@ == old(self)@.failed(message@),
    {
        self.log("error: ".to_owned().concat(message.as_str()));
        self.status.task = None;
        self.status.detail = String::new();
        self.status.progress = None;
        self.status.error = Some(message);
        assert(self@ =~= old(self)@.failed(message@));
    }

    /// Says what is being done.
    pub fn detail(&mut self, detail: &str)
        ensures
            final(self)@ == old(self)@.detailed(detail@),
    {
        self.status.detail = detail.to_owned();
    }

    /// Says what is being done, and how far it is.
    pub fn advance(&mut self, progress: Option<Part>, detail: String)
        ensures
            final(self)@ == old(self)@.advanced(progress, detail@),
    {
        self.status.progress = progress;
        self.status.detail = detail;
    }

    /// The user asks to stop.
    pub fn request_cancel(&mut self)
        ensures
            final(self)@ == (SharedView { cancel: true, ..old(self)@ }),
    {
        self.cancel = true;
    }

    /// Whether the user asked to stop.
    pub fn cancel_flag(&self) -> (stop: bool)
        ensures
            stop == self@.cancel,
    {
        self.cancel
    }
}

/// A wish to stop one task does not stop the next, and an error of one is not shown with the next.
pub proof fn a_task_begins_afresh(shared: SharedView, task: Task)
    ensures
        !shared.begun(task).cancel,
        shared.begun(task).status.error is None,
        shared.begun(task).status.progress is None,
        shared.begun(task).status.task == Some(task),
{
}

/// Finishing keeps the last error on show; only the next task clears it.
pub proof fn an_error_outlives_its_task(shared: SharedView, message: Seq<char>)
    ensures
        shared.failed(message).finished().status.error == Some(message),
        shared.failed(message).status.task is None,
{
}

}
