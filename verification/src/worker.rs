//! What the launcher does, job by job.
//!
//! Everything slow happens outside. A [`Ctx`] is told what happened, one [`Event`] at a time, and
//! answers with what to do, an [`Action`]; what there is to show and to log goes to a [`Shared`].
use vstd::prelude::*;

pub mod frame;
pub mod jobs;
pub mod laws;
pub mod upkeep;

use crate::auth::{
    account, account_reply, account_request, as_session, games, games_reply, games_request,
    giving_code, is_launch_uri, is_studio_uri, launchable, login, login_2fa, login_reply,
    play_page, play_reply, play_request, play_uri, post_login, signing_in, Account, AccountView,
    Game, GameView, Login, LoginView,
};
use crate::config::{
    copied, inside, Config, ConfigView, GameInstall, GameInstallView, ProtonInstall,
    ProtonInstallView,
};
use crate::disk::Disk;
use crate::error::{cause_text, failure, said, settled, CauseView, Error};
use crate::launch::Target;
use crate::net::{
    fetch, is_cancelled, probed, probing, Manner, RemoteView, Reply, Request, RequestView,
};
use crate::paths::{join, joined, Paths};
use crate::proton::{detect, found_builds, preferred, wine_candidates, wine_programs};
use crate::session::{Session, SessionView};
use crate::shaders::{compiler, compiler_file, is_installed, native};
use crate::sort::{arranged, sort, views, Ranked};
use crate::state::{Facts, GameRow, GameRowView, Shared, SharedView, StatusView, Task};
use crate::text::{
    begins, in_order, in_order_total, in_order_transitive, ordered, starts_with, text_in, texts,
};

verus! {

broadcast use vstd::string::group_string_axioms;

/// Something the user asks for.
#[derive(Debug)]
pub enum Job {
    Detect,
    Setup,
    CheckUpdate,
    Play,
    SetSelfUpdate(bool),
    SetNativeShaderCompiler(bool),
    SignIn { username: String, password: String },
    Submit2fa(String),
    SignOut,
    LoadGames,
    SelectGame(u64),
    PlayUri(String),
    OpenStudio,
    StudioUri(String),
}

/// What happened.
#[derive(Debug)]
pub enum Event {
    /// a job was given
    Given(Job),
    /// the launcher's directories were made, or not
    Prepared(Result<(), Error>),
    /// the directories where Proton builds may be were looked at: those that Steam uses, and the
    /// version of the host's C library
    Searched { steam: Vec<String>, host: Option<(u32, u32)> },
    /// the configuration was saved, or not
    Saved(Result<(), Error>),
    /// the session was saved, or not
    Kept(Result<(), Error>),
    /// what came back for a request, or why nothing did
    Replied(Result<Reply, Error>),
    ProtonInstalled(Result<ProtonInstall, Error>),
    /// the game or the studio was installed, or not
    GameInstalled(Result<GameInstall, Error>),
    /// the shader compiler was installed, or not
    CompilerInstalled(Result<(), Error>),
    /// the studio's launch link, or why there is none
    Linked(Result<String, Error>),
    /// the program was started, or not
    Launched(Result<(), Error>),
}

/// What to do next.
#[derive(Debug)]
pub enum Action {
    /// nothing until something else happens
    Wait,
    /// nothing until the next job
    Rest,
    /// remove the stored session, then nothing until the next job
    Forget,
    /// make the launcher's directories
    Prepare,
    /// look at the directories where Proton builds may be
    Search,
    /// save the configuration
    Save,
    /// save the session
    Keep(Session),
    Fetch(Request),
    /// install Proton, a certain release where one is named
    InstallProton(Option<String>),
    InstallGame,
    /// install the studio, for the session that the token stands for
    InstallStudio(String),
    InstallCompiler,
    /// ask for the studio's launch link, for the session that the token stands for
    LinkStudio(String),
    /// start a program with a link
    Launch(Target, String),
}

/// What an [`Action`] says.
pub enum ActionView {
    Wait,
    Rest,
    Forget,
    Prepare,
    Search,
    Save,
    Keep(SessionView),
    Fetch(RequestView),
    InstallProton(Option<Seq<char>>),
    InstallGame,
    InstallStudio(Seq<char>),
    InstallCompiler,
    LinkStudio(Seq<char>),
    Launch(Target, Seq<char>),
}

impl View for Action {
    type V = ActionView;

    open spec fn view(&self) -> ActionView {
        match self {
            Action::Wait => ActionView::Wait,
            Action::Rest => ActionView::Rest,
            Action::Forget => ActionView::Forget,
            Action::Prepare => ActionView::Prepare,
            Action::Search => ActionView::Search,
            Action::Save => ActionView::Save,
            Action::Keep(session) => ActionView::Keep(session@),
            Action::Fetch(request) => ActionView::Fetch(request@),
            Action::InstallProton(tag) => ActionView::InstallProton(text_in(*tag)),
            Action::InstallGame => ActionView::InstallGame,
            Action::InstallStudio(token) => ActionView::InstallStudio(token@),
            Action::InstallCompiler => ActionView::InstallCompiler,
            Action::LinkStudio(token) => ActionView::LinkStudio(token@),
            Action::Launch(target, uri) => ActionView::Launch(*target, uri@),
        }
    }
}

/// What the current job waits for.
#[derive(Debug)]
pub enum Phase {
    /// there is no job
    Idle,
    DetectPrepare,
    DetectSearch,
    DetectSave,
    /// the account of the stored session
    DetectAccount(Session),
    Games,
    SetupPrepare,
    SetupSearch,
    SetupProton,
    SetupProtonSave,
    SetupGame,
    SetupGameSave,
    /// which build the server has, where this one is installed
    UpdateProbe(GameInstall),
    UpdateGame,
    UpdateSave,
    /// the last thing a job does is to save the configuration
    LastSave,
    Compiler,
    /// the configuration is saved after this failure
    CompilerOff(Error),
    SignIn,
    SecondFactor,
    /// the account of a session that just began
    Lookup(String),
    Keep(Session),
    PlayPage,
    StudioInstall(String),
    StudioSave(String),
    StudioLink,
    Launch,
}

/// What a [`Phase`] says.
pub enum PhaseView {
    Idle,
    DetectPrepare,
    DetectSearch,
    DetectSave,
    DetectAccount(SessionView),
    Games,
    SetupPrepare,
    SetupSearch,
    SetupProton,
    SetupProtonSave,
    SetupGame,
    SetupGameSave,
    UpdateProbe(GameInstallView),
    UpdateGame,
    UpdateSave,
    LastSave,
    Compiler,
    CompilerOff(Seq<CauseView>),
    SignIn,
    SecondFactor,
    Lookup(Seq<char>),
    Keep(SessionView),
    PlayPage,
    StudioInstall(Seq<char>),
    StudioSave(Seq<char>),
    StudioLink,
    Launch,
}

impl View for Phase {
    type V = PhaseView;

    open spec fn view(&self) -> PhaseView {
        match self {
            Phase::Idle => PhaseView::Idle,
            Phase::DetectPrepare => PhaseView::DetectPrepare,
            Phase::DetectSearch => PhaseView::DetectSearch,
            Phase::DetectSave => PhaseView::DetectSave,
            Phase::DetectAccount(session) => PhaseView::DetectAccount(session@),
            Phase::Games => PhaseView::Games,
            Phase::SetupPrepare => PhaseView::SetupPrepare,
            Phase::SetupSearch => PhaseView::SetupSearch,
            Phase::SetupProton => PhaseView::SetupProton,
            Phase::SetupProtonSave => PhaseView::SetupProtonSave,
            Phase::SetupGame => PhaseView::SetupGame,
            Phase::SetupGameSave => PhaseView::SetupGameSave,
            Phase::UpdateProbe(installed) => PhaseView::UpdateProbe(installed@),
            Phase::UpdateGame => PhaseView::UpdateGame,
            Phase::UpdateSave => PhaseView::UpdateSave,
            Phase::LastSave => PhaseView::LastSave,
            Phase::Compiler => PhaseView::Compiler,
            Phase::CompilerOff(error) => PhaseView::CompilerOff(error@),
            Phase::SignIn => PhaseView::SignIn,
            Phase::SecondFactor => PhaseView::SecondFactor,
            Phase::Lookup(token) => PhaseView::Lookup(token@),
            Phase::Keep(session) => PhaseView::Keep(session@),
            Phase::PlayPage => PhaseView::PlayPage,
            Phase::StudioInstall(token) => PhaseView::StudioInstall(token@),
            Phase::StudioSave(token) => PhaseView::StudioSave(token@),
            Phase::StudioLink => PhaseView::StudioLink,
            Phase::Launch => PhaseView::Launch,
        }
    }
}

/// What the launcher knows, and what it waits for.
#[derive(Debug)]
pub struct Ctx {
    pub paths: Paths,
    /// the architecture of the host
    pub arch: String,
    pub config: Config,
    pub session: Option<Session>,
    pub pending_2fa: Option<String>,
    /// what the user typed, kept because the account lookup can fail after a good login
    pub typed_username: String,
    pub selected_game: Option<u64>,
    /// a link that arrived before the game was installed
    pub pending_uri: Option<String>,
    pub phase: Phase,
}

/// What a [`Ctx`] says.
pub struct CtxView {
    pub paths: Paths,
    pub arch: Seq<char>,
    pub config: ConfigView,
    pub session: Option<SessionView>,
    pub pending_2fa: Option<Seq<char>>,
    pub typed_username: Seq<char>,
    pub selected_game: Option<u64>,
    pub pending_uri: Option<Seq<char>>,
    pub phase: PhaseView,
}

impl View for Ctx {
    type V = CtxView;

    open spec fn view(&self) -> CtxView {
        CtxView {
            paths: self.paths,
            arch: self.arch@,
            config: self.config@,
            session: inside(self.session),
            pending_2fa: text_in(self.pending_2fa),
            typed_username: self.typed_username@,
            selected_game: self.selected_game,
            pending_uri: text_in(self.pending_uri),
            phase: self.phase@,
        }
    }
}

/// Where an event leads: what is known then, what is shown and logged, and what to do.
pub struct TurnView {
    pub ctx: CtxView,
    pub shared: SharedView,
    pub action: ActionView,
}

/// The reasons from the `i`th on, each after a colon.
pub open spec fn reasons_from(causes: Seq<CauseView>, i: int) -> Seq<char>
    decreases causes.len() - i,
{
    if i >= causes.len() {
        seq![]
    } else {
        ": "@ + cause_text(causes[i]) + reasons_from(causes, i + 1)
    }
}

/// A failure on one line, so that the cause is shown and not just the outermost reason.
pub open spec fn described(causes: Seq<CauseView>) -> Seq<char> {
    if causes.len() == 0 {
        "unknown error"@
    } else {
        cause_text(causes[0]) + reasons_from(causes, 1)
    }
}

/// A failure on one line.
pub fn describe(err: &Error) -> (text: String)
    ensures
        text@ == described(err@),
{
    if err.causes.len() == 0 {
        return "unknown error".to_owned();
    }
    let mut text = err.causes[0].text();
    let mut i: usize = 1;
    assert(err@[0] == err.causes@[0]@);
    while i < err.causes.len()
        invariant
            1 <= i <= err.causes.len(),
            text@ + reasons_from(err@, i as int) == described(err@),
        decreases err.causes.len() - i,
    {
        let ghost before = text@;
        assert(err@[i as int] == err.causes@[i as int]@);
        text = text.concat(": ").concat(err.causes[i].text().as_str());
        assert(before + (": "@ + cause_text(err@[i as int]) + reasons_from(err@, i + 1))
            =~= text@ + reasons_from(err@, i + 1));
        i += 1;
    }
    assert(text@ + reasons_from(err@, i as int) =~= text@);
    text
}

/// Whether a failure says that the session is over.
pub open spec fn session_over(causes: Seq<CauseView>) -> bool {
    exists|i: int|
        0 <= i < causes.len() && begins(cause_text(#[trigger] causes[i]), "session expired"@)
}

/// Whether a failure says that the session is over.
pub fn expired(err: &Error) -> (b: bool)
    ensures
        b == session_over(err@),
{
    let mut i: usize = 0;
    while i < err.causes.len()
        invariant
            i <= err.causes.len(),
            forall|j: int|
                0 <= j < i ==> !begins(cause_text(#[trigger] err@[j]), "session expired"@),
        decreases err.causes.len() - i,
    {
        assert(err@[i as int] == err.causes@[i as int]@);
        if starts_with(err.causes[i].text().as_str(), "session expired") {
            return true;
        }
        i += 1;
    }
    false
}

impl Ranked for GameRow {
    /// The game with the most players comes first, then it goes by name.
    open spec fn precedes(a: GameRowView, b: GameRowView) -> bool {
        a.players > b.players || (a.players == b.players && in_order(a.name, b.name))
    }

    proof fn total(a: GameRowView, b: GameRowView) {
        in_order_total(a.name, b.name);
    }

    proof fn transitive(a: GameRowView, b: GameRowView, c: GameRowView) {
        if a.players == b.players && b.players == c.players {
            in_order_transitive(a.name, b.name, c.name);
        }
    }

    fn may_precede(&self, other: &GameRow) -> (b: bool) {
        self.players > other.players || (self.players == other.players && ordered(
            self.name.as_str(),
            other.name.as_str(),
        ))
    }
}

/// A game as it is listed.
pub open spec fn row_of(game: GameView) -> GameRowView {
    GameRowView { id: game.id, name: game.name, players: game.players }
}

/// The games as they are listed: those with the most players first, then by name.
pub open spec fn rows_of(games: Seq<GameView>) -> Seq<GameRowView> {
    arranged::<GameRow>(games.map_values(|game: GameView| row_of(game)))
}

fn list_games(games: Vec<Game>) -> (rows: Vec<GameRow>)
    ensures
        views(rows@) == rows_of(crate::auth::games_view(games@)),
{
    let ghost given = crate::auth::games_view(games@);
    let mut rows: Vec<GameRow> = Vec::new();
    let mut i: usize = 0;
    while i < games.len()
        invariant
            i <= games.len(),
            rows@.len() == i,
            forall|j: int| 0 <= j < i ==> #[trigger] rows@[j]@ == row_of(games@[j]@),
        decreases games.len() - i,
    {
        rows.push(
            GameRow {
                id: games[i].id,
                name: games[i].name.clone(),
                players: games[i].players,
            },
        );
        i += 1;
    }
    assert(views(rows@) =~= given.map_values(|game: GameView| row_of(game)));
    sort(rows)
}

impl CtxView {
    /// Waits for what `action` leads to.
    pub open spec fn turn(self, phase: PhaseView, shared: SharedView, action: ActionView) -> TurnView {
        TurnView { ctx: CtxView { phase, ..self }, shared, action }
    }

    /// The job is over. A job that the user stopped did not fail.
    pub open spec fn concluded(
        self,
        shared: SharedView,
        result: Result<(), Seq<CauseView>>,
    ) -> TurnView {
        self.turn(
            PhaseView::Idle,
            match result {
                Ok(_) => shared.finished(),
                Err(causes) => if causes.contains(CauseView::Cancelled) {
                    shared.logged("cancelled"@).finished()
                } else {
                    shared.failed(described(causes))
                },
            },
            ActionView::Rest,
        )
    }

    /// The job is over, for this reason.
    pub open spec fn refused(self, shared: SharedView, why: Seq<char>) -> TurnView {
        self.concluded(shared, Err(failure(why)))
    }

    /// What is known is shown.
    pub open spec fn published(self, shared: SharedView, disk: Disk) -> SharedView {
        shared.with(
            StatusView {
                game_ready: self.config.has_game(disk),
                studio_ready: self.config.has_studio(disk),
                proton_ready: self.config.has_proton(self.arch, disk),
                proton_name: match self.config.proton {
                    Some(proton) => Some(proton.name),
                    None => None,
                },
                allow_self_update: self.config.allow_self_update,
                native_shader_compiler: self.config.native_shader_compiler,
                account: match self.session {
                    Some(session) => Some(session.username),
                    None => None,
                },
                ..shared.status
            },
        )
    }

    /// With another configuration.
    pub open spec fn configured(self, config: ConfigView) -> CtxView {
        CtxView { config, ..self }
    }

    /// A program is started with a link.
    pub open spec fn launching(self, shared: SharedView, target: Target, uri: Seq<char>) -> TurnView {
        self.turn(PhaseView::Launch, shared, ActionView::Launch(target, uri))
    }

    /// The games are asked for.
    pub open spec fn loading(self, shared: SharedView) -> TurnView {
        self.turn(
            PhaseView::Games,
            shared.begun(Task::LoadingGames),
            ActionView::Fetch(
                fetch(Manner::Account, "https://playvortex.io/api/games"@, seq![]),
            ),
        )
    }

    /// The games came, or did not. The first is selected where none is.
    pub open spec fn loaded(
        self,
        shared: SharedView,
        games: Result<Seq<GameView>, Seq<CauseView>>,
    ) -> TurnView {
        match games {
            Err(causes) => self.concluded(shared, Err(causes)),
            Ok(games) => self.concluded(
                shared.with(shared.status.listing(rows_of(games))),
                Ok(()),
            ),
        }
    }
}

/// Whether a job went on as `turn` says.
pub open spec fn went(ctx: Ctx, shared: SharedView, action: Action, turn: TurnView) -> bool {
    ctx@ == turn.ctx && shared == turn.shared && action@ == turn.action
}

impl Ctx {
    fn conclude(&mut self, shared: &mut Shared, result: Result<(), Error>) -> (action: Action)
        ensures
            went(
                *final(self),
                final(shared)@,
                action,
                old(self)@.concluded(old(shared)@, settled(result)),
            ),
    {
        match result {
            Ok(_) => {
                shared.finish();
            },
            Err(err) => {
                if is_cancelled(&err) {
                    shared.log("cancelled".to_owned());
                    shared.finish();
                } else {
                    shared.fail(describe(&err));
                }
            },
        }
        self.phase = Phase::Idle;
        Action::Rest
    }

    fn refuse(&mut self, shared: &mut Shared, why: &str) -> (action: Action)
        ensures
            went(*final(self), final(shared)@, action, old(self)@.refused(old(shared)@, why@)),
    {
        self.conclude(shared, Err(Error::says(why)))
    }

    /// Shows what is known.
    pub fn publish(&self, shared: &mut Shared, disk: &Disk)
        ensures
            final(shared)@ == self@.published(old(shared)@, *disk),
    {
        let game_ready = self.config.game_ready(disk);
        let studio_ready = self.config.studio_ready(disk);
        let proton_ready = self.config.proton_ready(self.arch.as_str(), disk);
        let proton_name = match &self.config.proton {
            Some(proton) => Some(proton.name.clone()),
            None => None,
        };
        let account = match &self.session {
            Some(session) => Some(session.username.clone()),
            None => None,
        };
        shared.status.show(
            Facts {
                game_ready,
                studio_ready,
                proton_ready,
                proton_name,
                allow_self_update: self.config.allow_self_update,
                native_shader_compiler: self.config.native_shader_compiler,
                account,
            },
        );
    }

    fn launch(&mut self, target: Target, uri: String) -> (action: Action)
        ensures
            final(self)@ == (CtxView { phase: PhaseView::Launch, ..old(self)@ }),
            action@ == ActionView::Launch(target, uri@),
    {
        self.phase = Phase::Launch;
        Action::Launch(target, uri)
    }

    fn load_games(&mut self, shared: &mut Shared) -> (action: Action)
        ensures
            went(*final(self), final(shared)@, action, old(self)@.loading(old(shared)@)),
    {
        shared.begin(Task::LoadingGames);
        self.phase = Phase::Games;
        Action::Fetch(games_request())
    }

    fn games_came(&mut self, shared: &mut Shared, games: Result<Vec<Game>, Error>) -> (action: Action)
        ensures
            went(
                *final(self),
                final(shared)@,
                action,
                old(self)@.loaded(old(shared)@, crate::auth::games_said(games)),
            ),
    {
        match games {
            Err(err) => self.conclude(shared, Err(err)),
            Ok(games) => {
                shared.status.list(list_games(games));
                self.conclude(shared, Ok(()))
            },
        }
    }
}

impl CtxView {
    /// The launcher looks at what is installed.
    pub open spec fn detecting(self, shared: SharedView) -> TurnView {
        self.turn(PhaseView::DetectPrepare, shared.begun(Task::Detecting), ActionView::Prepare)
    }

    /// What is no longer there is dropped from the configuration. A prefix that was made anew takes
    /// the compiler with it, and the option must not claim a fix that is not in effect.
    pub open spec fn checked(self, disk: Disk) -> CtxView {
        self.configured(
            ConfigView {
                native_shader_compiler: self.config.native_shader_compiler && native(
                    self.paths,
                    disk,
                ),
                game: if self.config.has_game(disk) {
                    self.config.game
                } else {
                    None
                },
                studio: if self.config.has_studio(disk) {
                    self.config.studio
                } else {
                    None
                },
                ..self.config
            },
        )
    }

    /// The directories are there, or not.
    pub open spec fn detect_prepared(
        self,
        shared: SharedView,
        result: Result<(), Seq<CauseView>>,
        disk: Disk,
    ) -> TurnView {
        match result {
            Err(causes) => self.concluded(shared, Err(causes)),
            Ok(_) => {
                let told = if self.config.native_shader_compiler && !native(self.paths, disk) {
                    shared.logged(
                        "native d3dcompiler_47 is not in the prefix, turning the option back off"@,
                    )
                } else {
                    shared
                };
                let ctx = self.checked(disk);
                if ctx.config.has_proton(ctx.arch, disk) {
                    ctx.detect_saving(told, disk)
                } else {
                    ctx.turn(PhaseView::DetectSearch, told, ActionView::Search)
                }
            },
        }
    }

    /// The Proton build that was found is put to use.
    pub open spec fn with_proton(
        self,
        steam: Seq<Seq<char>>,
        host: Option<(u32, u32)>,
        disk: Disk,
    ) -> CtxView {
        let builds = found_builds(joined(self.paths.data@, "proton"@), steam, self.arch, disk);
        self.configured(
            ConfigView {
                proton: match preferred(builds, host) {
                    Some(build) => Some(build.installed()),
                    None => None,
                },
                ..self.config
            },
        )
    }

    /// The Proton builds were looked at.
    pub open spec fn detect_searched(
        self,
        shared: SharedView,
        steam: Seq<Seq<char>>,
        host: Option<(u32, u32)>,
        disk: Disk,
    ) -> TurnView {
        let ctx = self.with_proton(steam, host, disk);
        ctx.detect_saving(
            match ctx.config.proton {
                Some(proton) => shared.logged("found "@ + proton.name),
                None => shared,
            },
            disk,
        )
    }

    /// What was found is shown and saved.
    pub open spec fn detect_saving(self, shared: SharedView, disk: Disk) -> TurnView {
        self.turn(PhaseView::DetectSave, self.published(shared, disk), ActionView::Save)
    }

    /// The account of the stored session is looked up, where there is one.
    pub open spec fn detect_saved(
        self,
        shared: SharedView,
        result: Result<(), Seq<CauseView>>,
    ) -> TurnView {
        match (result, self.session) {
            (Err(causes), _) => self.concluded(shared, Err(causes)),
            (Ok(_), None) => self.concluded(shared, Ok(())),
            (Ok(_), Some(stored)) => self.turn(
                PhaseView::DetectAccount(stored),
                shared,
                ActionView::Fetch(
                    as_session("https://playvortex.io/api/users/me"@, stored.token),
                ),
            ),
        }
    }

    /// The account of the stored session came, or did not. Neither a refusal nor being offline is
    /// proof that the session is over: the play page decides.
    pub open spec fn detect_known(
        self,
        shared: SharedView,
        stored: SessionView,
        account: Result<AccountView, Seq<CauseView>>,
        disk: Disk,
    ) -> TurnView {
        match account {
            Ok(account) => {
                let ctx = CtxView {
                    session: Some(
                        SessionView {
                            token: stored.token,
                            username: account.username,
                            user_id: account.id,
                        },
                    ),
                    ..self
                };
                ctx.loading(
                    ctx.published(shared.logged("signed in as "@ + account.username), disk),
                )
            },
            Err(causes) => self.loading(
                self.published(
                    shared.logged("account check failed: "@ + described(causes)),
                    disk,
                ),
            ),
        }
    }

    /// What is missing is installed, as the first thing the directories.
    pub open spec fn setting_up(self, shared: SharedView) -> TurnView {
        self.turn(PhaseView::SetupPrepare, shared, ActionView::Prepare)
    }

    /// The directories are there, or not.
    pub open spec fn setup_prepared(
        self,
        shared: SharedView,
        result: Result<(), Seq<CauseView>>,
        disk: Disk,
    ) -> TurnView {
        match result {
            Err(causes) => self.concluded(shared, Err(causes)),
            Ok(_) => if self.config.has_proton(self.arch, disk) {
                self.setup_game(shared, disk)
            } else {
                self.turn(PhaseView::SetupSearch, shared, ActionView::Search)
            },
        }
    }

    /// The Proton builds were looked at. Where none can be used, one is installed.
    pub open spec fn setup_searched(
        self,
        shared: SharedView,
        steam: Seq<Seq<char>>,
        host: Option<(u32, u32)>,
        disk: Disk,
    ) -> TurnView {
        let ctx = self.with_proton(steam, host, disk);
        if ctx.config.has_proton(ctx.arch, disk) {
            ctx.setup_game(shared, disk)
        } else {
            ctx.turn(
                PhaseView::SetupProton,
                shared.begun(Task::InstallingProton),
                ActionView::InstallProton(ctx.config.proton_wanted),
            )
        }
    }

    /// Proton was installed, or not.
    pub open spec fn setup_got_proton(
        self,
        shared: SharedView,
        result: Result<ProtonInstallView, Seq<CauseView>>,
    ) -> TurnView {
        match result {
            Err(causes) => self.concluded(shared, Err(causes)),
            Ok(proton) => self.configured(
                ConfigView { proton: Some(proton), ..self.config },
            ).turn(PhaseView::SetupProtonSave, shared, ActionView::Save),
        }
    }

    /// That Proton is installed was saved, or not.
    pub open spec fn setup_saved_proton(
        self,
        shared: SharedView,
        result: Result<(), Seq<CauseView>>,
        disk: Disk,
    ) -> TurnView {
        match result {
            Err(causes) => self.concluded(shared, Err(causes)),
            Ok(_) => self.setup_game(self.published(shared, disk), disk),
        }
    }

    /// The game is installed where it is not there.
    pub open spec fn setup_game(self, shared: SharedView, disk: Disk) -> TurnView {
        if self.config.has_game(disk) {
            self.set_up(shared, disk)
        } else {
            self.turn(
                PhaseView::SetupGame,
                shared.begun(Task::InstallingGame),
                ActionView::InstallGame,
            )
        }
    }

    /// With this game installed.
    pub open spec fn with_game(self, game: GameInstallView) -> CtxView {
        self.configured(ConfigView { game: Some(game), ..self.config })
    }

    /// The game was installed, or not; then that is saved.
    pub open spec fn got_game(
        self,
        shared: SharedView,
        result: Result<GameInstallView, Seq<CauseView>>,
        phase: PhaseView,
    ) -> TurnView {
        match result {
            Err(causes) => self.concluded(shared, Err(causes)),
            Ok(game) => self.with_game(game).turn(phase, shared, ActionView::Save),
        }
    }

    /// That the game is installed was saved, or not.
    pub open spec fn setup_saved_game(
        self,
        shared: SharedView,
        result: Result<(), Seq<CauseView>>,
        disk: Disk,
    ) -> TurnView {
        match result {
            Err(causes) => self.concluded(shared, Err(causes)),
            Ok(_) => self.set_up(shared, disk),
        }
    }

    /// What is known, with no update to get.
    pub open spec fn published_current(self, shared: SharedView, disk: Disk) -> SharedView {
        let shown = self.published(shared, disk);
        shown.with(StatusView { update_available: false, ..shown.status })
    }

    /// All is installed. A link that waited for that is opened.
    pub open spec fn set_up(self, shared: SharedView, disk: Disk) -> TurnView {
        let shown = self.published_current(shared, disk);
        match self.pending_uri {
            Some(uri) => CtxView { pending_uri: None, ..self }.opening(shown, uri, disk),
            None => self.concluded(shown, Ok(())),
        }
    }

    /// A link is opened, or kept until all is installed.
    pub open spec fn opening(self, shared: SharedView, uri: Seq<char>, disk: Disk) -> TurnView {
        if !launchable(uri, "vortex://"@) {
            self.refused(shared, "that link is not a vortex:// launch link"@)
        } else if !self.config.has_game(disk) || !self.config.has_proton(self.arch, disk) {
            CtxView { pending_uri: Some(uri), ..self }.refused(
                shared.logged("link received, but nothing is installed yet"@),
                "install Vortex first, then the link will open"@,
            )
        } else {
            self.launching(
                shared.begun(Task::Launching).logged("opening a link from the browser"@),
                Target::Game,
                uri,
            )
        }
    }
}

impl Ctx {
    /// Looks at what is installed.
    pub fn detect(&mut self, shared: &mut Shared) -> (action: Action)
        ensures
            went(*final(self), final(shared)@, action, old(self)@.detecting(old(shared)@)),
    {
        shared.begin(Task::Detecting);
        self.phase = Phase::DetectPrepare;
        Action::Prepare
    }

    fn detect_save(&mut self, shared: &mut Shared, disk: &Disk) -> (action: Action)
        ensures
            went(
                *final(self),
                final(shared)@,
                action,
                old(self)@.detect_saving(old(shared)@, *disk),
            ),
    {
        self.publish(shared, disk);
        self.phase = Phase::DetectSave;
        Action::Save
    }

    fn detect_go(&mut self, shared: &mut Shared, result: Result<(), Error>, disk: &Disk) -> (action:
        Action)
        ensures
            went(
                *final(self),
                final(shared)@,
                action,
                old(self)@.detect_prepared(old(shared)@, settled(result), *disk),
            ),
    {
        if let Err(err) = result {
            return self.conclude(shared, Err(err));
        }
        let has_game = self.config.game_ready(disk);
        let has_studio = self.config.studio_ready(disk);
        if self.config.native_shader_compiler && !is_installed(&self.paths, disk) {
            self.config.native_shader_compiler = false;
            shared.log(
                "native d3dcompiler_47 is not in the prefix, turning the option back off".to_owned(),
            );
        }
        if !has_game {
            self.config.game = None;
        }
        if !has_studio {
            self.config.studio = None;
        }
        assert(self@ == old(self)@.checked(*disk));
        if self.config.proton_ready(self.arch.as_str(), disk) {
            self.detect_save(shared, disk)
        } else {
            self.phase = Phase::DetectSearch;
            Action::Search
        }
    }

    fn use_proton(&mut self, steam: &Vec<String>, host: Option<(u32, u32)>, disk: &Disk)
        ensures
            final(self)@ == old(self)@.with_proton(texts(steam@), host, *disk),
    {
        self.config.proton = detect(&self.paths, steam, self.arch.as_str(), host, disk);
    }

    fn detect_found(
        &mut self,
        shared: &mut Shared,
        steam: &Vec<String>,
        host: Option<(u32, u32)>,
        disk: &Disk,
    ) -> (action: Action)
        ensures
            went(
                *final(self),
                final(shared)@,
                action,
                old(self)@.detect_searched(old(shared)@, texts(steam@), host, *disk),
            ),
    {
        self.use_proton(steam, host, disk);
        if let Some(proton) = &self.config.proton {
            shared.log("found ".to_owned().concat(proton.name.as_str()));
        }
        self.detect_save(shared, disk)
    }

    fn detect_on(&mut self, shared: &mut Shared, result: Result<(), Error>) -> (action: Action)
        ensures
            went(
                *final(self),
                final(shared)@,
                action,
                old(self)@.detect_saved(old(shared)@, settled(result)),
            ),
    {
        if let Err(err) = result {
            return self.conclude(shared, Err(err));
        }
        let stored = match &self.session {
            Some(session) => session.clone(),
            None => {
                return self.conclude(shared, Ok(()));
            },
        };
        let request = account_request(stored.token.as_str());
        self.phase = Phase::DetectAccount(stored);
        Action::Fetch(request)
    }

    fn detect_end(
        &mut self,
        shared: &mut Shared,
        stored: Session,
        account: Result<Account, Error>,
        disk: &Disk,
    ) -> (action: Action)
        ensures
            went(
                *final(self),
                final(shared)@,
                action,
                old(self)@.detect_known(old(shared)@, stored@, said(account), *disk),
            ),
    {
        match account {
            Ok(account) => {
                shared.log("signed in as ".to_owned().concat(account.username.as_str()));
                self.session = Some(
                    Session {
                        token: stored.token,
                        username: account.username,
                        user_id: account.id,
                    },
                );
            },
            Err(err) => {
                shared.log("account check failed: ".to_owned().concat(describe(&err).as_str()));
            },
        }
        self.publish(shared, disk);
        self.load_games(shared)
    }

    /// Installs what is missing.
    pub fn setup(&mut self) -> (action: Action)
        ensures
            final(self)@ == (CtxView { phase: PhaseView::SetupPrepare, ..old(self)@ }),
            action@ == ActionView::Prepare,
    {
        self.phase = Phase::SetupPrepare;
        Action::Prepare
    }

    /// Opens a link, or keeps it until all is installed.
    pub fn play_uri(&mut self, shared: &mut Shared, uri: String, disk: &Disk) -> (action: Action)
        ensures
            went(
                *final(self),
                final(shared)@,
                action,
                old(self)@.opening(old(shared)@, uri@, *disk),
            ),
    {
        if !is_launch_uri(uri.as_str()) {
            return self.refuse(shared, "that link is not a vortex:// launch link");
        }
        if !self.config.game_ready(disk) || !self.config.proton_ready(self.arch.as_str(), disk) {
            shared.log("link received, but nothing is installed yet".to_owned());
            self.pending_uri = Some(uri);
            return self.refuse(shared, "install Vortex first, then the link will open");
        }
        shared.begin(Task::Launching);
        shared.log("opening a link from the browser".to_owned());
        self.launch(Target::Game, uri)
    }

    fn publish_current(&self, shared: &mut Shared, disk: &Disk)
        ensures
            final(shared)@ == self@.published_current(old(shared)@, *disk),
    {
        self.publish(shared, disk);
        shared.status.update_available = false;
    }

    fn setup_end(&mut self, shared: &mut Shared, disk: &Disk) -> (action: Action)
        ensures
            went(*final(self), final(shared)@, action, old(self)@.set_up(old(shared)@, *disk)),
    {
        self.publish_current(shared, disk);
        match self.pending_uri.take() {
            Some(uri) => self.play_uri(shared, uri, disk),
            None => self.conclude(shared, Ok(())),
        }
    }

    fn setup_game(&mut self, shared: &mut Shared, disk: &Disk) -> (action: Action)
        ensures
            went(*final(self), final(shared)@, action, old(self)@.setup_game(old(shared)@, *disk)),
    {
        if self.config.game_ready(disk) {
            self.setup_end(shared, disk)
        } else {
            shared.begin(Task::InstallingGame);
            self.phase = Phase::SetupGame;
            Action::InstallGame
        }
    }

    fn setup_go(&mut self, shared: &mut Shared, result: Result<(), Error>, disk: &Disk) -> (action:
        Action)
        ensures
            went(
                *final(self),
                final(shared)@,
                action,
                old(self)@.setup_prepared(old(shared)@, settled(result), *disk),
            ),
    {
        if let Err(err) = result {
            return self.conclude(shared, Err(err));
        }
        if self.config.proton_ready(self.arch.as_str(), disk) {
            self.setup_game(shared, disk)
        } else {
            self.phase = Phase::SetupSearch;
            Action::Search
        }
    }

    fn setup_found(
        &mut self,
        shared: &mut Shared,
        steam: &Vec<String>,
        host: Option<(u32, u32)>,
        disk: &Disk,
    ) -> (action: Action)
        ensures
            went(
                *final(self),
                final(shared)@,
                action,
                old(self)@.setup_searched(old(shared)@, texts(steam@), host, *disk),
            ),
    {
        self.use_proton(steam, host, disk);
        if self.config.proton_ready(self.arch.as_str(), disk) {
            return self.setup_game(shared, disk);
        }
        shared.begin(Task::InstallingProton);
        self.phase = Phase::SetupProton;
        Action::InstallProton(copied(&self.config.proton_wanted))
    }

    fn setup_proton(&mut self, shared: &mut Shared, result: Result<ProtonInstall, Error>) -> (action:
        Action)
        ensures
            went(
                *final(self),
                final(shared)@,
                action,
                old(self)@.setup_got_proton(old(shared)@, said(result)),
            ),
    {
        match result {
            Err(err) => self.conclude(shared, Err(err)),
            Ok(proton) => {
                self.config.proton = Some(proton);
                self.phase = Phase::SetupProtonSave;
                Action::Save
            },
        }
    }

    fn setup_on(&mut self, shared: &mut Shared, result: Result<(), Error>, disk: &Disk) -> (action:
        Action)
        ensures
            went(
                *final(self),
                final(shared)@,
                action,
                old(self)@.setup_saved_proton(old(shared)@, settled(result), *disk),
            ),
    {
        if let Err(err) = result {
            return self.conclude(shared, Err(err));
        }
        self.publish(shared, disk);
        self.setup_game(shared, disk)
    }

    fn game_came(&mut self, shared: &mut Shared, result: Result<GameInstall, Error>, phase: Phase) -> (
    action: Action)
        ensures
            went(
                *final(self),
                final(shared)@,
                action,
                old(self)@.got_game(old(shared)@, said(result), phase@),
            ),
    {
        match result {
            Err(err) => self.conclude(shared, Err(err)),
            Ok(game) => {
                self.config.game = Some(game);
                self.phase = phase;
                Action::Save
            },
        }
    }

    fn setup_last(&mut self, shared: &mut Shared, result: Result<(), Error>, disk: &Disk) -> (
    action: Action)
        ensures
            went(
                *final(self),
                final(shared)@,
                action,
                old(self)@.setup_saved_game(old(shared)@, settled(result), *disk),
            ),
    {
        if let Err(err) = result {
            return self.conclude(shared, Err(err));
        }
        self.setup_end(shared, disk)
    }
}

impl CtxView {
    /// The server is asked for its build of the game, or all is installed where there is no game.
    pub open spec fn checking(self, shared: SharedView) -> TurnView {
        let begun = shared.begun(Task::CheckingUpdate);
        match self.config.game {
            None => self.setting_up(begun),
            Some(installed) => self.turn(
                PhaseView::UpdateProbe(installed),
                begun,
                ActionView::Fetch(probing("https://playvortex.io/download/windows"@, None)),
            ),
        }
    }

    /// The server said which build it has, or not. Another one than is installed is downloaded.
    pub open spec fn update_probed(
        self,
        shared: SharedView,
        installed: GameInstallView,
        remote: Result<RemoteView, Seq<CauseView>>,
    ) -> TurnView {
        match remote {
            Err(causes) => self.concluded(shared, Err(causes)),
            Ok(remote) => if remote.differs(
                installed.etag,
                installed.last_modified,
                installed.size,
            ) {
                self.turn(
                    PhaseView::UpdateGame,
                    shared.logged("new vortex build, downloading"@).begun(Task::InstallingGame),
                    ActionView::InstallGame,
                )
            } else {
                let told = shared.logged("vortex is up to date"@);
                self.concluded(
                    told.with(StatusView { update_available: false, ..told.status }),
                    Ok(()),
                )
            },
        }
    }

    /// The update was saved, or not.
    pub open spec fn update_saved(
        self,
        shared: SharedView,
        result: Result<(), Seq<CauseView>>,
        disk: Disk,
    ) -> TurnView {
        match result {
            Err(causes) => self.concluded(shared, Err(causes)),
            Ok(_) => self.concluded(self.published_current(shared, disk), Ok(())),
        }
    }

    /// The game may update itself, or may not.
    pub open spec fn setting_self_update(self, shared: SharedView, value: bool, disk: Disk) -> TurnView {
        let ctx = self.configured(ConfigView { allow_self_update: value, ..self.config });
        ctx.turn(PhaseView::LastSave, ctx.published(shared, disk), ActionView::Save)
    }

    /// With Microsoft's shader compiler in use, or not.
    pub open spec fn with_compiler(self, value: bool) -> CtxView {
        self.configured(ConfigView { native_shader_compiler: value, ..self.config })
    }

    /// Microsoft's shader compiler is to be used, or not. It is fetched first where it is missing.
    pub open spec fn setting_compiler(self, shared: SharedView, value: bool, disk: Disk) -> TurnView {
        let ctx = self.with_compiler(value);
        let shown = ctx.published(shared, disk);
        if value && !native(self.paths, disk) {
            ctx.turn(
                PhaseView::Compiler,
                shown.begun(Task::InstallingCompiler),
                ActionView::InstallCompiler,
            )
        } else {
            ctx.turn(PhaseView::LastSave, shown, ActionView::Save)
        }
    }

    /// The compiler is there, or not; in that case the option goes off again.
    pub open spec fn compiler_tried(
        self,
        shared: SharedView,
        result: Result<(), Seq<CauseView>>,
        disk: Disk,
    ) -> TurnView {
        match result {
            Ok(_) => self.turn(PhaseView::LastSave, shared, ActionView::Save),
            Err(causes) => {
                let ctx = self.with_compiler(false);
                ctx.turn(
                    PhaseView::CompilerOff(causes),
                    ctx.published(shared, disk),
                    ActionView::Save,
                )
            },
        }
    }

    /// The option is off again.
    pub open spec fn compiler_off(self, shared: SharedView, causes: Seq<CauseView>) -> TurnView {
        self.concluded(
            shared,
            Err(
                failure("could not install the shader compiler, the option stayed off"@) + causes,
            ),
        )
    }

    /// The user signs in.
    pub open spec fn signing(
        self,
        shared: SharedView,
        username: Seq<char>,
        password: Seq<char>,
    ) -> TurnView {
        let begun = shared.begun(Task::SigningIn);
        CtxView { typed_username: username, ..self }.turn(
            PhaseView::SignIn,
            begun.with(StatusView { auth_error: None, ..begun.status }),
            ActionView::Fetch(signing_in(username, password)),
        )
    }

    /// A refused login is the server talking to the user, not a failure of the launcher.
    pub open spec fn sign_in_refused(self, shared: SharedView, causes: Seq<CauseView>) -> TurnView {
        let message = described(causes);
        let told = shared.logged("sign in refused: "@ + message);
        self.concluded(
            told.with(StatusView { auth_error: Some(message), ..told.status }),
            Ok(()),
        )
    }

    /// The server answered the login.
    pub open spec fn signed(
        self,
        shared: SharedView,
        login: Result<LoginView, Seq<CauseView>>,
    ) -> TurnView {
        match login {
            Ok(LoginView::Done(token)) => self.looking_up(shared, token),
            Ok(LoginView::Needs2fa(pending)) => CtxView {
                pending_2fa: Some(pending),
                ..self
            }.concluded(shared.with(StatusView { needs_2fa: true, ..shared.status }), Ok(())),
            Err(causes) => self.sign_in_refused(shared, causes),
        }
    }

    /// The user gives the two-factor code.
    pub open spec fn submitting(self, shared: SharedView, code: Seq<char>) -> TurnView {
        let begun = shared.begun(Task::SigningIn);
        match self.pending_2fa {
            None => self.refused(begun, "the two-factor step expired, sign in again"@),
            Some(pending) => self.turn(
                PhaseView::SecondFactor,
                begun,
                ActionView::Fetch(giving_code(pending, code)),
            ),
        }
    }

    /// The server answered the two-factor code.
    pub open spec fn submitted(
        self,
        shared: SharedView,
        login: Result<LoginView, Seq<CauseView>>,
    ) -> TurnView {
        match login {
            Ok(LoginView::Done(token)) => CtxView { pending_2fa: None, ..self }.looking_up(
                shared.with(StatusView { needs_2fa: false, ..shared.status }),
                token,
            ),
            Ok(LoginView::Needs2fa(_)) => self.concluded(
                shared.with(
                    StatusView {
                        auth_error: Some("that code was not accepted"@),
                        ..shared.status
                    },
                ),
                Ok(()),
            ),
            Err(causes) => self.sign_in_refused(shared, causes),
        }
    }

    /// The account of the session that just began is looked up.
    pub open spec fn looking_up(self, shared: SharedView, token: Seq<char>) -> TurnView {
        self.turn(
            PhaseView::Lookup(token),
            shared,
            ActionView::Fetch(as_session("https://playvortex.io/api/users/me"@, token)),
        )
    }

    /// The account came, or did not. The login succeeded, so a failing lookup must not undo it.
    pub open spec fn looked_up(
        self,
        shared: SharedView,
        token: Seq<char>,
        account: Result<AccountView, Seq<CauseView>>,
    ) -> TurnView {
        let session = match account {
            Ok(account) => SessionView { token, username: account.username, user_id: account.id },
            Err(_) => SessionView { token, username: self.typed_username, user_id: 0 },
        };
        self.turn(
            PhaseView::Keep(session),
            match account {
                Ok(_) => shared,
                Err(causes) => shared.logged("account lookup failed: "@ + described(causes)),
            },
            ActionView::Keep(session),
        )
    }

    /// The session was stored, or not.
    pub open spec fn kept(
        self,
        shared: SharedView,
        session: SessionView,
        result: Result<(), Seq<CauseView>>,
        disk: Disk,
    ) -> TurnView {
        match result {
            Err(causes) => self.concluded(shared, Err(causes)),
            Ok(_) => {
                let ctx = CtxView { session: Some(session), ..self };
                ctx.loading(
                    ctx.published(
                        shared.with(
                            StatusView { auth_error: None, needs_2fa: false, ..shared.status },
                        ).logged("signed in as "@ + session.username),
                        disk,
                    ),
                )
            },
        }
    }

    /// The stored session is to be removed.
    pub open spec fn forgetting(turn: TurnView) -> TurnView {
        TurnView { action: ActionView::Forget, ..turn }
    }

    /// The user signs out.
    pub open spec fn signing_out(self, shared: SharedView) -> TurnView {
        CtxView::forgetting(
            CtxView {
                session: None,
                pending_2fa: None,
                selected_game: None,
                ..self
            }.concluded(
                shared.with(
                    StatusView {
                        account: None,
                        needs_2fa: false,
                        auth_error: None,
                        games: seq![],
                        selected_game: None,
                        ..shared.status
                    },
                ).logged("signed out"@),
                Ok(()),
            ),
        )
    }

    /// The user picks a game.
    pub open spec fn selecting(self, shared: SharedView, id: u64) -> TurnView {
        CtxView { selected_game: Some(id), ..self }.concluded(
            shared.with(StatusView { selected_game: Some(id), ..shared.status }),
            Ok(()),
        )
    }

    /// The game that is played: the one picked here, or the one shown as picked, or the first ever.
    pub open spec fn game_to_play(self, shared: SharedView) -> u64 {
        match (self.selected_game, shared.status.selected_game) {
            (Some(id), _) => id,
            (None, Some(id)) => id,
            (None, None) => 1,
        }
    }

    /// The user wants to play.
    pub open spec fn playing(self, shared: SharedView) -> TurnView {
        let begun = shared.begun(Task::Launching);
        match self.session {
            None => self.refused(begun, "sign in first"@),
            Some(session) => self.turn(
                PhaseView::PlayPage,
                begun.detailed("asking the server for a launch link"@),
                ActionView::Fetch(
                    as_session(play_page(self.game_to_play(begun), None), session.token),
                ),
            ),
        }
    }

    /// The launch link came, or did not. Where the session is over it is forgotten.
    pub open spec fn linked(
        self,
        shared: SharedView,
        target: Target,
        uri: Result<Seq<char>, Seq<CauseView>>,
        disk: Disk,
    ) -> TurnView {
        match uri {
            Ok(uri) => self.launching(shared, target, uri),
            Err(causes) => if session_over(causes) {
                let ctx = CtxView { session: None, ..self };
                CtxView::forgetting(
                    ctx.refused(
                        ctx.published(shared, disk),
                        "your session expired, sign in again"@,
                    ),
                )
            } else {
                self.concluded(shared, Err(causes))
            },
        }
    }

    /// The user opens the studio, which is installed first where it is not there.
    pub open spec fn opening_studio(self, shared: SharedView, disk: Disk) -> TurnView {
        match self.session {
            None => self.refused(
                shared,
                "sign in first, the studio download needs your account"@,
            ),
            Some(session) => if self.config.has_studio(disk) {
                self.linking_studio(shared, session.token)
            } else {
                self.configured(ConfigView { studio: None, ..self.config }).turn(
                    PhaseView::StudioInstall(session.token),
                    shared.begun(Task::InstallingStudio),
                    ActionView::InstallStudio(session.token),
                )
            },
        }
    }

    /// The studio was installed, or not.
    pub open spec fn got_studio(
        self,
        shared: SharedView,
        token: Seq<char>,
        result: Result<GameInstallView, Seq<CauseView>>,
    ) -> TurnView {
        match result {
            Err(causes) => self.concluded(shared, Err(causes)),
            Ok(studio) => self.configured(
                ConfigView { studio: Some(studio), ..self.config },
            ).turn(PhaseView::StudioSave(token), shared, ActionView::Save),
        }
    }

    /// That the studio is installed was saved, or not.
    pub open spec fn studio_saved(
        self,
        shared: SharedView,
        token: Seq<char>,
        result: Result<(), Seq<CauseView>>,
        disk: Disk,
    ) -> TurnView {
        match result {
            Err(causes) => self.concluded(shared, Err(causes)),
            Ok(_) => self.linking_studio(self.published(shared, disk), token),
        }
    }

    /// The studio's launch link is asked for.
    pub open spec fn linking_studio(self, shared: SharedView, token: Seq<char>) -> TurnView {
        self.turn(
            PhaseView::StudioLink,
            shared.begun(Task::LaunchingStudio).detailed("asking the server for a launch link"@),
            ActionView::LinkStudio(token),
        )
    }

    /// A link to the studio is opened.
    pub open spec fn opening_in_studio(
        self,
        shared: SharedView,
        uri: Seq<char>,
        disk: Disk,
    ) -> TurnView {
        if !launchable(uri, "vortex-studio://"@) {
            self.refused(shared, "that link is not a vortex-studio:// link"@)
        } else if !self.config.has_studio(disk) || !self.config.has_proton(self.arch, disk) {
            self.refused(
                shared.logged("studio link received, but the studio is not installed yet"@),
                "open the Studio from the launcher once to install it, then the link will work"@,
            )
        } else {
            self.launching(
                shared.begun(Task::LaunchingStudio).logged(
                    "opening a studio link from the browser"@,
                ),
                Target::Studio,
                uri,
            )
        }
    }
}

impl Ctx {
    /// Asks the server for its build of the game, or installs all where there is no game.
    pub fn check_update(&mut self, shared: &mut Shared) -> (action: Action)
        ensures
            went(*final(self), final(shared)@, action, old(self)@.checking(old(shared)@)),
    {
        shared.begin(Task::CheckingUpdate);
        let installed = match &self.config.game {
            Some(installed) => installed.clone(),
            None => {
                return self.setup();
            },
        };
        self.phase = Phase::UpdateProbe(installed);
        Action::Fetch(crate::game::ask())
    }

    fn update_go(
        &mut self,
        shared: &mut Shared,
        installed: GameInstall,
        remote: Result<crate::net::Remote, Error>,
    ) -> (action: Action)
        ensures
            went(
                *final(self),
                final(shared)@,
                action,
                old(self)@.update_probed(old(shared)@, installed@, said(remote)),
            ),
    {
        let remote = match remote {
            Ok(remote) => remote,
            Err(err) => {
                return self.conclude(shared, Err(err));
            },
        };
        let etag = match &installed.etag {
            Some(etag) => Some(etag.as_str()),
            None => None,
        };
        let last_modified = match &installed.last_modified {
            Some(last_modified) => Some(last_modified.as_str()),
            None => None,
        };
        if remote.differs_from(etag, last_modified, installed.size) {
            shared.log("new vortex build, downloading".to_owned());
            shared.begin(Task::InstallingGame);
            self.phase = Phase::UpdateGame;
            Action::InstallGame
        } else {
            shared.log("vortex is up to date".to_owned());
            shared.status.update_available = false;
            self.conclude(shared, Ok(()))
        }
    }

    fn update_end(&mut self, shared: &mut Shared, result: Result<(), Error>, disk: &Disk) -> (
    action: Action)
        ensures
            went(
                *final(self),
                final(shared)@,
                action,
                old(self)@.update_saved(old(shared)@, settled(result), *disk),
            ),
    {
        if let Err(err) = result {
            return self.conclude(shared, Err(err));
        }
        self.publish_current(shared, disk);
        self.conclude(shared, Ok(()))
    }

    /// Lets the game update itself, or not.
    pub fn set_self_update(&mut self, shared: &mut Shared, value: bool, disk: &Disk) -> (action:
        Action)
        ensures
            went(
                *final(self),
                final(shared)@,
                action,
                old(self)@.setting_self_update(old(shared)@, value, *disk),
            ),
    {
        self.config.allow_self_update = value;
        self.publish(shared, disk);
        self.phase = Phase::LastSave;
        Action::Save
    }

    /// Uses Microsoft's shader compiler, or not. Where it is missing it has to be fetched first, and
    /// failing that must leave the option off rather than promise an override that does not resolve.
    pub fn set_native_shader_compiler(&mut self, shared: &mut Shared, value: bool, disk: &Disk) -> (
    action: Action)
        ensures
            went(
                *final(self),
                final(shared)@,
                action,
                old(self)@.setting_compiler(old(shared)@, value, *disk),
            ),
    {
        self.config.native_shader_compiler = value;
        self.publish(shared, disk);
        if value && !is_installed(&self.paths, disk) {
            shared.begin(Task::InstallingCompiler);
            self.phase = Phase::Compiler;
            Action::InstallCompiler
        } else {
            self.phase = Phase::LastSave;
            Action::Save
        }
    }

    fn compiler_came(&mut self, shared: &mut Shared, result: Result<(), Error>, disk: &Disk) -> (
    action: Action)
        ensures
            went(
                *final(self),
                final(shared)@,
                action,
                old(self)@.compiler_tried(old(shared)@, settled(result), *disk),
            ),
    {
        match result {
            Ok(_) => {
                self.phase = Phase::LastSave;
            },
            Err(err) => {
                self.config.native_shader_compiler = false;
                self.publish(shared, disk);
                self.phase = Phase::CompilerOff(err);
            },
        }
        Action::Save
    }

    fn compiler_failed(&mut self, shared: &mut Shared) -> (action: Action)
        requires
            old(self).phase is CompilerOff,
        ensures
            went(
                *final(self),
                final(shared)@,
                action,
                old(self)@.compiler_off(old(shared)@, old(self).phase->CompilerOff_0@),
            ),
    {
        let mut phase = Phase::Idle;
        std::mem::swap(&mut phase, &mut self.phase);
        let result = match phase {
            Phase::CompilerOff(err) => Err(
                err.context(
                    "could not install the shader compiler, the option stayed off".to_owned(),
                ),
            ),
            _ => Ok(()),
        };
        self.conclude(shared, result)
    }

    /// Signs in.
    pub fn sign_in(&mut self, shared: &mut Shared, username: String, password: &str) -> (action:
        Action)
        ensures
            went(
                *final(self),
                final(shared)@,
                action,
                old(self)@.signing(old(shared)@, username@, password@),
            ),
    {
        shared.begin(Task::SigningIn);
        shared.status.auth_error = None;
        let request = login(username.as_str(), password);
        self.typed_username = username;
        self.phase = Phase::SignIn;
        Action::Fetch(request)
    }

    fn auth_failed(&mut self, shared: &mut Shared, err: &Error) -> (action: Action)
        ensures
            went(
                *final(self),
                final(shared)@,
                action,
                old(self)@.sign_in_refused(old(shared)@, err@),
            ),
    {
        let message = describe(err);
        shared.log("sign in refused: ".to_owned().concat(message.as_str()));
        shared.status.auth_error = Some(message);
        self.conclude(shared, Ok(()))
    }

    fn finish_sign_in(&mut self, token: String) -> (action: Action)
        ensures
            final(self)@ == (CtxView { phase: PhaseView::Lookup(token@), ..old(self)@ }),
            action@ == ActionView::Fetch(
                as_session("https://playvortex.io/api/users/me"@, token@),
            ),
    {
        let request = account_request(token.as_str());
        self.phase = Phase::Lookup(token);
        Action::Fetch(request)
    }

    fn sign_in_answered(&mut self, shared: &mut Shared, login: Result<Login, Error>) -> (action:
        Action)
        ensures
            went(
                *final(self),
                final(shared)@,
                action,
                old(self)@.signed(old(shared)@, said(login)),
            ),
    {
        match login {
            Ok(Login::Done(token)) => self.finish_sign_in(token),
            Ok(Login::Needs2fa(pending)) => {
                self.pending_2fa = Some(pending);
                shared.status.needs_2fa = true;
                self.conclude(shared, Ok(()))
            },
            Err(err) => self.auth_failed(shared, &err),
        }
    }

    /// Gives the two-factor code.
    pub fn submit_2fa(&mut self, shared: &mut Shared, code: &str) -> (action: Action)
        ensures
            went(*final(self), final(shared)@, action, old(self)@.submitting(old(shared)@, code@)),
    {
        shared.begin(Task::SigningIn);
        let request = match &self.pending_2fa {
            Some(pending) => login_2fa(pending.as_str(), code),
            None => {
                return self.refuse(shared, "the two-factor step expired, sign in again");
            },
        };
        self.phase = Phase::SecondFactor;
        Action::Fetch(request)
    }

    fn code_answered(&mut self, shared: &mut Shared, login: Result<Login, Error>) -> (action: Action)
        ensures
            went(
                *final(self),
                final(shared)@,
                action,
                old(self)@.submitted(old(shared)@, said(login)),
            ),
    {
        match login {
            Ok(Login::Done(token)) => {
                self.pending_2fa = None;
                shared.status.needs_2fa = false;
                self.finish_sign_in(token)
            },
            Ok(Login::Needs2fa(_)) => {
                shared.status.auth_error = Some("that code was not accepted".to_owned());
                self.conclude(shared, Ok(()))
            },
            Err(err) => self.auth_failed(shared, &err),
        }
    }

    fn account_came(&mut self, shared: &mut Shared, token: String, account: Result<Account, Error>) -> (
    action: Action)
        ensures
            went(
                *final(self),
                final(shared)@,
                action,
                old(self)@.looked_up(old(shared)@, token@, said(account)),
            ),
    {
        let session = match account {
            Ok(account) => Session { token, username: account.username, user_id: account.id },
            Err(err) => {
                shared.log("account lookup failed: ".to_owned().concat(describe(&err).as_str()));
                Session { token, username: self.typed_username.clone(), user_id: 0 }
            },
        };
        let kept = session.clone();
        self.phase = Phase::Keep(session);
        Action::Keep(kept)
    }

    fn session_kept(
        &mut self,
        shared: &mut Shared,
        session: Session,
        result: Result<(), Error>,
        disk: &Disk,
    ) -> (action: Action)
        ensures
            went(
                *final(self),
                final(shared)@,
                action,
                old(self)@.kept(old(shared)@, session@, settled(result), *disk),
            ),
    {
        if let Err(err) = result {
            return self.conclude(shared, Err(err));
        }
        shared.status.auth_error = None;
        shared.status.needs_2fa = false;
        shared.log("signed in as ".to_owned().concat(session.username.as_str()));
        self.session = Some(session);
        self.publish(shared, disk);
        self.load_games(shared)
    }

    /// Signs out.
    pub fn sign_out(&mut self, shared: &mut Shared) -> (action: Action)
        ensures
            went(*final(self), final(shared)@, action, old(self)@.signing_out(old(shared)@)),
    {
        self.session = None;
        self.pending_2fa = None;
        self.selected_game = None;
        shared.status.account = None;
        shared.status.needs_2fa = false;
        shared.status.auth_error = None;
        shared.status.games = Vec::new();
        shared.status.selected_game = None;
        assert(shared@.status.games =~= seq![]);
        shared.log("signed out".to_owned());
        self.conclude(shared, Ok(()));
        Action::Forget
    }

    /// Picks a game.
    pub fn select_game(&mut self, shared: &mut Shared, id: u64) -> (action: Action)
        ensures
            went(*final(self), final(shared)@, action, old(self)@.selecting(old(shared)@, id)),
    {
        self.selected_game = Some(id);
        shared.status.selected_game = Some(id);
        self.conclude(shared, Ok(()))
    }

    /// Asks for the launch link of the game that is picked.
    pub fn play(&mut self, shared: &mut Shared) -> (action: Action)
        ensures
            went(*final(self), final(shared)@, action, old(self)@.playing(old(shared)@)),
    {
        shared.begin(Task::Launching);
        let game_id: u64 = match self.selected_game {
            Some(id) => id,
            None => match shared.status.selected_game {
                Some(id) => id,
                None => 1,
            },
        };
        let request = match &self.session {
            Some(session) => play_request(session.token.as_str(), game_id, None),
            None => {
                return self.refuse(shared, "sign in first");
            },
        };
        shared.detail("asking the server for a launch link");
        self.phase = Phase::PlayPage;
        Action::Fetch(request)
    }

    fn link_came(
        &mut self,
        shared: &mut Shared,
        target: Target,
        uri: Result<String, Error>,
        disk: &Disk,
    ) -> (action: Action)
        ensures
            went(
                *final(self),
                final(shared)@,
                action,
                old(self)@.linked(old(shared)@, target, said(uri), *disk),
            ),
    {
        match uri {
            Ok(uri) => self.launch(target, uri),
            Err(err) => {
                if expired(&err) {
                    self.session = None;
                    self.publish(shared, disk);
                    self.refuse(shared, "your session expired, sign in again");
                    Action::Forget
                } else {
                    self.conclude(shared, Err(err))
                }
            },
        }
    }

    fn link_studio(&mut self, shared: &mut Shared, token: String) -> (action: Action)
        ensures
            went(
                *final(self),
                final(shared)@,
                action,
                old(self)@.linking_studio(old(shared)@, token@),
            ),
    {
        shared.begin(Task::LaunchingStudio);
        shared.detail("asking the server for a launch link");
        self.phase = Phase::StudioLink;
        Action::LinkStudio(token)
    }

    /// Opens the studio, and installs it first where it is not there.
    pub fn open_studio(&mut self, shared: &mut Shared, disk: &Disk) -> (action: Action)
        ensures
            went(
                *final(self),
                final(shared)@,
                action,
                old(self)@.opening_studio(old(shared)@, *disk),
            ),
    {
        let token = match &self.session {
            Some(session) => session.token.clone(),
            None => {
                return self.refuse(
                    shared,
                    "sign in first, the studio download needs your account",
                );
            },
        };
        if self.config.studio_ready(disk) {
            return self.link_studio(shared, token);
        }
        self.config.studio = None;
        shared.begin(Task::InstallingStudio);
        self.phase = Phase::StudioInstall(token.clone());
        Action::InstallStudio(token)
    }

    fn studio_came(&mut self, shared: &mut Shared, token: String, result: Result<GameInstall, Error>) -> (
    action: Action)
        ensures
            went(
                *final(self),
                final(shared)@,
                action,
                old(self)@.got_studio(old(shared)@, token@, said(result)),
            ),
    {
        match result {
            Err(err) => self.conclude(shared, Err(err)),
            Ok(studio) => {
                self.config.studio = Some(studio);
                self.phase = Phase::StudioSave(token);
                Action::Save
            },
        }
    }

    fn studio_on(
        &mut self,
        shared: &mut Shared,
        token: String,
        result: Result<(), Error>,
        disk: &Disk,
    ) -> (action: Action)
        ensures
            went(
                *final(self),
                final(shared)@,
                action,
                old(self)@.studio_saved(old(shared)@, token@, settled(result), *disk),
            ),
    {
        if let Err(err) = result {
            return self.conclude(shared, Err(err));
        }
        self.publish(shared, disk);
        self.link_studio(shared, token)
    }

    /// Opens a link to the studio.
    pub fn studio_uri(&mut self, shared: &mut Shared, uri: String, disk: &Disk) -> (action: Action)
        ensures
            went(
                *final(self),
                final(shared)@,
                action,
                old(self)@.opening_in_studio(old(shared)@, uri@, *disk),
            ),
    {
        if !is_studio_uri(uri.as_str()) {
            return self.refuse(shared, "that link is not a vortex-studio:// link");
        }
        if !self.config.studio_ready(disk) || !self.config.proton_ready(self.arch.as_str(), disk) {
            shared.log("studio link received, but the studio is not installed yet".to_owned());
            return self.refuse(
                shared,
                "open the Studio from the launcher once to install it, then the link will work",
            );
        }
        shared.begin(Task::LaunchingStudio);
        shared.log("opening a studio link from the browser".to_owned());
        self.launch(Target::Studio, uri)
    }
}

impl CtxView {
    /// A job begins.
    pub open spec fn given(self, shared: SharedView, job: Job, disk: Disk) -> TurnView {
        match job {
            Job::Detect => self.detecting(shared),
            Job::Setup => self.setting_up(shared),
            Job::CheckUpdate => self.checking(shared),
            Job::Play => self.playing(shared),
            Job::SetSelfUpdate(value) => self.setting_self_update(shared, value, disk),
            Job::SetNativeShaderCompiler(value) => self.setting_compiler(shared, value, disk),
            Job::SignIn { username, password } => self.signing(shared, username@, password@),
            Job::Submit2fa(code) => self.submitting(shared, code@),
            Job::SignOut => self.signing_out(shared),
            Job::LoadGames => self.loading(shared),
            Job::SelectGame(id) => self.selecting(shared, id),
            Job::PlayUri(uri) => self.opening(shared, uri@, disk),
            Job::OpenStudio => self.opening_studio(shared, disk),
            Job::StudioUri(uri) => self.opening_in_studio(shared, uri@, disk),
        }
    }

    /// The current job goes on with what came back for a request.
    pub open spec fn answered(
        self,
        shared: SharedView,
        reply: Result<Reply, Error>,
        disk: Disk,
    ) -> TurnView {
        match self.phase {
            PhaseView::DetectAccount(stored) => self.detect_known(
                shared,
                stored,
                account_reply(reply),
                disk,
            ),
            PhaseView::Games => self.loaded(shared, games_reply(reply)),
            PhaseView::UpdateProbe(installed) => self.update_probed(
                shared,
                installed,
                probed("https://playvortex.io/download/windows"@, reply),
            ),
            PhaseView::SignIn => self.signed(
                shared,
                login_reply("https://playvortex.io/login"@, reply),
            ),
            PhaseView::SecondFactor => self.submitted(
                shared,
                login_reply("https://playvortex.io/login/2fa"@, reply),
            ),
            PhaseView::Lookup(token) => self.looked_up(shared, token, account_reply(reply)),
            PhaseView::PlayPage => self.linked(shared, Target::Game, play_reply(reply), disk),
            _ => self.waiting(shared),
        }
    }

    /// The current job goes on once the configuration was saved, or not.
    pub open spec fn saved(
        self,
        shared: SharedView,
        result: Result<(), Seq<CauseView>>,
        disk: Disk,
    ) -> TurnView {
        match self.phase {
            PhaseView::DetectSave => self.detect_saved(shared, result),
            PhaseView::SetupProtonSave => self.setup_saved_proton(shared, result, disk),
            PhaseView::SetupGameSave => self.setup_saved_game(shared, result, disk),
            PhaseView::UpdateSave => self.update_saved(shared, result, disk),
            PhaseView::LastSave => self.concluded(shared, result),
            PhaseView::CompilerOff(causes) => self.compiler_off(shared, causes),
            PhaseView::StudioSave(token) => self.studio_saved(shared, token, result, disk),
            _ => self.waiting(shared),
        }
    }

    /// Nothing changes.
    pub open spec fn waiting(self, shared: SharedView) -> TurnView {
        TurnView { ctx: self, shared, action: ActionView::Wait }
    }

    /// Where an event leads, on a host whose disk looks like `disk`. A job begins only where there
    /// is none, and what was not asked for changes nothing.
    pub open spec fn after(self, shared: SharedView, event: Event, disk: Disk) -> TurnView {
        match event {
            Event::Given(job) => match self.phase {
                PhaseView::Idle => self.given(shared, job, disk),
                _ => self.waiting(shared),
            },
            Event::Prepared(result) => match self.phase {
                PhaseView::DetectPrepare => self.detect_prepared(shared, settled(result), disk),
                PhaseView::SetupPrepare => self.setup_prepared(shared, settled(result), disk),
                _ => self.waiting(shared),
            },
            Event::Searched { steam, host } => match self.phase {
                PhaseView::DetectSearch => self.detect_searched(shared, texts(steam@), host, disk),
                PhaseView::SetupSearch => self.setup_searched(shared, texts(steam@), host, disk),
                _ => self.waiting(shared),
            },
            Event::Saved(result) => self.saved(shared, settled(result), disk),
            Event::Kept(result) => match self.phase {
                PhaseView::Keep(session) => self.kept(shared, session, settled(result), disk),
                _ => self.waiting(shared),
            },
            Event::Replied(reply) => self.answered(shared, reply, disk),
            Event::ProtonInstalled(result) => match self.phase {
                PhaseView::SetupProton => self.setup_got_proton(shared, said(result)),
                _ => self.waiting(shared),
            },
            Event::GameInstalled(result) => match self.phase {
                PhaseView::SetupGame => self.got_game(
                    shared,
                    said(result),
                    PhaseView::SetupGameSave,
                ),
                PhaseView::UpdateGame => self.got_game(shared, said(result), PhaseView::UpdateSave),
                PhaseView::StudioInstall(token) => self.got_studio(shared, token, said(result)),
                _ => self.waiting(shared),
            },
            Event::CompilerInstalled(result) => match self.phase {
                PhaseView::Compiler => self.compiler_tried(shared, settled(result), disk),
                _ => self.waiting(shared),
            },
            Event::Linked(uri) => match self.phase {
                PhaseView::StudioLink => self.linked(shared, Target::Studio, said(uri), disk),
                _ => self.waiting(shared),
            },
            Event::Launched(result) => match self.phase {
                PhaseView::Launch => self.concluded(shared, settled(result)),
                _ => self.waiting(shared),
            },
        }
    }
}

impl Ctx {
    /// What is known at the start: the stored configuration and session.
    pub fn new(paths: Paths, arch: String, config: Config, session: Option<Session>) -> (ctx: Ctx)
        ensures
            ctx@ == (CtxView {
                paths,
                arch: arch@,
                config: config@,
                session: inside(session),
                pending_2fa: None,
                typed_username: seq![],
                selected_game: None,
                pending_uri: None,
                phase: PhaseView::Idle,
            }),
    {
        let typed_username = String::new();
        assert(typed_username@ =~= seq![]);
        Ctx {
            paths,
            arch,
            config,
            session,
            pending_2fa: None,
            typed_username,
            selected_game: None,
            pending_uri: None,
            phase: Phase::Idle,
        }
    }

    fn take_on(&mut self, shared: &mut Shared, job: Job, disk: &Disk) -> (action: Action)
        ensures
            went(*final(self), final(shared)@, action, old(self)@.given(old(shared)@, job, *disk)),
    {
        match job {
            Job::Detect => self.detect(shared),
            Job::Setup => self.setup(),
            Job::CheckUpdate => self.check_update(shared),
            Job::Play => self.play(shared),
            Job::SetSelfUpdate(value) => self.set_self_update(shared, value, disk),
            Job::SetNativeShaderCompiler(value) => self.set_native_shader_compiler(
                shared,
                value,
                disk,
            ),
            Job::SignIn { username, password } => self.sign_in(
                shared,
                username,
                password.as_str(),
            ),
            Job::Submit2fa(code) => self.submit_2fa(shared, code.as_str()),
            Job::SignOut => self.sign_out(shared),
            Job::LoadGames => self.load_games(shared),
            Job::SelectGame(id) => self.select_game(shared, id),
            Job::PlayUri(uri) => self.play_uri(shared, uri, disk),
            Job::OpenStudio => self.open_studio(shared, disk),
            Job::StudioUri(uri) => self.studio_uri(shared, uri, disk),
        }
    }

    fn wait(&mut self, phase: Phase) -> (action: Action)
        ensures
            final(self)@ == (CtxView { phase: phase@, ..old(self)@ }),
            action@ == ActionView::Wait,
    {
        self.phase = phase;
        Action::Wait
    }

    fn replied(&mut self, shared: &mut Shared, reply: Result<Reply, Error>, disk: &Disk) -> (action:
        Action)
        ensures
            went(
                *final(self),
                final(shared)@,
                action,
                old(self)@.answered(old(shared)@, reply, *disk),
            ),
    {
        let mut phase = Phase::Idle;
        std::mem::swap(&mut phase, &mut self.phase);
        match phase {
            Phase::DetectAccount(stored) => self.detect_end(shared, stored, account(reply), disk),
            Phase::Games => self.games_came(shared, games(reply)),
            Phase::UpdateProbe(installed) => self.update_go(
                shared,
                installed,
                crate::game::probe(reply),
            ),
            Phase::SignIn => self.sign_in_answered(
                shared,
                post_login("https://playvortex.io/login", reply),
            ),
            Phase::SecondFactor => self.code_answered(
                shared,
                post_login("https://playvortex.io/login/2fa", reply),
            ),
            Phase::Lookup(token) => self.account_came(shared, token, account(reply)),
            Phase::PlayPage => self.link_came(shared, Target::Game, play_uri(reply), disk),
            phase => self.wait(phase),
        }
    }

    fn config_saved(&mut self, shared: &mut Shared, result: Result<(), Error>, disk: &Disk) -> (
    action: Action)
        ensures
            went(
                *final(self),
                final(shared)@,
                action,
                old(self)@.saved(old(shared)@, settled(result), *disk),
            ),
    {
        let token = match &self.phase {
            Phase::DetectSave => {
                return self.detect_on(shared, result);
            },
            Phase::SetupProtonSave => {
                return self.setup_on(shared, result, disk);
            },
            Phase::SetupGameSave => {
                return self.setup_last(shared, result, disk);
            },
            Phase::UpdateSave => {
                return self.update_end(shared, result, disk);
            },
            Phase::LastSave => {
                return self.conclude(shared, result);
            },
            Phase::CompilerOff(_) => {
                return self.compiler_failed(shared);
            },
            Phase::StudioSave(token) => token.clone(),
            _ => {
                return Action::Wait;
            },
        };
        self.studio_on(shared, token, result, disk)
    }

    /// Takes note of what happened, and decides what to do next, on a host whose disk looks like
    /// `disk`.
    pub fn step(&mut self, shared: &mut Shared, event: Event, disk: &Disk) -> (action: Action)
        ensures
            went(*final(self), final(shared)@, action, old(self)@.after(old(shared)@, event, *disk)),
    {
        match event {
            Event::Given(job) => match &self.phase {
                Phase::Idle => self.take_on(shared, job, disk),
                _ => Action::Wait,
            },
            Event::Prepared(result) => match &self.phase {
                Phase::DetectPrepare => self.detect_go(shared, result, disk),
                Phase::SetupPrepare => self.setup_go(shared, result, disk),
                _ => Action::Wait,
            },
            Event::Searched { steam, host } => match &self.phase {
                Phase::DetectSearch => self.detect_found(shared, &steam, host, disk),
                Phase::SetupSearch => self.setup_found(shared, &steam, host, disk),
                _ => Action::Wait,
            },
            Event::Saved(result) => self.config_saved(shared, result, disk),
            Event::Kept(result) => {
                let session = match &self.phase {
                    Phase::Keep(session) => session.clone(),
                    _ => {
                        return Action::Wait;
                    },
                };
                self.session_kept(shared, session, result, disk)
            },
            Event::Replied(reply) => self.replied(shared, reply, disk),
            Event::ProtonInstalled(result) => match &self.phase {
                Phase::SetupProton => self.setup_proton(shared, result),
                _ => Action::Wait,
            },
            Event::GameInstalled(result) => {
                let token = match &self.phase {
                    Phase::SetupGame => {
                        return self.game_came(shared, result, Phase::SetupGameSave);
                    },
                    Phase::UpdateGame => {
                        return self.game_came(shared, result, Phase::UpdateSave);
                    },
                    Phase::StudioInstall(token) => token.clone(),
                    _ => {
                        return Action::Wait;
                    },
                };
                self.studio_came(shared, token, result)
            },
            Event::CompilerInstalled(result) => match &self.phase {
                Phase::Compiler => self.compiler_came(shared, result, disk),
                _ => Action::Wait,
            },
            Event::Linked(uri) => match &self.phase {
                Phase::StudioLink => self.link_came(shared, Target::Studio, uri, disk),
                _ => Action::Wait,
            },
            Event::Launched(result) => match &self.phase {
                Phase::Launch => self.conclude(shared, result),
                _ => Action::Wait,
            },
        }
    }
}

/// What is in `x`, as a list.
pub open spec fn one(x: Option<Seq<char>>) -> Seq<Seq<char>> {
    match x {
        Some(x) => seq![x],
        None => seq![],
    }
}

impl CtxView {
    /// The files that the next step may have to know of.
    pub open spec fn watching(self) -> Seq<Seq<char>> {
        one(
            match self.config.game {
                Some(game) => Some(game.exe),
                None => None,
            },
        ) + one(
            match self.config.studio {
                Some(studio) => Some(studio.exe),
                None => None,
            },
        ) + (match self.config.proton {
            Some(proton) => seq![joined(proton.dir, "proton"@)] + wine_programs(proton.dir),
            None => seq![],
        }) + seq![compiler_file(self.paths)]
    }
}

impl Ctx {
    /// The files that the next step may have to know of.
    pub fn watched(&self) -> (files: Vec<String>)
        ensures
            texts(files@) == self@.watching(),
    {
        let mut files: Vec<String> = Vec::new();
        if let Some(game) = &self.config.game {
            files.push(game.exe.clone());
        }
        assert(texts(files@) =~= one(
            match self@.config.game {
                Some(game) => Some(game.exe),
                None => None,
            },
        ));
        let ghost first = texts(files@);
        if let Some(studio) = &self.config.studio {
            files.push(studio.exe.clone());
        }
        assert(texts(files@) =~= first + one(
            match self@.config.studio {
                Some(studio) => Some(studio.exe),
                None => None,
            },
        ));
        let ghost second = texts(files@);
        if let Some(proton) = &self.config.proton {
            files.push(join(proton.dir.as_str(), "proton"));
            files.append(&mut wine_candidates(proton.dir.as_str()));
        }
        assert(texts(files@) =~= second + match self@.config.proton {
            Some(proton) => seq![joined(proton.dir, "proton"@)] + wine_programs(proton.dir),
            None => seq![],
        });
        let ghost third = texts(files@);
        files.push(compiler(&self.paths));
        assert(texts(files@) =~= third + seq![compiler_file(self.paths)]);
        files
    }
}

}
