//! The window: what it shows, and what a click leads to.
use vstd::prelude::*;

pub mod laws;

use crate::auth::{is_launch_uri, launchable};
use crate::config::copied;
use crate::sort::views;
use crate::state::{copied_rows, GameRow, GameRowView, Part, Status, StatusView};
use crate::text::{
    borrowed, decimal, decimal_text, same_text, text_in, trim, trimmed, Class,
};
use crate::worker::Job;

verus! {

broadcast use vstd::string::group_string_axioms;

/// Who made the launcher.
pub const CREDIT: &'static str = "Developed by zPaulinBRz | Logo by KitKat";

/// A copy of the status, so that nothing is held while drawing.
#[derive(Debug)]
pub struct Snapshot {
    pub task: Option<&'static str>,
    pub detail: String,
    pub progress: Option<Part>,
    pub error: Option<String>,
    pub game_ready: bool,
    pub proton_ready: bool,
    pub proton_name: Option<String>,
    pub game_running: bool,
    pub allow_self_update: bool,
    pub native_shader_compiler: bool,
    pub account: Option<String>,
    pub needs_2fa: bool,
    pub auth_error: Option<String>,
    pub games: Vec<GameRow>,
    pub selected_game: Option<u64>,
}

/// What a [`Snapshot`] says.
pub struct SnapshotView {
    pub task: Option<Seq<char>>,
    pub detail: Seq<char>,
    pub progress: Option<Part>,
    pub error: Option<Seq<char>>,
    pub game_ready: bool,
    pub proton_ready: bool,
    pub proton_name: Option<Seq<char>>,
    pub game_running: bool,
    pub allow_self_update: bool,
    pub native_shader_compiler: bool,
    pub account: Option<Seq<char>>,
    pub needs_2fa: bool,
    pub auth_error: Option<Seq<char>>,
    pub games: Seq<GameRowView>,
    pub selected_game: Option<u64>,
}

impl View for Snapshot {
    type V = SnapshotView;

    open spec fn view(&self) -> SnapshotView {
        SnapshotView {
            task: borrowed(self.task),
            detail: self.detail@,
            progress: self.progress,
            error: text_in(self.error),
            game_ready: self.game_ready,
            proton_ready: self.proton_ready,
            proton_name: text_in(self.proton_name),
            game_running: self.game_running,
            allow_self_update: self.allow_self_update,
            native_shader_compiler: self.native_shader_compiler,
            account: text_in(self.account),
            needs_2fa: self.needs_2fa,
            auth_error: text_in(self.auth_error),
            games: views(self.games@),
            selected_game: self.selected_game,
        }
    }
}

/// What the window needs of a status.
pub open spec fn seen(status: StatusView) -> SnapshotView {
    SnapshotView {
        task: match status.task {
            Some(task) => Some(task.called()),
            None => None,
        },
        detail: status.detail,
        progress: status.progress,
        error: status.error,
        game_ready: status.game_ready,
        proton_ready: status.proton_ready,
        proton_name: status.proton_name,
        game_running: status.game_running,
        allow_self_update: status.allow_self_update,
        native_shader_compiler: status.native_shader_compiler,
        account: status.account,
        needs_2fa: status.needs_2fa,
        auth_error: status.auth_error,
        games: status.games,
        selected_game: status.selected_game,
    }
}

impl Snapshot {
    /// What the window needs of a status.
    pub fn from_status(status: &Status) -> (snapshot: Snapshot)
        ensures
            snapshot@ == seen(status@),
    {
        Snapshot {
            task: match status.task {
                Some(task) => Some(task.label()),
                None => None,
            },
            detail: status.detail.clone(),
            progress: status.progress,
            error: copied(&status.error),
            game_ready: status.game_ready,
            proton_ready: status.proton_ready,
            proton_name: copied(&status.proton_name),
            game_running: status.game_running,
            allow_self_update: status.allow_self_update,
            native_shader_compiler: status.native_shader_compiler,
            account: copied(&status.account),
            needs_2fa: status.needs_2fa,
            auth_error: copied(&status.auth_error),
            games: copied_rows(&status.games),
            selected_game: status.selected_game,
        }
    }
}

/// What fills the middle of the window.
#[derive(Clone, Copy, Debug, PartialEq, Eq, Structural)]
pub enum Screen {
    /// a task is under way, and can be stopped
    Busy,
    /// something is not installed
    Install,
    /// the two-factor code is asked for
    Code,
    /// the user can sign in
    SignIn,
    /// the user can play
    Play,
}

impl SnapshotView {
    /// What fills the middle of the window: a task that is under way, or the first step that is
    /// still missing before the user can play.
    pub open spec fn screen(self) -> Screen {
        if self.task is Some {
            Screen::Busy
        } else if !self.game_ready || !self.proton_ready {
            Screen::Install
        } else if self.account is None {
            if self.needs_2fa {
                Screen::Code
            } else {
                Screen::SignIn
            }
        } else {
            Screen::Play
        }
    }

    /// Who is signed in, and which Proton is used.
    pub open spec fn line(self) -> Seq<char> {
        (match self.account {
            Some(name) => name,
            None => "signed out"@,
        }) + " - "@ + match (self.proton_name, self.proton_ready) {
            (Some(name), true) => name,
            _ => "Proton missing"@,
        }
    }
}

/// A line in the list of games.
#[derive(Debug)]
pub struct Row {
    pub id: u64,
    pub label: String,
    pub selected: bool,
}

/// What a [`Row`] says.
pub struct RowView {
    pub id: u64,
    pub label: Seq<char>,
    pub selected: bool,
}

impl View for Row {
    type V = RowView;

    open spec fn view(&self) -> RowView {
        RowView { id: self.id, label: self.label@, selected: self.selected }
    }
}

/// A game as a line in the list.
pub open spec fn row(game: GameRowView, selected: Option<u64>) -> RowView {
    RowView {
        id: game.id,
        label: game.name + " - "@ + decimal(game.players as nat) + " playing"@,
        selected: selected == Some(game.id),
    }
}

/// What the screen on which the user can play offers.
#[derive(Clone, Copy, Debug, PartialEq, Eq, Structural)]
pub enum Offer {
    /// the game can be started
    Play,
    /// the game is open, so it cannot be started again
    Running,
}

/// Who is signed in, and which Proton is used.
pub fn status_line(snapshot: &Snapshot) -> (line: String)
    ensures
        line@ == snapshot@.line(),
{
    let who = match &snapshot.account {
        Some(name) => name.clone(),
        None => "signed out".to_owned(),
    };
    let proton = match (&snapshot.proton_name, snapshot.proton_ready) {
        (Some(name), true) => name.clone(),
        _ => "Proton missing".to_owned(),
    };
    who.concat(" - ").concat(proton.as_str())
}

/// What the bottom of the window shows and offers.
#[derive(Debug)]
pub struct Footer {
    pub line: String,
    pub sign_out: bool,
    pub check_for_updates: bool,
    pub self_update: bool,
    pub native_compiler: bool,
}

impl Snapshot {
    /// What fills the middle of the window.
    pub fn screen(&self) -> (screen: Screen)
        ensures
            screen == self@.screen(),
    {
        if self.task.is_some() {
            Screen::Busy
        } else {
            self.idle_controls()
        }
    }

    /// What fills the middle of the window where no task is under way.
    pub fn idle_controls(&self) -> (screen: Screen)
        ensures
            screen == (SnapshotView { task: None, ..self@ }).screen(),
    {
        if !self.game_ready || !self.proton_ready {
            Screen::Install
        } else if self.account.is_none() {
            if self.needs_2fa {
                Screen::Code
            } else {
                Screen::SignIn
            }
        } else {
            Screen::Play
        }
    }

    /// What the screen on which the user can play offers.
    pub fn offer(&self) -> (offer: Offer)
        ensures
            offer == (if self@.game_running {
                Offer::Running
            } else {
                Offer::Play
            }),
    {
        if self.game_running {
            Offer::Running
        } else {
            Offer::Play
        }
    }

    /// Whether the window has to look again soon without being touched.
    pub fn changes(&self) -> (b: bool)
        ensures
            b == (self@.game_running || self@.task is Some),
    {
        self.game_running || self.task.is_some()
    }

    /// Whether there is a word on what is being done.
    pub fn has_detail(&self) -> (b: bool)
        ensures
            b == (self@.detail.len() > 0),
    {
        proof {
            reveal_strlit("");
            assert(self@.detail.len() == 0 ==> self@.detail =~= ""@);
        }
        !same_text(self.detail.as_str(), "")
    }

    /// The lines in the list of games.
    pub fn rows(&self) -> (rows: Vec<Row>)
        ensures
            views(rows@) == self@.games.map_values(
                |game: GameRowView| row(game, self@.selected_game),
            ),
    {
        let mut rows: Vec<Row> = Vec::new();
        let mut i: usize = 0;
        while i < self.games.len()
            invariant
                i <= self.games.len(),
                rows@.len() == i,
                forall|j: int|
                    0 <= j < i ==> #[trigger] rows@[j]@ == row(
                        self.games@[j]@,
                        self.selected_game,
                    ),
            decreases self.games.len() - i,
        {
            let game = &self.games[i];
            let selected = match self.selected_game {
                Some(id) => id == game.id,
                None => false,
            };
            rows.push(
                Row {
                    id: game.id,
                    label: game.name.clone().concat(" - ").concat(
                        decimal_text(game.players).as_str(),
                    ).concat(" playing"),
                    selected,
                },
            );
            i += 1;
        }
        assert(views(rows@) =~= self@.games.map_values(
            |game: GameRowView| row(game, self@.selected_game),
        ));
        rows
    }

    /// What the bottom of the window shows and offers.
    pub fn footer(&self) -> (footer: Footer)
        ensures
            footer.line@ == self@.line(),
            footer.sign_out == (self@.account is Some),
            footer.check_for_updates == self@.game_ready,
            footer.self_update == self@.allow_self_update,
            footer.native_compiler == self@.native_shader_compiler,
    {
        Footer {
            line: status_line(self),
            sign_out: self.account.is_some(),
            check_for_updates: self.game_ready,
            self_update: self.allow_self_update,
            native_compiler: self.native_shader_compiler,
        }
    }
}

/// What the user typed.
#[derive(Debug)]
pub struct Form {
    pub username: String,
    pub password: String,
    pub code: String,
}

/// What a [`Form`] holds.
pub struct FormView {
    pub username: Seq<char>,
    pub password: Seq<char>,
    pub code: Seq<char>,
}

impl View for Form {
    type V = FormView;

    open spec fn view(&self) -> FormView {
        FormView { username: self.username@, password: self.password@, code: self.code@ }
    }
}

fn is_blank(s: &str) -> (b: bool)
    ensures
        b == (trimmed(s@, Class::Space).len() == 0),
{
    let rest = trim(s, Class::Space);
    proof {
        reveal_strlit("");
        assert(rest@.len() == 0 ==> rest@ =~= ""@);
    }
    same_text(rest.as_str(), "")
}

impl FormView {
    /// Whether there is a name and a password to sign in with.
    pub open spec fn ready(self) -> bool {
        trimmed(self.username, Class::Space).len() > 0 && self.password.len() > 0
    }
}

impl Form {
    /// Nothing has been typed.
    pub fn new() -> (form: Form)
        ensures
            form@ == (FormView { username: seq![], password: seq![], code: seq![] }),
    {
        let form = Form { username: String::new(), password: String::new(), code: String::new() };
        assert(form@.username =~= seq![] && form@.password =~= seq![] && form@.code =~= seq![]);
        form
    }

    /// Whether there is a name and a password to sign in with.
    pub fn ready(&self) -> (b: bool)
        ensures
            b == self@.ready(),
    {
        proof {
            reveal_strlit("");
            assert(self.password@.len() == 0 ==> self.password@ =~= ""@);
        }
        !is_blank(self.username.as_str()) && !same_text(self.password.as_str(), "")
    }

    /// The job that signing in leads to, once the user asked for it. The password is not kept.
    pub fn sign_in(&mut self, asked: bool) -> (job: Option<Job>)
        ensures
            if asked && old(self)@.ready() {
                &&& job matches Some(Job::SignIn { username, password })
                &&& username@ == trimmed(old(self)@.username, Class::Space)
                &&& password@ == old(self)@.password
                &&& final(self)@ == (FormView { password: seq![], ..old(self)@ })
            } else {
                job is None && final(self)@ == old(self)@
            },
    {
        if !asked || !self.ready() {
            return None;
        }
        let username = trim(self.username.as_str(), Class::Space);
        let mut password = String::new();
        std::mem::swap(&mut password, &mut self.password);
        assert(self.password@ =~= seq![]);
        Some(Job::SignIn { username, password })
    }

    /// The job that giving the two-factor code leads to, once the user asked for it. The code is
    /// not kept.
    pub fn verify(&mut self, asked: bool) -> (job: Option<Job>)
        ensures
            if asked && trimmed(old(self)@.code, Class::Space).len() > 0 {
                &&& job matches Some(Job::Submit2fa(code))
                &&& code@ == trimmed(old(self)@.code, Class::Space)
                &&& final(self)@ == (FormView { code: seq![], ..old(self)@ })
            } else {
                job is None && final(self)@ == old(self)@
            },
    {
        if !asked || is_blank(self.code.as_str()) {
            return None;
        }
        let code = trim(self.code.as_str(), Class::Space);
        self.code = String::new();
        assert(self.code@ =~= seq![]);
        Some(Job::Submit2fa(code))
    }
}

/// The link that the launcher was started with: its first argument, where that is one.
pub fn link_given(args: &Vec<String>) -> (uri: Option<String>)
    ensures
        text_in(uri) == (if args@.len() > 0 && launchable(args@[0]@, "vortex://"@) {
            Some(args@[0]@)
        } else {
            None
        }),
{
    if args.len() > 0 && is_launch_uri(args[0].as_str()) {
        Some(args[0].clone())
    } else {
        None
    }
}

/// What the launcher does as soon as its window is there: it looks at what is installed, and opens
/// the link it was started with.
pub fn first_jobs(uri: Option<String>) -> (jobs: Vec<Job>)
    ensures
        jobs@ == (match uri {
            Some(uri) => seq![Job::Detect, Job::PlayUri(uri)],
            None => seq![Job::Detect],
        }),
{
    let mut jobs: Vec<Job> = Vec::new();
    jobs.push(Job::Detect);
    if let Some(uri) = uri {
        jobs.push(Job::PlayUri(uri));
    }
    jobs
}

/// The user can play only with the game and Proton in place, signed in, and with nothing under way;
/// and where all of that holds, nothing else is asked of them.
pub proof fn playing_takes_an_installation_and_an_account(snapshot: SnapshotView)
    ensures
        snapshot.screen() is Play <==> snapshot.task is None && snapshot.game_ready
            && snapshot.proton_ready && snapshot.account is Some,
        snapshot.screen() is Busy <==> snapshot.task is Some,
{
}

}
