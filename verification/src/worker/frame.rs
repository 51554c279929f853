//! What each step leaves as it is.
use vstd::prelude::*;

use crate::auth::{
    account_reply, games_reply, login_reply, play_reply, AccountView, GameView, LoginView,
};
use crate::config::{GameInstallView, ProtonInstallView};
use crate::disk::Disk;
use crate::error::{cause_text, said, settled, CauseView, Error};
use crate::launch::Target;
use crate::net::{probed, RemoteView, Reply};
use crate::session::SessionView;
use crate::state::{SharedView, StatusView, Task};
use crate::text::{begins, texts};
use crate::worker::{
    session_over, CtxView, Event, Job, PhaseView, TurnView,
};

verus! {

broadcast use vstd::string::group_string_axioms;

/// What a step may change; all else it leaves as it is.
pub struct May {
    pub session: bool,
    pub game: bool,
    pub studio: bool,
    pub proton: bool,
    pub compiler: bool,
    pub self_update: bool,
    pub typed: bool,
    pub selected: bool,
    pub second_factor: bool,
    pub games: bool,
}

/// Nothing may change.
pub open spec fn nothing() -> May {
    May {
        session: false,
        game: false,
        studio: false,
        proton: false,
        compiler: false,
        self_update: false,
        typed: false,
        selected: false,
        second_factor: false,
        games: false,
    }
}

/// What a step may change: what the user asks to be changed, what was installed or is gone, and what
/// the server says of the session.
pub open spec fn may_change(ctx: CtxView, event: Event) -> May {
    match (event, ctx.phase) {
        (Event::Given(Job::SetSelfUpdate(_)), PhaseView::Idle) => May {
            self_update: true,
            ..nothing()
        },
        (Event::Given(Job::SetNativeShaderCompiler(_)), PhaseView::Idle) => May {
            compiler: true,
            ..nothing()
        },
        (Event::Given(Job::SignIn { .. }), PhaseView::Idle) => May { typed: true, ..nothing() },
        (Event::Given(Job::SelectGame(_)), PhaseView::Idle) => May { selected: true, ..nothing() },
        (Event::Given(Job::SignOut), PhaseView::Idle) => May {
            session: true,
            selected: true,
            second_factor: true,
            games: true,
            ..nothing()
        },
        (Event::Given(Job::OpenStudio), PhaseView::Idle) => May { studio: true, ..nothing() },
        (Event::Prepared(_), PhaseView::DetectPrepare) => May {
            game: true,
            studio: true,
            compiler: true,
            ..nothing()
        },
        (Event::Searched { .. }, PhaseView::DetectSearch) => May { proton: true, ..nothing() },
        (Event::Searched { .. }, PhaseView::SetupSearch) => May { proton: true, ..nothing() },
        (Event::ProtonInstalled(_), PhaseView::SetupProton) => May { proton: true, ..nothing() },
        (Event::GameInstalled(_), PhaseView::SetupGame) => May { game: true, ..nothing() },
        (Event::GameInstalled(_), PhaseView::UpdateGame) => May { game: true, ..nothing() },
        (Event::GameInstalled(_), PhaseView::StudioInstall(_)) => May { studio: true, ..nothing() },
        (Event::CompilerInstalled(_), PhaseView::Compiler) => May { compiler: true, ..nothing() },
        (Event::Replied(_), PhaseView::DetectAccount(_)) => May { session: true, ..nothing() },
        (Event::Replied(_), PhaseView::PlayPage) => May { session: true, ..nothing() },
        (Event::Replied(_), PhaseView::Games) => May { games: true, ..nothing() },
        (Event::Replied(_), PhaseView::SignIn) => May { second_factor: true, ..nothing() },
        (Event::Replied(_), PhaseView::SecondFactor) => May { second_factor: true, ..nothing() },
        (Event::Linked(_), PhaseView::StudioLink) => May { session: true, ..nothing() },
        (Event::Kept(_), PhaseView::Keep(_)) => May { session: true, ..nothing() },
        _ => nothing(),
    }
}

/// Whether a step leaves all as it is but for what it may change, and what is logged stays in front
/// of what comes to it.
pub open spec fn leaves(ctx: CtxView, shared: SharedView, turn: TurnView, may: May) -> bool {
    &&& may.session || turn.ctx.session == ctx.session
    &&& may.game || turn.ctx.config.game == ctx.config.game
    &&& may.studio || turn.ctx.config.studio == ctx.config.studio
    &&& may.proton || turn.ctx.config.proton == ctx.config.proton
    &&& may.compiler || turn.ctx.config.native_shader_compiler
        == ctx.config.native_shader_compiler
    &&& may.self_update || turn.ctx.config.allow_self_update == ctx.config.allow_self_update
    &&& turn.ctx.config.proton_wanted == ctx.config.proton_wanted
    &&& may.typed || turn.ctx.typed_username == ctx.typed_username
    &&& may.selected || turn.ctx.selected_game == ctx.selected_game
    &&& may.second_factor || turn.ctx.pending_2fa == ctx.pending_2fa
    &&& may.games || turn.shared.status.games == shared.status.games
    &&& may.games || may.selected || turn.shared.status.selected_game
        == shared.status.selected_game
    &&& turn.shared.status.game_running == shared.status.game_running
    &&& turn.shared.status.studio_running == shared.status.studio_running
    &&& turn.shared.lines.len() >= shared.lines.len()
    &&& forall|i: int|
        0 <= i < shared.lines.len() ==> #[trigger] turn.shared.lines[i] == shared.lines[i]
    &&& turn.shared.cancel ==> shared.cancel
}

#[verifier::rlimit(40)]
proof fn lemma_given(ctx: CtxView, shared: SharedView, job: Job, disk: Disk)
    requires
        ctx.phase is Idle,
    ensures
        leaves(ctx, shared, ctx.given(shared, job, disk), may_change(ctx, Event::Given(job))),
{
}

proof fn lemma_accounts(
    ctx: CtxView,
    shared: SharedView,
    stored: SessionView,
    token: Seq<char>,
    account: Result<AccountView, Seq<CauseView>>,
    disk: Disk,
)
    ensures
        leaves(
            ctx,
            shared,
            ctx.detect_known(shared, stored, account, disk),
            May { session: true, ..nothing() },
        ),
        leaves(ctx, shared, ctx.looked_up(shared, token, account), nothing()),
{
}

#[verifier::rlimit(40)]
proof fn lemma_signed(
    ctx: CtxView,
    shared: SharedView,
    login: Result<LoginView, Seq<CauseView>>,
)
    ensures
        leaves(
            ctx,
            shared,
            ctx.signed(shared, login),
            May { second_factor: true, ..nothing() },
        ),
{
}

proof fn lemma_refused(ctx: CtxView, shared: SharedView, causes: Seq<CauseView>)
    ensures
        leaves(ctx, shared, ctx.sign_in_refused(shared, causes), nothing()),
{
}

#[verifier::rlimit(40)]
proof fn lemma_submitted(
    ctx: CtxView,
    shared: SharedView,
    login: Result<LoginView, Seq<CauseView>>,
)
    ensures
        leaves(
            ctx,
            shared,
            ctx.submitted(shared, login),
            May { second_factor: true, ..nothing() },
        ),
{
    match login {
        Ok(LoginView::Done(token)) => {
            let ctx = CtxView { pending_2fa: None, ..ctx };
            let told = shared.with(StatusView { needs_2fa: false, ..shared.status });
            assert(leaves(ctx, told, ctx.looking_up(told, token), nothing()));
        },
        Ok(LoginView::Needs2fa(_)) => {
            let told = shared.with(
                StatusView {
                    auth_error: Some("that code was not accepted"@),
                    ..shared.status
                },
            );
            lemma_saved_last(ctx, told, seq![], Ok(()));
        },
        Err(causes) => {
            lemma_refused(ctx, shared, causes);
        },
    }
}

proof fn lemma_lists(
    ctx: CtxView,
    shared: SharedView,
    games: Result<Seq<GameView>, Seq<CauseView>>,
    installed: GameInstallView,
    remote: Result<RemoteView, Seq<CauseView>>,
)
    ensures
        leaves(ctx, shared, ctx.loaded(shared, games), May { games: true, ..nothing() }),
        leaves(ctx, shared, ctx.update_probed(shared, installed, remote), nothing()),
{
}

#[verifier::rlimit(40)]
proof fn lemma_linked(
    ctx: CtxView,
    shared: SharedView,
    target: Target,
    uri: Result<Seq<char>, Seq<CauseView>>,
    disk: Disk,
)
    ensures
        leaves(
            ctx,
            shared,
            ctx.linked(shared, target, uri, disk),
            May { session: true, ..nothing() },
        ),
{
}

proof fn lemma_answered(
    ctx: CtxView,
    shared: SharedView,
    reply: Result<Reply, Error>,
    disk: Disk,
)
    ensures
        leaves(
            ctx,
            shared,
            ctx.answered(shared, reply, disk),
            may_change(ctx, Event::Replied(reply)),
        ),
{
    match ctx.phase {
        PhaseView::DetectAccount(stored) => {
            lemma_accounts(ctx, shared, stored, stored.token, account_reply(reply), disk);
        },
        PhaseView::Lookup(token) => {
            let stored = SessionView { token, username: token, user_id: 0 };
            lemma_accounts(ctx, shared, stored, token, account_reply(reply), disk);
        },
        PhaseView::Games => {
            lemma_lists(ctx, shared, games_reply(reply), arbitrary(), arbitrary());
        },
        PhaseView::UpdateProbe(installed) => {
            lemma_lists(
                ctx,
                shared,
                arbitrary(),
                installed,
                probed("https://playvortex.io/download/windows"@, reply),
            );
        },
        PhaseView::SignIn => {
            lemma_signed(ctx, shared, login_reply("https://playvortex.io/login"@, reply));
        },
        PhaseView::SecondFactor => {
            lemma_submitted(ctx, shared, login_reply("https://playvortex.io/login/2fa"@, reply));
        },
        PhaseView::PlayPage => {
            lemma_linked(ctx, shared, Target::Game, play_reply(reply), disk);
        },
        _ => {},
    }
}

#[verifier::rlimit(40)]
proof fn lemma_saved_setup(
    ctx: CtxView,
    shared: SharedView,
    result: Result<(), Seq<CauseView>>,
    disk: Disk,
)
    ensures
        leaves(ctx, shared, ctx.setup_saved_proton(shared, result, disk), nothing()),
        leaves(ctx, shared, ctx.setup_saved_game(shared, result, disk), nothing()),
{
}

proof fn lemma_saved_studio(
    ctx: CtxView,
    shared: SharedView,
    token: Seq<char>,
    result: Result<(), Seq<CauseView>>,
    disk: Disk,
)
    ensures
        leaves(ctx, shared, ctx.studio_saved(shared, token, result, disk), nothing()),
        leaves(ctx, shared, ctx.update_saved(shared, result, disk), nothing()),
{
}

proof fn lemma_saved_last(
    ctx: CtxView,
    shared: SharedView,
    causes: Seq<CauseView>,
    result: Result<(), Seq<CauseView>>,
)
    ensures
        leaves(ctx, shared, ctx.detect_saved(shared, result), nothing()),
        leaves(ctx, shared, ctx.concluded(shared, result), nothing()),
        leaves(ctx, shared, ctx.compiler_off(shared, causes), nothing()),
{
}

proof fn lemma_saved(
    ctx: CtxView,
    shared: SharedView,
    result: Result<(), Seq<CauseView>>,
    disk: Disk,
)
    ensures
        leaves(ctx, shared, ctx.saved(shared, result, disk), nothing()),
{
    match ctx.phase {
        PhaseView::SetupProtonSave | PhaseView::SetupGameSave => {
            lemma_saved_setup(ctx, shared, result, disk);
        },
        PhaseView::StudioSave(token) => {
            lemma_saved_studio(ctx, shared, token, result, disk);
        },
        PhaseView::UpdateSave => {
            lemma_saved_studio(ctx, shared, seq![], result, disk);
        },
        PhaseView::CompilerOff(causes) => {
            lemma_saved_last(ctx, shared, causes, result);
        },
        PhaseView::DetectSave | PhaseView::LastSave => {
            lemma_saved_last(ctx, shared, seq![], result);
        },
        _ => {},
    }
}

#[verifier::rlimit(40)]
proof fn lemma_prepared(
    ctx: CtxView,
    shared: SharedView,
    result: Result<(), Seq<CauseView>>,
    disk: Disk,
)
    ensures
        leaves(
            ctx,
            shared,
            ctx.detect_prepared(shared, result, disk),
            May { game: true, studio: true, compiler: true, ..nothing() },
        ),
        leaves(ctx, shared, ctx.setup_prepared(shared, result, disk), nothing()),
{
}

#[verifier::rlimit(40)]
proof fn lemma_searched(
    ctx: CtxView,
    shared: SharedView,
    steam: Seq<Seq<char>>,
    host: Option<(u32, u32)>,
    disk: Disk,
)
    ensures
        leaves(
            ctx,
            shared,
            ctx.detect_searched(shared, steam, host, disk),
            May { proton: true, ..nothing() },
        ),
        leaves(
            ctx,
            shared,
            ctx.setup_searched(shared, steam, host, disk),
            May { proton: true, ..nothing() },
        ),
{
}

proof fn lemma_ended(
    ctx: CtxView,
    shared: SharedView,
    session: SessionView,
    result: Result<(), Seq<CauseView>>,
    disk: Disk,
)
    ensures
        leaves(
            ctx,
            shared,
            ctx.kept(shared, session, result, disk),
            May { session: true, ..nothing() },
        ),
        leaves(
            ctx,
            shared,
            ctx.compiler_tried(shared, result, disk),
            May { compiler: true, ..nothing() },
        ),
        leaves(ctx, shared, ctx.concluded(shared, result), nothing()),
{
}

proof fn lemma_installed(
    ctx: CtxView,
    shared: SharedView,
    proton: Result<ProtonInstallView, Seq<CauseView>>,
    game: Result<GameInstallView, Seq<CauseView>>,
    phase: PhaseView,
    token: Seq<char>,
)
    ensures
        leaves(
            ctx,
            shared,
            ctx.setup_got_proton(shared, proton),
            May { proton: true, ..nothing() },
        ),
        leaves(ctx, shared, ctx.got_game(shared, game, phase), May { game: true, ..nothing() }),
        leaves(
            ctx,
            shared,
            ctx.got_studio(shared, token, game),
            May { studio: true, ..nothing() },
        ),
{
}

/// A step changes only what it may: the settings change only where the user changes them or the
/// compiler is gone, what is installed only where it was installed or is gone, the session only where
/// it begins, is checked or ends, and what is selected only where the user selects it or signs out.
/// Which release the user wants never changes here, nor does what runs; and no line of the log is
/// lost.
pub proof fn a_step_changes_only_what_it_may(
    ctx: CtxView,
    shared: SharedView,
    event: Event,
    disk: Disk,
)
    ensures
        leaves(ctx, shared, ctx.after(shared, event, disk), may_change(ctx, event)),
{
    match event {
        Event::Given(job) => {
            if ctx.phase is Idle {
                lemma_given(ctx, shared, job, disk);
            }
        },
        Event::Replied(reply) => {
            lemma_answered(ctx, shared, reply, disk);
        },
        Event::Saved(result) => {
            lemma_saved(ctx, shared, settled(result), disk);
        },
        Event::Linked(uri) => {
            lemma_linked(ctx, shared, Target::Studio, said(uri), disk);
        },
        Event::Kept(result) => {
            if let PhaseView::Keep(session) = ctx.phase {
                lemma_ended(ctx, shared, session, settled(result), disk);
            }
        },
        Event::Prepared(result) => {
            lemma_prepared(ctx, shared, settled(result), disk);
        },
        Event::Searched { steam, host } => {
            lemma_searched(ctx, shared, texts(steam@), host, disk);
        },
        Event::ProtonInstalled(result) => {
            lemma_installed(ctx, shared, said(result), arbitrary(), arbitrary(), arbitrary());
        },
        Event::GameInstalled(result) => {
            let token = if let PhaseView::StudioInstall(token) = ctx.phase {
                token
            } else {
                seq![]
            };
            let phase = if ctx.phase is SetupGame {
                PhaseView::SetupGameSave
            } else {
                PhaseView::UpdateSave
            };
            lemma_installed(ctx, shared, arbitrary(), said(result), phase, token);
        },
        Event::CompilerInstalled(result) => {
            lemma_ended(ctx, shared, arbitrary(), settled(result), disk);
        },
        Event::Launched(result) => {
            lemma_ended(ctx, shared, arbitrary(), settled(result), disk);
        },
    }
}

/// A look at what is installed begins with the directories.
pub proof fn a_look_begins_with_the_directories(ctx: CtxView, shared: SharedView, disk: Disk)
    requires
        ctx.phase is Idle,
    ensures
        ({
            let turn = ctx.after(shared, Event::Given(Job::Detect), disk);
            &&& turn.action is Prepare
            &&& turn.ctx == (CtxView { phase: PhaseView::DetectPrepare, ..ctx })
            &&& turn.shared.status.task == Some(Task::Detecting)
            &&& turn.shared.status.error is None && !turn.shared.cancel
        }),
{
}

/// A session is over exactly if one of the reasons of a failure begins with saying so.
pub proof fn a_session_is_over_if_a_reason_says_so(
    text: Seq<char>,
    rest: Seq<CauseView>,
    other: Seq<char>,
)
    requires
        !begins(other, "session expired"@),
    ensures
        session_over(seq![CauseView::Message("session expired"@ + text)] + rest),
        session_over(seq![CauseView::Message(other)] + rest) == session_over(rest),
        !session_over(seq![]),
{
    reveal_strlit("session expired");
    let told = "session expired"@ + text;
    assert(told.subrange(0, "session expired"@.len() as int) =~= "session expired"@);
    let all = seq![CauseView::Message(told)] + rest;
    assert(all[0] == CauseView::Message(told));
    assert(begins(cause_text(all[0]), "session expired"@));
    let more = seq![CauseView::Message(other)] + rest;
    assert(more[0] == CauseView::Message(other));
    if session_over(rest) {
        let i = choose|i: int|
            0 <= i < rest.len() && begins(
                cause_text(#[trigger] rest[i]),
                "session expired"@,
            );
        assert(more[i + 1] == rest[i]);
        assert(begins(cause_text(more[i + 1]), "session expired"@));
    }
    if session_over(more) {
        let i = choose|i: int|
            0 <= i < more.len() && begins(
                cause_text(#[trigger] more[i]),
                "session expired"@,
            );
        assert(i > 0);
        assert(rest[i - 1] == more[i]);
        assert(begins(cause_text(rest[i - 1]), "session expired"@));
    }
}

}
