//! What holds of every step of every job.
use vstd::prelude::*;

use crate::auth::{
    account_reply, games_reply, launchable, login_reply, play_reply, AccountView, GameView,
    LoginView,
};
use crate::config::GameInstallView;
use crate::disk::Disk;
use crate::error::{failure, said, settled, CauseView, Error};
use crate::launch::Target;
use crate::net::{probed, RemoteView, Reply};
use crate::session::SessionView;
use crate::shaders::native;
use crate::sort::{sorting_is_stable, sorting_keeps_the_items, Ranked};
use crate::state::{GameRow, SharedView};
use crate::text::in_order;
use crate::worker::{
    described, row_of, rows_of, session_over, ActionView, CtxView, Event, Job, PhaseView, TurnView,
};

verus! {

/// Whether a session is over: the user signs out, or the server refuses a launch link to it.
pub open spec fn ends_session(ctx: CtxView, event: Event) -> bool {
    match (ctx.phase, event) {
        (PhaseView::Idle, Event::Given(Job::SignOut)) => true,
        (PhaseView::PlayPage, Event::Replied(reply)) => play_reply(reply) matches Err(causes)
            && session_over(causes),
        (PhaseView::StudioLink, Event::Linked(uri)) => said(uri) matches Err(causes)
            && session_over(causes),
        _ => false,
    }
}

/// Whether a step either ends a job, or changes nothing, or leaves something to do; it `ends` the
/// session or keeps it.
spec fn orderly(ctx: CtxView, shared: SharedView, turn: TurnView, ends: bool) -> bool {
    &&& match turn.action {
        ActionView::Rest | ActionView::Forget => turn.ctx.phase is Idle
            && turn.shared.status.task is None && turn.shared.status.progress is None
            && turn.shared.status.detail.len() == 0,
        ActionView::Wait => turn == ctx.waiting(shared),
        _ => !(turn.ctx.phase is Idle),
    }
    &&& turn.ctx.paths == ctx.paths && turn.ctx.arch == ctx.arch
    &&& turn.action is Forget <==> ends
    &&& ends ==> turn.ctx.session is None && turn.shared.status.account is None
    &&& !ends && ctx.session is Some ==> turn.ctx.session is Some
}

proof fn lemma_given(ctx: CtxView, shared: SharedView, job: Job, disk: Disk)
    ensures
        orderly(ctx, shared, ctx.given(shared, job, disk), job is SignOut),
{
}

proof fn lemma_accounts(
    ctx: CtxView,
    shared: SharedView,
    stored: SessionView,
    token: Seq<char>,
    account: Result<AccountView, Seq<CauseView>>,
    disk: Disk,
)
    ensures
        orderly(ctx, shared, ctx.detect_known(shared, stored, account, disk), false),
        orderly(ctx, shared, ctx.looked_up(shared, token, account), false),
{
}

proof fn lemma_logins(
    ctx: CtxView,
    shared: SharedView,
    login: Result<LoginView, Seq<CauseView>>,
)
    ensures
        orderly(ctx, shared, ctx.signed(shared, login), false),
        orderly(ctx, shared, ctx.submitted(shared, login), false),
{
}

proof fn lemma_lists(
    ctx: CtxView,
    shared: SharedView,
    games: Result<Seq<GameView>, Seq<CauseView>>,
    installed: GameInstallView,
    remote: Result<RemoteView, Seq<CauseView>>,
)
    ensures
        orderly(ctx, shared, ctx.loaded(shared, games), false),
        orderly(ctx, shared, ctx.update_probed(shared, installed, remote), false),
{
}

proof fn lemma_linked(
    ctx: CtxView,
    shared: SharedView,
    target: Target,
    uri: Result<Seq<char>, Seq<CauseView>>,
    disk: Disk,
)
    ensures
        orderly(
            ctx,
            shared,
            ctx.linked(shared, target, uri, disk),
            uri matches Err(causes) && session_over(causes),
        ),
{
}

proof fn lemma_answered(
    ctx: CtxView,
    shared: SharedView,
    reply: Result<Reply, Error>,
    disk: Disk,
)
    ensures
        orderly(
            ctx,
            shared,
            ctx.answered(shared, reply, disk),
            ends_session(ctx, Event::Replied(reply)),
        ),
{
    match ctx.phase {
        PhaseView::DetectAccount(stored) => {
            lemma_accounts(ctx, shared, stored, stored.token, account_reply(reply), disk);
        },
        PhaseView::Lookup(token) => {
            let stored = SessionView { token, username: token, user_id: 0 };
            lemma_accounts(ctx, shared, stored, token, account_reply(reply), disk);
        },
        PhaseView::Games => {
            lemma_lists(ctx, shared, games_reply(reply), arbitrary(), arbitrary());
        },
        PhaseView::UpdateProbe(installed) => {
            lemma_lists(
                ctx,
                shared,
                arbitrary(),
                installed,
                probed("https://playvortex.io/download/windows"@, reply),
            );
        },
        PhaseView::SignIn => {
            lemma_logins(ctx, shared, login_reply("https://playvortex.io/login"@, reply));
        },
        PhaseView::SecondFactor => {
            lemma_logins(ctx, shared, login_reply("https://playvortex.io/login/2fa"@, reply));
        },
        PhaseView::PlayPage => {
            lemma_linked(ctx, shared, Target::Game, play_reply(reply), disk);
        },
        _ => {},
    }
}

proof fn lemma_saved(
    ctx: CtxView,
    shared: SharedView,
    result: Result<(), Seq<CauseView>>,
    disk: Disk,
)
    ensures
        orderly(ctx, shared, ctx.saved(shared, result, disk), false),
{
}

proof fn lemma_installed(ctx: CtxView, shared: SharedView, event: Event, disk: Disk)
    requires
        event is ProtonInstalled || event is GameInstalled || event is CompilerInstalled || event
            is Launched,
    ensures
        orderly(ctx, shared, ctx.after(shared, event, disk), false),
{
}

proof fn lemma_step(ctx: CtxView, shared: SharedView, event: Event, disk: Disk)
    ensures
        orderly(ctx, shared, ctx.after(shared, event, disk), ends_session(ctx, event)),
{
    match event {
        Event::Given(job) => {
            lemma_given(ctx, shared, job, disk);
        },
        Event::Replied(reply) => {
            lemma_answered(ctx, shared, reply, disk);
        },
        Event::Saved(result) => {
            lemma_saved(ctx, shared, settled(result), disk);
        },
        Event::Prepared(result) => {
            assert(orderly(ctx, shared, ctx.after(shared, event, disk), false));
        },
        Event::Searched { steam, host } => {
            assert(orderly(ctx, shared, ctx.after(shared, event, disk), false));
        },
        Event::Kept(result) => {
            assert(orderly(ctx, shared, ctx.after(shared, event, disk), false));
        },
        Event::Linked(uri) => {
            lemma_linked(ctx, shared, Target::Studio, said(uri), disk);
        },
        _ => {
            lemma_installed(ctx, shared, event, disk);
        },
    }
}

/// A session is dropped, and the stored one removed, only where the user signs out or the server
/// refuses a launch link to it: neither a failing account check nor being offline signs anybody out.
pub proof fn only_the_user_or_the_server_ends_a_session(
    ctx: CtxView,
    shared: SharedView,
    event: Event,
    disk: Disk,
)
    ensures
        ctx.session is Some && ctx.after(shared, event, disk).ctx.session is None ==> ends_session(
            ctx,
            event,
        ),
        ctx.after(shared, event, disk).action is Forget <==> ends_session(ctx, event),
        ends_session(ctx, event) ==> ctx.after(shared, event, disk).ctx.session is None && ctx.after(
            shared,
            event,
            disk,
        ).shared.status.account is None,
{
    lemma_step(ctx, shared, event, disk);
}

/// Where a job ends, the launcher is idle and shows no task; as long as there is something to do for
/// a job, it is not.
pub proof fn a_finished_job_leaves_nothing_running(
    ctx: CtxView,
    shared: SharedView,
    event: Event,
    disk: Disk,
)
    ensures
        ({
            let turn = ctx.after(shared, event, disk);
            match turn.action {
                ActionView::Rest | ActionView::Forget => turn.ctx.phase is Idle
                    && turn.shared.status.task is None && turn.shared.status.progress is None
                    && turn.shared.status.detail.len() == 0,
                ActionView::Wait => turn == ctx.waiting(shared),
                _ => !(turn.ctx.phase is Idle),
            }
        }),
{
    lemma_step(ctx, shared, event, disk);
}

/// While a job is under way no other begins, and what was not asked for changes nothing.
pub proof fn one_job_at_a_time(ctx: CtxView, shared: SharedView, job: Job, disk: Disk)
    requires
        !(ctx.phase is Idle),
    ensures
        ctx.after(shared, Event::Given(job), disk) == ctx.waiting(shared),
{
}

/// The launcher's directories and the host's architecture stay what they are.
pub proof fn the_place_never_changes(ctx: CtxView, shared: SharedView, event: Event, disk: Disk)
    ensures
        ctx.after(shared, event, disk).ctx.paths == ctx.paths,
        ctx.after(shared, event, disk).ctx.arch == ctx.arch,
{
    lemma_step(ctx, shared, event, disk);
}

/// A link that arrives before the game is installed is kept, and once all is installed it opens.
pub proof fn an_early_link_waits_for_the_installation(
    ctx: CtxView,
    shared: SharedView,
    uri: Seq<char>,
    disk: Disk,
)
    requires
        launchable(uri, "vortex://"@),
    ensures
        !ctx.config.has_game(disk) || !ctx.config.has_proton(ctx.arch, disk) ==> ctx.opening(
            shared,
            uri,
            disk,
        ).ctx.pending_uri == Some(uri),
        ctx.pending_uri == Some(uri) && ctx.config.has_game(disk) && ctx.config.has_proton(
            ctx.arch,
            disk,
        ) ==> ctx.set_up(shared, disk).action == ActionView::Launch(Target::Game, uri)
            && ctx.set_up(shared, disk).ctx.pending_uri is None,
{
}

/// A link from outside is launched only if it is one, and only with the game and Proton in place.
pub proof fn only_launch_links_are_opened(
    ctx: CtxView,
    shared: SharedView,
    uri: Seq<char>,
    disk: Disk,
)
    ensures
        ctx.opening(shared, uri, disk).action is Launch <==> launchable(uri, "vortex://"@)
            && ctx.config.has_game(disk) && ctx.config.has_proton(ctx.arch, disk),
        ctx.opening_in_studio(shared, uri, disk).action is Launch <==> launchable(
            uri,
            "vortex-studio://"@,
        ) && ctx.config.has_studio(disk) && ctx.config.has_proton(ctx.arch, disk),
{
}

/// Where the shader compiler cannot be installed the option goes off again, in the configuration and
/// on show, and the reason is told.
pub proof fn a_failed_compiler_leaves_the_option_off(
    ctx: CtxView,
    shared: SharedView,
    causes: Seq<CauseView>,
    disk: Disk,
)
    requires
        !causes.contains(CauseView::Cancelled),
    ensures
        ({
            let off = ctx.compiler_tried(shared, Err(causes), disk);
            let end = off.ctx.compiler_off(off.shared, causes);
            &&& !off.ctx.config.native_shader_compiler
            &&& !off.shared.status.native_shader_compiler
            &&& off.action is Save
            &&& off.ctx.phase == PhaseView::CompilerOff(causes)
            &&& !end.ctx.config.native_shader_compiler
            &&& !end.shared.status.native_shader_compiler
            &&& end.shared.status.error is Some
        }),
{
    let all = failure("could not install the shader compiler, the option stayed off"@) + causes;
    if all.contains(CauseView::Cancelled) {
        let i = choose|i: int| 0 <= i < all.len() && all[i] == CauseView::Cancelled;
        assert(causes[i - 1] == CauseView::Cancelled);
    }
}

/// After a look at what is installed, the option for the shader compiler is on only if the compiler
/// is in the prefix.
pub proof fn the_option_never_claims_a_missing_compiler(ctx: CtxView, disk: Disk)
    ensures
        ctx.checked(disk).config.native_shader_compiler ==> native(ctx.paths, disk),
        ctx.checked(disk).config.game is Some ==> ctx.config.has_game(disk),
        ctx.checked(disk).config.studio is Some ==> ctx.config.has_studio(disk),
{
}

/// What the user stops does not count as a failure: no error is shown for it.
pub proof fn a_stopped_job_is_no_failure(ctx: CtxView, shared: SharedView, causes: Seq<CauseView>)
    requires
        causes.contains(CauseView::Cancelled),
    ensures
        ctx.concluded(shared, Err(causes)).shared.status.error == shared.status.error,
{
}

/// A refused login shows what the server said where the user signs in, and not as a failure of the
/// launcher; nobody is signed in by it.
pub proof fn a_refused_login_is_no_failure(
    ctx: CtxView,
    shared: SharedView,
    causes: Seq<CauseView>,
)
    ensures
        ({
            let turn = ctx.signed(shared, Err(causes));
            &&& turn.shared.status.error == shared.status.error
            &&& turn.shared.status.auth_error == Some(described(causes))
            &&& turn.ctx.session == ctx.session
            &&& turn.action is Rest
        }),
{
}

/// A login that succeeded is kept even where the account cannot be looked up: under the name that
/// the user typed.
pub proof fn a_failing_lookup_does_not_undo_a_login(
    ctx: CtxView,
    shared: SharedView,
    token: Seq<char>,
    causes: Seq<CauseView>,
    disk: Disk,
)
    ensures
        ({
            let session = SessionView { token, username: ctx.typed_username, user_id: 0 };
            let looked = ctx.looked_up(shared, token, Err(causes));
            &&& looked.action == ActionView::Keep(session)
            &&& looked.ctx.phase == PhaseView::Keep(session)
            &&& looked.ctx.kept(looked.shared, session, Ok(()), disk).ctx.session == Some(session)
        }),
{
}

/// Signing out leaves nothing of the account: no session, no half-finished login, no games.
pub proof fn signing_out_leaves_nothing_behind(ctx: CtxView, shared: SharedView)
    ensures
        ({
            let turn = ctx.signing_out(shared);
            &&& turn.ctx.session is None && turn.ctx.pending_2fa is None
            &&& turn.ctx.selected_game is None && turn.shared.status.selected_game is None
            &&& turn.shared.status.account is None && !turn.shared.status.needs_2fa
            &&& turn.shared.status.games.len() == 0
            &&& turn.action is Forget
        }),
{
}

/// The games are listed with the most played first, then by name; none is lost or made up.
pub proof fn the_most_played_games_come_first(
    ctx: CtxView,
    shared: SharedView,
    games: Seq<GameView>,
    game: GameView,
)
    ensures
        ({
            let rows = ctx.loaded(shared, Ok(games)).shared.status.games;
            &&& forall|i: int, j: int|
                0 <= i < j < rows.len() ==> (#[trigger] rows[i]).players > (
                #[trigger] rows[j]).players || (rows[i].players == rows[j].players && in_order(
                    rows[i].name,
                    rows[j].name,
                ))
            &&& rows.len() == games.len()
            &&& games.contains(game) ==> rows.contains(row_of(game))
        }),
{
    let given = games.map_values(|game: GameView| row_of(game));
    sorting_is_stable::<GameRow>(given);
    let rows = rows_of(games);
    assert forall|i: int, j: int| 0 <= i < j < rows.len() implies (#[trigger] rows[i]).players > (
    #[trigger] rows[j]).players || (rows[i].players == rows[j].players && in_order(
        rows[i].name,
        rows[j].name,
    )) by {
        assert(GameRow::precedes(rows[i], rows[j]));
    }
    if games.contains(game) {
        let i = choose|i: int| 0 <= i < games.len() && games[i] == game;
        assert(given[i] == row_of(game));
        sorting_keeps_the_items::<GameRow>(rows, given, row_of(game));
    }
}

/// The game is downloaded again if and only if the server has another build than is installed.
pub proof fn only_a_new_build_is_downloaded(
    ctx: CtxView,
    shared: SharedView,
    installed: GameInstallView,
    remote: RemoteView,
)
    ensures
        ctx.update_probed(shared, installed, Ok(remote)).action is InstallGame <==> remote.differs(
            installed.etag,
            installed.last_modified,
            installed.size,
        ),
{
}

}
