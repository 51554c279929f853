//! What each job comes to.
use vstd::prelude::*;

use crate::auth::laws::{
    a_session_speaks_for_itself, gives, signing_in_gives_the_name_and_the_password,
    the_code_goes_with_its_login,
};
use crate::auth::{
    account_reply, games_reply, link_in, login_reply, play_page, play_reply, AccountView, GameView,
    LoginView,
};
use crate::config::{GameInstallView, ProtonInstallView};
use crate::disk::Disk;
use crate::error::{cause_text, failure, said, settled, CauseView, Error};
use crate::launch::Target;
use crate::net::laws::{a_probe_asks_for_one_byte, speaks_for, speaks_for_nobody};
use crate::net::{probed, RemoteView, Reply};
use crate::session::{Session, SessionView};
use crate::state::laws::same;
use crate::state::{SharedView, StatusView, Task};
use crate::text::{begins, decimal, texts};
use crate::worker::{
    described, reasons_from, session_over, Action, ActionView, Ctx, CtxView, Event, Job, Phase, PhaseView,
    TurnView,
};

verus! {

broadcast use vstd::string::group_string_axioms;

/// What the launcher knows, what it waits for and what it does is what the fields say.
pub proof fn what_is_known_is_what_the_fields_say(ctx: Ctx, session: Session)
    ensures
        ctx@.paths == ctx.paths,
        ctx@.arch == ctx.arch@,
        ctx@.config == ctx.config@,
        match ctx.session {
            Some(session) => ctx@.session == Some(session@),
            None => ctx@.session is None,
        },
        same(ctx.pending_2fa, ctx@.pending_2fa),
        ctx@.typed_username == ctx.typed_username@,
        ctx@.selected_game == ctx.selected_game,
        same(ctx.pending_uri, ctx@.pending_uri),
        ctx@.phase == ctx.phase@,
        session@.token == session.token@,
        session@.username == session.username@,
        session@.user_id == session.user_id,
{
}

/// What is done and what is waited for is what the fields say.
pub proof fn what_is_done_is_what_the_fields_say(action: Action, phase: Phase)
    ensures
        action matches Action::Keep(session) ==> action@ == ActionView::Keep(session@),
        action matches Action::Fetch(request) ==> action@ == ActionView::Fetch(request@),
        action matches Action::InstallProton(Some(tag)) ==> action@ == ActionView::InstallProton(
            Some(tag@),
        ),
        action matches Action::InstallProton(None) ==> action@ == ActionView::InstallProton(None),
        action matches Action::InstallStudio(token) ==> action@ == ActionView::InstallStudio(token@),
        action matches Action::LinkStudio(token) ==> action@ == ActionView::LinkStudio(token@),
        action matches Action::Launch(target, uri) ==> action@ == ActionView::Launch(target, uri@),
        action is Wait <==> action@ is Wait,
        action is Rest <==> action@ is Rest,
        action is Forget <==> action@ is Forget,
        action is Prepare <==> action@ is Prepare,
        action is Search <==> action@ is Search,
        action is Save <==> action@ is Save,
        action is InstallGame <==> action@ is InstallGame,
        action is InstallCompiler <==> action@ is InstallCompiler,
        phase matches Phase::DetectAccount(session) ==> phase@ == PhaseView::DetectAccount(session@),
        phase matches Phase::UpdateProbe(installed) ==> phase@ == PhaseView::UpdateProbe(installed@),
        phase matches Phase::CompilerOff(error) ==> phase@ == PhaseView::CompilerOff(error@),
        phase matches Phase::Lookup(token) ==> phase@ == PhaseView::Lookup(token@),
        phase matches Phase::Keep(session) ==> phase@ == PhaseView::Keep(session@),
        phase matches Phase::StudioInstall(token) ==> phase@ == PhaseView::StudioInstall(token@),
        phase matches Phase::StudioSave(token) ==> phase@ == PhaseView::StudioSave(token@),
{
}

/// A user who signs in is signed in under the name and with the password that were given: these are
/// the values of the fields of that name in the form that is posted.
pub proof fn a_user_signs_in_as_themselves(
    ctx: CtxView,
    shared: SharedView,
    username: String,
    password: String,
    disk: Disk,
)
    requires
        ctx.phase is Idle,
    ensures
        ({
            let turn = ctx.after(
                shared,
                Event::Given(Job::SignIn { username, password }),
                disk,
            );
            &&& turn.action matches ActionView::Fetch(request) && request.url
                == "https://playvortex.io/login"@ && gives(request, "username"@, username@) && gives(
                request,
                "password"@,
                password@,
            ) && speaks_for_nobody(request)
            &&& turn.ctx == (CtxView {
                typed_username: username@,
                phase: PhaseView::SignIn,
                ..ctx
            })
            &&& turn.shared.status.task == Some(Task::SigningIn)
            &&& turn.shared.status.auth_error is None && turn.shared.status.error is None
        }),
{
    signing_in_gives_the_name_and_the_password(username@, password@);
}

/// A code is posted with the token of the login that asked for it; without such a login it is refused
/// and nothing is posted.
pub proof fn a_code_belongs_to_the_login_that_asked_for_it(
    ctx: CtxView,
    shared: SharedView,
    code: String,
    disk: Disk,
)
    requires
        ctx.phase is Idle,
    ensures
        ({
            let turn = ctx.after(shared, Event::Given(Job::Submit2fa(code)), disk);
            &&& ctx.pending_2fa matches Some(pending) ==> (turn.action matches ActionView::Fetch(
                request,
            ) && request.url == "https://playvortex.io/login/2fa"@ && gives(
                request,
                "code"@,
                code@,
            ) && gives(request, "pending_token"@, pending) && speaks_for_nobody(request))
                && turn.ctx == (CtxView { phase: PhaseView::SecondFactor, ..ctx })
            &&& ctx.pending_2fa is None ==> turn.action is Rest && turn.ctx == ctx
                && turn.shared.status.error == Some("the two-factor step expired, sign in again"@)
        }),
{
    if let Some(pending) = ctx.pending_2fa {
        the_code_goes_with_its_login(pending, code@);
    } else {
        lemma_one_reason("the two-factor step expired, sign in again"@);
    }
}

proof fn lemma_one_reason(text: Seq<char>)
    ensures
        described(failure(text)) == text,
        !failure(text).contains(CauseView::Cancelled),
{
    assert(text + Seq::<char>::empty() =~= text);
}

/// What goes wrong is told with all its reasons, the outermost first, with colons between them.
pub proof fn all_reasons_are_told(text: Seq<char>, more: Seq<char>, rest: Seq<CauseView>)
    ensures
        described(failure(text)) == text,
        described(failure(text) + failure(more)) == text + ": "@ + more,
        described(seq![CauseView::Message(text), CauseView::Cancelled]) == text + ": cancelled"@,
{
    lemma_one_reason(text);
    let two = failure(text) + failure(more);
    reveal_with_fuel(reasons_from, 3);
    assert(described(two) =~= text + ": "@ + more);
    reveal_strlit(": ");
    reveal_strlit("cancelled");
    reveal_strlit(": cancelled");
    let stopped = seq![CauseView::Message(text), CauseView::Cancelled];
    assert(": "@ + "cancelled"@ =~= ": cancelled"@);
    assert(described(stopped) =~= text + ": cancelled"@);
}

proof fn lemma_reasons_shifted(first: CauseView, rest: Seq<CauseView>, i: int)
    requires
        0 <= i <= rest.len(),
    ensures
        reasons_from(seq![first] + rest, i + 1) == reasons_from(rest, i),
    decreases rest.len() - i,
{
    if i < rest.len() {
        lemma_reasons_shifted(first, rest, i + 1);
        assert((seq![first] + rest)[i + 1] == rest[i]);
    }
}

/// However many reasons a failure has, the outermost is told first, and behind a colon all the others
/// as they would be told on their own.
pub proof fn a_reason_is_told_in_front_of_the_others(text: Seq<char>, rest: Seq<CauseView>)
    requires
        rest.len() > 0,
    ensures
        described(failure(text) + rest) == text + ": "@ + described(rest),
        described(seq![]) == "unknown error"@,
{
    let first = CauseView::Message(text);
    let all = failure(text) + rest;
    assert(all =~= seq![first] + rest);
    lemma_reasons_shifted(first, rest, 0);
    assert(all[0] == first);
    let tail = reasons_from(rest, 1);
    assert(reasons_from(rest, 0) == ": "@ + cause_text(rest[0]) + tail);
    assert(text + (": "@ + cause_text(rest[0]) + tail) =~= text + ": "@ + (cause_text(rest[0])
        + tail));
}

/// Whether a step asks only for whom it may: a request of a session carries that session's token and
/// no other, the studio is fetched and linked for that session, and every other request speaks for
/// nobody.
pub open spec fn asks_for_its_own(ctx: CtxView, turn: TurnView) -> bool {
    &&& turn.action matches ActionView::Fetch(request) ==> match turn.ctx.phase {
        PhaseView::PlayPage => ctx.session matches Some(session) && speaks_for(
            request,
            session.token,
        ),
        PhaseView::DetectAccount(stored) => ctx.session == Some(stored) && speaks_for(
            request,
            stored.token,
        ),
        PhaseView::Lookup(token) => speaks_for(request, token),
        PhaseView::SignIn | PhaseView::SecondFactor | PhaseView::Games | PhaseView::UpdateProbe(
            _,
        ) => speaks_for_nobody(request),
        _ => false,
    }
    &&& turn.action matches ActionView::InstallStudio(token) ==> ctx.session is Some
        && ctx.session->0.token == token && turn.ctx.phase == PhaseView::StudioInstall(token)
    &&& turn.action matches ActionView::LinkStudio(token) ==> turn.ctx.phase is StudioLink && (
    ctx.phase == PhaseView::StudioSave(token) || ctx.session is Some && ctx.session->0.token
        == token)
    &&& turn.ctx.phase matches PhaseView::StudioSave(token) ==> ctx.phase
        == PhaseView::StudioSave(token) || ctx.phase == PhaseView::StudioInstall(token)
}

proof fn lemma_fetches(ctx: CtxView, shared: SharedView, token: Seq<char>, game: u64)
    ensures
        speaks_for_nobody(ctx.loading(shared).action->Fetch_0),
        speaks_for(ctx.looking_up(shared, token).action->Fetch_0, token),
        ctx.session is Some ==> speaks_for(
            ctx.playing(shared).action->Fetch_0,
            ctx.session->0.token,
        ),
        ctx.session is Some ==> speaks_for(
            ctx.detect_saved(shared, Ok(())).action->Fetch_0,
            ctx.session->0.token,
        ),
        ctx.config.game is Some ==> speaks_for_nobody(ctx.checking(shared).action->Fetch_0),
{
    a_session_speaks_for_itself("https://playvortex.io/api/users/me"@, token);
    a_probe_asks_for_one_byte("https://playvortex.io/download/windows"@, None);
    if let Some(session) = ctx.session {
        a_session_speaks_for_itself("https://playvortex.io/api/users/me"@, session.token);
        a_session_speaks_for_itself(
            play_page(ctx.game_to_play(shared.begun(Task::Launching)), None),
            session.token,
        );
    }
}

#[verifier::rlimit(40)]
proof fn lemma_given_asks(ctx: CtxView, shared: SharedView, job: Job, disk: Disk)
    ensures
        ctx.phase is Idle ==> asks_for_its_own(ctx, ctx.given(shared, job, disk)),
{
    lemma_fetches(ctx, shared, seq![], 0);
    match job {
        Job::SignIn { username, password } => {
            signing_in_gives_the_name_and_the_password(username@, password@);
        },
        Job::Submit2fa(code) => {
            if let Some(pending) = ctx.pending_2fa {
                the_code_goes_with_its_login(pending, code@);
            }
        },
        _ => {},
    }
}

proof fn lemma_accounts_ask(
    ctx: CtxView,
    shared: SharedView,
    stored: SessionView,
    token: Seq<char>,
    account: Result<AccountView, Seq<CauseView>>,
    disk: Disk,
)
    ensures
        asks_for_its_own(ctx, ctx.detect_known(shared, stored, account, disk)),
        asks_for_its_own(ctx, ctx.looked_up(shared, token, account)),
{
}

proof fn lemma_logins_ask(
    ctx: CtxView,
    shared: SharedView,
    login: Result<LoginView, Seq<CauseView>>,
)
    ensures
        asks_for_its_own(ctx, ctx.signed(shared, login)),
        asks_for_its_own(ctx, ctx.submitted(shared, login)),
{
    if let Ok(LoginView::Done(token)) = login {
        lemma_fetches(ctx, shared, token, 0);
        lemma_fetches(
            CtxView { pending_2fa: None, ..ctx },
            shared.with(StatusView { needs_2fa: false, ..shared.status }),
            token,
            0,
        );
    }
}

proof fn lemma_lists_ask(
    ctx: CtxView,
    shared: SharedView,
    games: Result<Seq<GameView>, Seq<CauseView>>,
    installed: GameInstallView,
    remote: Result<RemoteView, Seq<CauseView>>,
)
    ensures
        asks_for_its_own(ctx, ctx.loaded(shared, games)),
        asks_for_its_own(ctx, ctx.update_probed(shared, installed, remote)),
{
}

proof fn lemma_linked_asks(
    ctx: CtxView,
    shared: SharedView,
    target: Target,
    uri: Result<Seq<char>, Seq<CauseView>>,
    disk: Disk,
)
    ensures
        asks_for_its_own(ctx, ctx.linked(shared, target, uri, disk)),
{
}

proof fn lemma_answered_asks(
    ctx: CtxView,
    shared: SharedView,
    reply: Result<Reply, Error>,
    disk: Disk,
)
    ensures
        asks_for_its_own(ctx, ctx.answered(shared, reply, disk)),
{
    match ctx.phase {
        PhaseView::DetectAccount(stored) => {
            lemma_accounts_ask(ctx, shared, stored, stored.token, account_reply(reply), disk);
        },
        PhaseView::Lookup(token) => {
            let stored = SessionView { token, username: token, user_id: 0 };
            lemma_accounts_ask(ctx, shared, stored, token, account_reply(reply), disk);
        },
        PhaseView::Games => {
            lemma_lists_ask(ctx, shared, games_reply(reply), arbitrary(), arbitrary());
        },
        PhaseView::UpdateProbe(installed) => {
            lemma_lists_ask(
                ctx,
                shared,
                arbitrary(),
                installed,
                probed("https://playvortex.io/download/windows"@, reply),
            );
        },
        PhaseView::SignIn => {
            lemma_logins_ask(ctx, shared, login_reply("https://playvortex.io/login"@, reply));
        },
        PhaseView::SecondFactor => {
            lemma_logins_ask(ctx, shared, login_reply("https://playvortex.io/login/2fa"@, reply));
        },
        PhaseView::PlayPage => {
            lemma_linked_asks(ctx, shared, Target::Game, play_reply(reply), disk);
        },
        _ => {},
    }
}

#[verifier::rlimit(40)]
proof fn lemma_saved_asks(
    ctx: CtxView,
    shared: SharedView,
    result: Result<(), Seq<CauseView>>,
    disk: Disk,
)
    ensures
        asks_for_its_own(ctx, ctx.saved(shared, result, disk)),
{
    lemma_fetches(ctx, shared, seq![], 0);
}

#[verifier::rlimit(40)]
proof fn lemma_setup_asks(
    ctx: CtxView,
    shared: SharedView,
    result: Result<(), Seq<CauseView>>,
    steam: Seq<Seq<char>>,
    host: Option<(u32, u32)>,
    disk: Disk,
)
    ensures
        asks_for_its_own(ctx, ctx.detect_prepared(shared, result, disk)),
        asks_for_its_own(ctx, ctx.setup_prepared(shared, result, disk)),
        asks_for_its_own(ctx, ctx.detect_searched(shared, steam, host, disk)),
        asks_for_its_own(ctx, ctx.setup_searched(shared, steam, host, disk)),
{
}

proof fn lemma_kept_asks(
    ctx: CtxView,
    shared: SharedView,
    session: SessionView,
    result: Result<(), Seq<CauseView>>,
    disk: Disk,
)
    ensures
        asks_for_its_own(ctx, ctx.kept(shared, session, result, disk)),
        asks_for_its_own(ctx, ctx.compiler_tried(shared, result, disk)),
        asks_for_its_own(ctx, ctx.concluded(shared, result)),
{
}

proof fn lemma_installed_asks(
    ctx: CtxView,
    shared: SharedView,
    proton: Result<ProtonInstallView, Seq<CauseView>>,
    game: Result<GameInstallView, Seq<CauseView>>,
    token: Seq<char>,
)
    ensures
        asks_for_its_own(ctx, ctx.setup_got_proton(shared, proton)),
        asks_for_its_own(ctx, ctx.got_game(shared, game, PhaseView::SetupGameSave)),
        asks_for_its_own(ctx, ctx.got_game(shared, game, PhaseView::UpdateSave)),
        ctx.phase == PhaseView::StudioInstall(token) ==> asks_for_its_own(
            ctx,
            ctx.got_studio(shared, token, game),
        ),
{
}

/// Whatever is asked for a session carries exactly one cookie, with the token of that session; no
/// other request carries any.
pub proof fn every_request_speaks_for_its_own_session(
    ctx: CtxView,
    shared: SharedView,
    event: Event,
    disk: Disk,
)
    ensures
        asks_for_its_own(ctx, ctx.after(shared, event, disk)),
{
    match event {
        Event::Given(job) => {
            lemma_given_asks(ctx, shared, job, disk);
        },
        Event::Replied(reply) => {
            lemma_answered_asks(ctx, shared, reply, disk);
        },
        Event::Saved(result) => {
            lemma_saved_asks(ctx, shared, settled(result), disk);
        },
        Event::Linked(uri) => {
            lemma_linked_asks(ctx, shared, Target::Studio, said(uri), disk);
        },
        Event::Kept(result) => {
            if let PhaseView::Keep(session) = ctx.phase {
                lemma_kept_asks(ctx, shared, session, settled(result), disk);
            }
        },
        Event::Prepared(result) => {
            lemma_setup_asks(ctx, shared, settled(result), arbitrary(), arbitrary(), disk);
        },
        Event::Searched { steam, host } => {
            lemma_setup_asks(ctx, shared, arbitrary(), texts(steam@), host, disk);
        },
        Event::ProtonInstalled(result) => {
            lemma_installed_asks(ctx, shared, said(result), arbitrary(), arbitrary());
        },
        Event::GameInstalled(result) => {
            let token = if let PhaseView::StudioInstall(token) = ctx.phase {
                token
            } else {
                seq![]
            };
            lemma_installed_asks(ctx, shared, arbitrary(), said(result), token);
        },
        Event::CompilerInstalled(result) => {
            lemma_kept_asks(ctx, shared, arbitrary(), settled(result), disk);
        },
        Event::Launched(result) => {
            lemma_kept_asks(ctx, shared, arbitrary(), settled(result), disk);
        },
    }
}

/// Playing asks for the page of the game that the user picked, or of the one shown as picked, or of
/// the first ever, and for the session that is signed in. Without a session nothing is asked for.
pub proof fn playing_asks_for_the_game_that_was_picked(
    ctx: CtxView,
    shared: SharedView,
    disk: Disk,
)
    requires
        ctx.phase is Idle,
    ensures
        ({
            let turn = ctx.after(shared, Event::Given(Job::Play), disk);
            let game: u64 = if ctx.selected_game is Some {
                ctx.selected_game->0
            } else if shared.status.selected_game is Some {
                shared.status.selected_game->0
            } else {
                1
            };
            &&& ctx.session matches Some(session) ==> (turn.action matches ActionView::Fetch(request)
                && request.url == "https://playvortex.io/games/"@ + decimal(game as nat) + "/play"@
                && request.form is None && speaks_for(request, session.token)) && turn.ctx == (
            CtxView { phase: PhaseView::PlayPage, ..ctx })
            &&& ctx.session is None ==> turn.action is Rest && turn.ctx == ctx
                && turn.shared.status.error == Some("sign in first"@)
        }),
{
    lemma_fetches(ctx, shared, seq![], 0);
    lemma_one_reason("sign in first"@);
}

/// A page that is served with a link starts the game with that link.
pub proof fn the_link_of_the_play_page_is_launched(
    ctx: CtxView,
    shared: SharedView,
    reply: Reply,
    body: String,
    uri: Seq<char>,
    disk: Disk,
)
    requires
        ctx.phase is PlayPage,
        200 <= reply.status <= 299,
        reply.body == Ok::<String, Error>(body),
        link_in(body@) == Some(uri),
    ensures
        ({
            let turn = ctx.after(shared, Event::Replied(Ok(reply)), disk);
            &&& turn.action == ActionView::Launch(Target::Game, uri)
            &&& turn.ctx == (CtxView { phase: PhaseView::Launch, ..ctx })
        }),
{
}

/// A play page that does not let the session in, or sends it elsewhere, ends it: the stored session
/// is removed, and the user is told to sign in again.
pub proof fn a_session_that_is_turned_away_ends(
    ctx: CtxView,
    shared: SharedView,
    reply: Reply,
    disk: Disk,
)
    requires
        ctx.phase is PlayPage,
        reply.status == 401 || reply.status == 403 || 300 <= reply.status <= 399,
    ensures
        ({
            let turn = ctx.after(shared, Event::Replied(Ok(reply)), disk);
            &&& turn.action is Forget
            &&& turn.ctx == (CtxView { session: None, phase: PhaseView::Idle, ..ctx })
            &&& turn.shared.status.account is None
            &&& turn.shared.status.error == Some("your session expired, sign in again"@)
        }),
{
    reveal_strlit("session expired");
    reveal_strlit("session expired (the play page answered HTTP ");
    lemma_one_reason("your session expired, sign in again"@);
    let causes = play_reply(Ok(reply))->Err_0;
    let text = "session expired (the play page answered HTTP "@ + decimal(reply.status as nat)
        + ")"@;
    assert(causes[0] == CauseView::Message(text));
    assert(text.subrange(0, 15) =~= "session expired"@);
    assert(begins(cause_text(causes[0]), "session expired"@));
    assert(session_over(causes));
}

/// Any other failure of the play page is told, and the session stays.
pub proof fn another_failure_of_the_play_page_ends_nothing(
    ctx: CtxView,
    shared: SharedView,
    reply: Reply,
    disk: Disk,
)
    requires
        ctx.phase is PlayPage,
        reply.status < 200 || 400 <= reply.status,
        reply.status != 401 && reply.status != 403,
    ensures
        ({
            let turn = ctx.after(shared, Event::Replied(Ok(reply)), disk);
            &&& turn.action is Rest
            &&& turn.ctx == (CtxView { phase: PhaseView::Idle, ..ctx })
            &&& turn.shared.status.account == shared.status.account
            &&& turn.shared.status.error == Some(
                "the play page answered HTTP "@ + decimal(reply.status as nat),
            )
        }),
{
    reveal_strlit("session expired");
    reveal_strlit("the play page answered HTTP ");
    let text = "the play page answered HTTP "@ + decimal(reply.status as nat);
    lemma_one_reason(text);
    let causes = play_reply(Ok(reply))->Err_0;
    assert(causes == failure(text));
    if session_over(causes) {
        assert(begins(text, "session expired"@));
        assert(text.subrange(0, 15)[0] == 't');
        assert("session expired"@[0] == 's');
    }
}

/// The token of the studio's link leads to its launch; what ends the session there ends it here.
pub proof fn the_studio_is_launched_with_its_link(
    ctx: CtxView,
    shared: SharedView,
    uri: String,
    disk: Disk,
)
    requires
        ctx.phase is StudioLink,
    ensures
        ctx.after(shared, Event::Linked(Ok(uri)), disk).action == ActionView::Launch(
            Target::Studio,
            uri@,
        ),
        ctx.after(shared, Event::Linked(Ok(uri)), disk).ctx == (CtxView {
            phase: PhaseView::Launch,
            ..ctx
        }),
{
}

/// The token that a login is answered with is the one whose account is looked up, whatever was known
/// before; a login that asks for a code keeps the token for that.
pub proof fn the_token_of_a_login_is_looked_up(
    ctx: CtxView,
    shared: SharedView,
    reply: Result<Reply, Error>,
    disk: Disk,
)
    requires
        ctx.phase is SignIn,
    ensures
        ({
            let turn = ctx.after(shared, Event::Replied(reply), disk);
            let login = login_reply("https://playvortex.io/login"@, reply);
            &&& login matches Ok(LoginView::Done(token)) ==> (turn.action matches ActionView::Fetch(
                request,
            ) && request.url == "https://playvortex.io/api/users/me"@ && speaks_for(request, token))
                && turn.ctx == (CtxView { phase: PhaseView::Lookup(token), ..ctx })
            &&& login matches Ok(LoginView::Needs2fa(pending)) ==> turn.action is Rest && turn.ctx
                == (CtxView { pending_2fa: Some(pending), phase: PhaseView::Idle, ..ctx })
                && turn.shared.status.needs_2fa && turn.shared.status.error == shared.status.error
            &&& login matches Err(causes) ==> turn.action is Rest && turn.ctx == (CtxView {
                phase: PhaseView::Idle,
                ..ctx
            }) && turn.shared.status.auth_error == Some(described(causes))
        }),
{
    let login = login_reply("https://playvortex.io/login"@, reply);
    if let Ok(LoginView::Done(token)) = login {
        lemma_fetches(ctx, shared, token, 0);
    }
}

/// A code that is accepted leads on as a login does; one that is not is told, and can be given again.
pub proof fn an_accepted_code_leads_on(
    ctx: CtxView,
    shared: SharedView,
    reply: Result<Reply, Error>,
    disk: Disk,
)
    requires
        ctx.phase is SecondFactor,
    ensures
        ({
            let turn = ctx.after(shared, Event::Replied(reply), disk);
            let login = login_reply("https://playvortex.io/login/2fa"@, reply);
            &&& login matches Ok(LoginView::Done(token)) ==> (turn.action matches ActionView::Fetch(
                request,
            ) && request.url == "https://playvortex.io/api/users/me"@ && speaks_for(request, token))
                && turn.ctx == (CtxView {
                pending_2fa: None,
                phase: PhaseView::Lookup(token),
                ..ctx
            }) && !turn.shared.status.needs_2fa
            &&& login matches Ok(LoginView::Needs2fa(_)) ==> turn.action is Rest && turn.ctx == (
            CtxView { phase: PhaseView::Idle, ..ctx }) && turn.shared.status.auth_error == Some(
                "that code was not accepted"@,
            )
            &&& login matches Err(causes) ==> turn.action is Rest && turn.ctx == (CtxView {
                phase: PhaseView::Idle,
                ..ctx
            }) && turn.shared.status.auth_error == Some(described(causes))
        }),
{
    let login = login_reply("https://playvortex.io/login/2fa"@, reply);
    if let Ok(LoginView::Done(token)) = login {
        lemma_fetches(
            CtxView { pending_2fa: None, ..ctx },
            shared.with(StatusView { needs_2fa: false, ..shared.status }),
            token,
            0,
        );
    }
}

/// The session that is kept has the token of the login, with the name and the number of its account;
/// once it is kept it is the one that is signed in, it is shown, and the games are asked for.
pub proof fn the_session_that_is_kept_is_the_one_that_signed_in(
    ctx: CtxView,
    shared: SharedView,
    token: Seq<char>,
    session: SessionView,
    reply: Result<Reply, Error>,
    disk: Disk,
)
    ensures
        ctx.phase == PhaseView::Lookup(token) ==> ({
            let turn = ctx.after(shared, Event::Replied(reply), disk);
            &&& turn.action matches ActionView::Keep(kept) && turn.ctx == (CtxView {
                phase: PhaseView::Keep(kept),
                ..ctx
            }) && kept.token == token && match account_reply(reply) {
                Ok(account) => kept.username == account.username && kept.user_id == account.id,
                Err(_) => kept.username == ctx.typed_username && kept.user_id == 0,
            }
        }),
        ctx.phase == PhaseView::Keep(session) ==> ({
            let turn = ctx.after(shared, Event::Kept(Ok(())), disk);
            &&& turn.ctx == (CtxView { session: Some(session), phase: PhaseView::Games, ..ctx })
            &&& turn.shared.status.account == Some(session.username)
            &&& !turn.shared.status.needs_2fa && turn.shared.status.auth_error is None
            &&& turn.action matches ActionView::Fetch(request) && request.url
                == "https://playvortex.io/api/games"@ && request.form is None && speaks_for_nobody(
                request,
            )
        }),
{
}

/// The account that is served for the stored session gives it its name and its number; the token
/// stays, and without an answer all of it does. The games are asked for either way.
pub proof fn a_stored_session_keeps_its_token(
    ctx: CtxView,
    shared: SharedView,
    stored: SessionView,
    reply: Result<Reply, Error>,
    disk: Disk,
)
    requires
        ctx.phase == PhaseView::DetectAccount(stored),
    ensures
        ({
            let turn = ctx.after(shared, Event::Replied(reply), disk);
            &&& account_reply(reply) matches Ok(account) ==> turn.ctx.session is Some
                && turn.ctx.session->0.token == stored.token && turn.ctx.session->0.username
                == account.username && turn.ctx.session->0.user_id == account.id
                && turn.shared.status.account == Some(account.username)
            &&& account_reply(reply) is Err ==> turn.ctx.session == ctx.session
            &&& turn.ctx == (CtxView {
                session: turn.ctx.session,
                phase: PhaseView::Games,
                ..ctx
            })
            &&& turn.action matches ActionView::Fetch(request) && request.url
                == "https://playvortex.io/api/games"@
        }),
{
}

/// The account that is asked for after the configuration was saved is that of the stored session.
pub proof fn the_stored_session_is_checked(
    ctx: CtxView,
    shared: SharedView,
    disk: Disk,
)
    requires
        ctx.phase is DetectSave,
    ensures
        ({
            let turn = ctx.after(shared, Event::Saved(Ok(())), disk);
            &&& ctx.session matches Some(session) ==> (turn.action matches ActionView::Fetch(request)
                && request.url == "https://playvortex.io/api/users/me"@ && speaks_for(
                request,
                session.token,
            )) && turn.ctx == (CtxView { phase: PhaseView::DetectAccount(session), ..ctx })
            &&& ctx.session is None ==> turn.action is Rest && turn.ctx == (CtxView {
                phase: PhaseView::Idle,
                ..ctx
            })
        }),
{
    lemma_fetches(ctx, shared, seq![], 0);
}

}
