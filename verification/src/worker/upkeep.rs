//! What is installed, kept up to date, configured and shown.
use vstd::prelude::*;

use crate::auth::{games_reply, launchable, GameView};
use crate::config::{ConfigView, GameInstall, GameInstallView, ProtonInstall};
use crate::disk::Disk;
use crate::error::{failure, CauseView, Error};
use crate::launch::Target;
use crate::net::laws::{
    a_probe_asks_for_one_byte, a_probe_tells_what_the_answer_carries, says_once, speaks_for_nobody,
};
use crate::net::{probed, Manner, Reply};
use crate::paths::joined;
use crate::proton::laws::the_best_build_is_picked;
use crate::proton::{found_builds, preferred, usable};
use crate::shaders::native;
use crate::state::{SharedView, StatusView, Task};
use crate::text::{text_in, texts};
use crate::worker::jobs::{a_reason_is_told_in_front_of_the_others, all_reasons_are_told};
use crate::worker::laws::the_most_played_games_come_first;
use crate::worker::{
    described, row_of, session_over, ActionView, CtxView, Event, Job, PhaseView, TurnView,
};

verus! {

broadcast use vstd::string::group_string_axioms;

/// What is shown of the installation and of the account is what is there: the files of the programs,
/// a Proton build that can be used, the settings, and the name of the session.
pub open spec fn shows_what_is_there(ctx: CtxView, status: StatusView, disk: Disk) -> bool {
    &&& status.game_ready == (ctx.config.game is Some && disk.file(ctx.config.game->0.exe))
    &&& status.studio_ready == (ctx.config.studio is Some && disk.file(ctx.config.studio->0.exe))
    &&& status.proton_ready == (ctx.config.proton is Some && usable(
        ctx.config.proton->0.dir,
        ctx.arch,
        disk,
    ))
    &&& match ctx.config.proton {
        Some(proton) => status.proton_name == Some(proton.name),
        None => status.proton_name is None,
    }
    &&& status.allow_self_update == ctx.config.allow_self_update
    &&& status.native_shader_compiler == ctx.config.native_shader_compiler
    &&& match ctx.session {
        Some(session) => status.account == Some(session.username),
        None => status.account is None,
    }
}

/// What is published is what is there, and nothing else of what is shown changes.
pub proof fn what_is_published_is_there(ctx: CtxView, shared: SharedView, disk: Disk)
    ensures
        ({
            let after = ctx.published(shared, disk);
            let was = shared.status;
            &&& shows_what_is_there(ctx, after.status, disk)
            &&& after.lines == shared.lines && after.cancel == shared.cancel
            &&& after.status.task == was.task && after.status.detail == was.detail
            &&& after.status.progress == was.progress && after.status.error == was.error
            &&& after.status.game_running == was.game_running
            &&& after.status.studio_running == was.studio_running
            &&& after.status.update_available == was.update_available
            &&& after.status.needs_2fa == was.needs_2fa && after.status.auth_error == was.auth_error
            &&& after.status.games == was.games && after.status.selected_game == was.selected_game
        }),
{
}

/// A check for updates asks for the first byte of the game's archive, and for nobody; where no game
/// is configured, all is installed instead.
pub proof fn an_update_is_looked_for_where_the_game_comes_from(
    ctx: CtxView,
    shared: SharedView,
    disk: Disk,
)
    requires
        ctx.phase is Idle,
    ensures
        ({
            let turn = ctx.after(shared, Event::Given(Job::CheckUpdate), disk);
            &&& ctx.config.game matches Some(installed) ==> (turn.action matches ActionView::Fetch(
                request,
            ) && request.url == "https://playvortex.io/download/windows"@ && request.manner
                == Manner::Probe && request.form is None && says_once(
                request.headers,
                "Range"@,
                "bytes=0-0"@,
            ) && speaks_for_nobody(request)) && turn.ctx == (CtxView {
                phase: PhaseView::UpdateProbe(installed),
                ..ctx
            })
            &&& ctx.config.game is None ==> turn.action is Prepare && turn.ctx == (CtxView {
                phase: PhaseView::SetupPrepare,
                ..ctx
            })
            &&& turn.shared.status.task == Some(Task::CheckingUpdate)
        }),
{
    a_probe_asks_for_one_byte("https://playvortex.io/download/windows"@, None);
}

/// Whether what the server said of its archive tells another build than the installed one: by the
/// entity tags where both are known, else by the dates where both are known, else by the sizes.
pub open spec fn another_build(
    installed: GameInstallView,
    etag: Option<Seq<char>>,
    date: Option<Seq<char>>,
    size: u64,
) -> bool {
    if installed.etag is Some && etag is Some {
        installed.etag->0 != etag->0
    } else if installed.last_modified is Some && date is Some {
        installed.last_modified->0 != date->0
    } else {
        installed.size != size
    }
}

/// The game is downloaded again exactly if the answer to the probe tells another build than the
/// installed one; else it is up to date, and that is shown.
pub proof fn an_update_is_downloaded_if_the_answer_tells_another_build(
    ctx: CtxView,
    shared: SharedView,
    installed: GameInstallView,
    reply: Reply,
    disk: Disk,
)
    requires
        ctx.phase == PhaseView::UpdateProbe(installed),
        200 <= reply.status <= 299,
    ensures
        ({
            let turn = ctx.after(shared, Event::Replied(Ok(reply)), disk);
            let size = probed("https://playvortex.io/download/windows"@, Ok(reply))->Ok_0.size;
            if another_build(
                installed,
                text_in(reply.headers.etag),
                text_in(reply.headers.last_modified),
                size,
            ) {
                &&& turn.action is InstallGame
                &&& turn.ctx == (CtxView { phase: PhaseView::UpdateGame, ..ctx })
                &&& turn.shared.status.task == Some(Task::InstallingGame)
                &&& turn.shared.lines == shared.lines.push("new vortex build, downloading"@)
            } else {
                &&& turn.action is Rest
                &&& turn.ctx == (CtxView { phase: PhaseView::Idle, ..ctx })
                &&& !turn.shared.status.update_available
                &&& turn.shared.lines == shared.lines.push("vortex is up to date"@)
            }
        }),
{
    a_probe_tells_what_the_answer_carries(
        "https://playvortex.io/download/windows"@,
        reply,
        seq![],
        0,
    );
}

/// What the installation of a program gives is what is configured for that program, and for no other,
/// and is saved.
pub proof fn an_installed_program_is_configured(
    ctx: CtxView,
    shared: SharedView,
    program: GameInstall,
    disk: Disk,
)
    ensures
        ({
            let turn = ctx.after(shared, Event::GameInstalled(Ok(program)), disk);
            &&& ctx.phase is SetupGame ==> turn.action is Save && turn.ctx == (CtxView {
                config: ConfigView { game: Some(program@), ..ctx.config },
                phase: PhaseView::SetupGameSave,
                ..ctx
            })
            &&& ctx.phase is UpdateGame ==> turn.action is Save && turn.ctx == (CtxView {
                config: ConfigView { game: Some(program@), ..ctx.config },
                phase: PhaseView::UpdateSave,
                ..ctx
            })
            &&& ctx.phase matches PhaseView::StudioInstall(token) ==> turn.action is Save
                && turn.ctx == (CtxView {
                config: ConfigView { studio: Some(program@), ..ctx.config },
                phase: PhaseView::StudioSave(token),
                ..ctx
            })
        }),
{
}

/// The Proton build that was installed is the one that is configured, and is saved.
pub proof fn an_installed_proton_is_configured(
    ctx: CtxView,
    shared: SharedView,
    proton: ProtonInstall,
    disk: Disk,
)
    requires
        ctx.phase is SetupProton,
    ensures
        ({
            let turn = ctx.after(shared, Event::ProtonInstalled(Ok(proton)), disk);
            turn.action is Save && turn.ctx == (CtxView {
                config: ConfigView { proton: Some(proton@), ..ctx.config },
                phase: PhaseView::SetupProtonSave,
                ..ctx
            })
        }),
{
}

/// Once the directories are made, what is installed is looked at: a program whose file is gone is
/// dropped, and only that; the option for the shader compiler goes off where the compiler is gone.
/// Where Proton can be used that is saved, and else a build is searched for.
pub proof fn what_is_gone_is_dropped(
    ctx: CtxView,
    shared: SharedView,
    disk: Disk,
)
    requires
        ctx.phase is DetectPrepare,
    ensures
        ({
            let turn = ctx.after(shared, Event::Prepared(Ok(())), disk);
            let usable_here = ctx.config.proton is Some && usable(
                ctx.config.proton->0.dir,
                ctx.arch,
                disk,
            );
            &&& turn.ctx.config.game == (if ctx.config.game is Some && disk.file(
                ctx.config.game->0.exe,
            ) {
                ctx.config.game
            } else {
                None
            })
            &&& turn.ctx.config.studio == (if ctx.config.studio is Some && disk.file(
                ctx.config.studio->0.exe,
            ) {
                ctx.config.studio
            } else {
                None
            })
            &&& turn.ctx.config.native_shader_compiler == (ctx.config.native_shader_compiler
                && native(ctx.paths, disk))
            &&& turn.ctx.config.proton == ctx.config.proton
            &&& turn.ctx.config.proton_wanted == ctx.config.proton_wanted
            &&& turn.ctx.config.allow_self_update == ctx.config.allow_self_update
            &&& turn.ctx == (CtxView {
                config: turn.ctx.config,
                phase: turn.ctx.phase,
                ..ctx
            })
            &&& turn.shared.lines == if ctx.config.native_shader_compiler && !native(
                ctx.paths,
                disk,
            ) {
                shared.lines.push(
                    "native d3dcompiler_47 is not in the prefix, turning the option back off"@,
                )
            } else {
                shared.lines
            }
            &&& if usable_here {
                turn.action is Save && turn.ctx.phase is DetectSave && shows_what_is_there(
                    turn.ctx,
                    turn.shared.status,
                    disk,
                )
            } else {
                turn.action is Search && turn.ctx.phase is DetectSearch
            }
        }),
{
}

/// The Proton build that a search puts to use is the best of those that lie in the launcher's own
/// directory or in Steam's, and none only where there is none; nothing else of the configuration
/// changes.
pub proof fn a_search_puts_the_best_build_to_use(
    ctx: CtxView,
    shared: SharedView,
    steam: Vec<String>,
    host: Option<(u32, u32)>,
    disk: Disk,
)
    requires
        ctx.phase is DetectSearch || ctx.phase is SetupSearch,
    ensures
        ({
            let turn = ctx.after(shared, Event::Searched { steam, host }, disk);
            let builds = found_builds(
                joined(ctx.paths.data@, "proton"@),
                texts(steam@),
                ctx.arch,
                disk,
            );
            &&& turn.ctx.config == (ConfigView { proton: turn.ctx.config.proton, ..ctx.config })
            &&& turn.ctx.config.proton is None <==> builds.len() == 0
            &&& turn.ctx.config.proton matches Some(proton) ==> exists|i: int|
                0 <= i < builds.len() && (#[trigger] builds[i]).name == proton.name && builds[i].dir
                    == proton.dir && builds[i].source == proton.source && preferred(builds, host)
                    == Some(builds[i])
            &&& ctx.phase is DetectSearch ==> turn.shared.lines == (
            match turn.ctx.config.proton {
                Some(proton) => shared.lines.push("found "@ + proton.name),
                None => shared.lines,
            })
            &&& ctx.phase is DetectSearch ==> turn.action is Save && turn.ctx.phase is DetectSave
                && shows_what_is_there(turn.ctx, turn.shared.status, disk)
            &&& ctx.phase is SetupSearch && !(turn.ctx.config.proton is Some && usable(
                turn.ctx.config.proton->0.dir,
                ctx.arch,
                disk,
            )) ==> turn.action == ActionView::InstallProton(ctx.config.proton_wanted)
                && turn.ctx.phase is SetupProton && turn.shared.status.task == Some(
                Task::InstallingProton,
            )
        }),
{
    let builds = found_builds(joined(ctx.paths.data@, "proton"@), texts(steam@), ctx.arch, disk);
    the_best_build_is_picked(builds, host);
    if let Some(best) = preferred(builds, host) {
        let i = choose|i: int| 0 <= i < builds.len() && builds[i] == best;
        assert(builds[i] == best);
    }
}

/// Whether a job is done: the launcher rests, shows what is there, and no update to get.
pub open spec fn done_with(ctx: CtxView, turn: TurnView, disk: Disk) -> bool {
    &&& turn.action is Rest
    &&& turn.ctx == (CtxView { phase: PhaseView::Idle, ..ctx })
    &&& shows_what_is_there(ctx, turn.shared.status, disk)
    &&& !turn.shared.status.update_available
    &&& turn.shared.status.task is None
}

proof fn lemma_set_up(ctx: CtxView, shared: SharedView, disk: Disk)
    requires
        ctx.pending_uri is None,
    ensures
        ctx.config.has_game(disk) ==> done_with(ctx, ctx.setup_game(shared, disk), disk),
        done_with(ctx, ctx.set_up(shared, disk), disk),
        !ctx.config.has_game(disk) ==> ctx.setup_game(shared, disk).action is InstallGame
            && ctx.setup_game(shared, disk).ctx == (CtxView { phase: PhaseView::SetupGame, ..ctx })
            && ctx.setup_game(shared, disk).shared.status.task == Some(Task::InstallingGame),
{
}

/// Setting up installs what is missing and nothing else: the directories first, then Proton where it
/// cannot be used, then the game where its file is not there.
pub proof fn setting_up_installs_what_is_missing(
    ctx: CtxView,
    shared: SharedView,
    disk: Disk,
)
    requires
        ctx.pending_uri is None,
    ensures
        ctx.phase is Idle ==> ({
            let turn = ctx.after(shared, Event::Given(Job::Setup), disk);
            turn.action is Prepare && turn.ctx == (CtxView {
                phase: PhaseView::SetupPrepare,
                ..ctx
            }) && turn.shared == shared
        }),
        ctx.phase is SetupPrepare || ctx.phase is SetupProtonSave ==> ({
            let turn = ctx.after(
                shared,
                if ctx.phase is SetupPrepare {
                    Event::Prepared(Ok(()))
                } else {
                    Event::Saved(Ok(()))
                },
                disk,
            );
            let has_game = ctx.config.game is Some && disk.file(ctx.config.game->0.exe);
            let has_proton = ctx.config.proton is Some && usable(
                ctx.config.proton->0.dir,
                ctx.arch,
                disk,
            );
            if ctx.phase is SetupPrepare && !has_proton {
                turn.action is Search && turn.ctx == (CtxView {
                    phase: PhaseView::SetupSearch,
                    ..ctx
                })
            } else if !has_game {
                turn.action is InstallGame && turn.ctx == (CtxView {
                    phase: PhaseView::SetupGame,
                    ..ctx
                }) && turn.shared.status.task == Some(Task::InstallingGame)
            } else {
                done_with(ctx, turn, disk)
            }
        }),
        ctx.phase is SetupGameSave || ctx.phase is UpdateSave ==> done_with(
            ctx,
            ctx.after(shared, Event::Saved(Ok(())), disk),
            disk,
        ),
{
    if ctx.phase is SetupPrepare || ctx.phase is SetupGameSave {
        lemma_set_up(ctx, shared, disk);
    }
    if ctx.phase is SetupProtonSave {
        lemma_set_up(ctx, ctx.published(shared, disk), disk);
    }
}

/// A setting that the user changes is the one that is changed, to the value given, in the
/// configuration and on show; it is saved, and the shader compiler is fetched first where it is turned
/// on and missing.
pub proof fn a_setting_is_what_the_user_makes_it(
    ctx: CtxView,
    shared: SharedView,
    value: bool,
    disk: Disk,
)
    requires
        ctx.phase is Idle,
    ensures
        ({
            let turn = ctx.after(shared, Event::Given(Job::SetSelfUpdate(value)), disk);
            &&& turn.ctx == (CtxView {
                config: ConfigView { allow_self_update: value, ..ctx.config },
                phase: PhaseView::LastSave,
                ..ctx
            })
            &&& turn.action is Save
            &&& shows_what_is_there(turn.ctx, turn.shared.status, disk)
        }),
        ({
            let turn = ctx.after(shared, Event::Given(Job::SetNativeShaderCompiler(value)), disk);
            let fetched = value && !native(ctx.paths, disk);
            &&& turn.ctx == (CtxView {
                config: ConfigView { native_shader_compiler: value, ..ctx.config },
                phase: if fetched {
                    PhaseView::Compiler
                } else {
                    PhaseView::LastSave
                },
                ..ctx
            })
            &&& if fetched {
                turn.action is InstallCompiler && turn.shared.status.task == Some(
                    Task::InstallingCompiler,
                )
            } else {
                turn.action is Save
            }
            &&& shows_what_is_there(turn.ctx, turn.shared.status, disk)
        }),
{
}

/// Once the shader compiler is there the option stays on and is saved; where it could not be had the
/// option goes off, and only that, which is saved and shown.
pub proof fn the_option_stays_on_if_the_compiler_came(
    ctx: CtxView,
    shared: SharedView,
    result: Result<(), Error>,
    disk: Disk,
)
    requires
        ctx.phase is Compiler,
    ensures
        ({
            let turn = ctx.after(shared, Event::CompilerInstalled(result), disk);
            &&& turn.action is Save
            &&& result is Ok ==> turn.ctx == (CtxView { phase: PhaseView::LastSave, ..ctx })
                && turn.shared == shared
            &&& result matches Err(reason) ==> turn.ctx == (CtxView {
                config: ConfigView { native_shader_compiler: false, ..ctx.config },
                phase: PhaseView::CompilerOff(reason@),
                ..ctx
            }) && shows_what_is_there(turn.ctx, turn.shared.status, disk)
        }),
{
}

/// Once the option is off again, why the compiler could not be had is told, and the job is over,
/// whether that could be saved or not.
pub proof fn why_the_compiler_could_not_be_had_is_told(
    ctx: CtxView,
    shared: SharedView,
    causes: Seq<CauseView>,
    result: Result<(), Error>,
    disk: Disk,
)
    requires
        ctx.phase == PhaseView::CompilerOff(causes),
        causes.len() > 0,
        !causes.contains(CauseView::Cancelled),
    ensures
        ({
            let turn = ctx.after(shared, Event::Saved(result), disk);
            &&& turn.action is Rest && turn.ctx == (CtxView { phase: PhaseView::Idle, ..ctx })
            &&& turn.shared.status.error == Some(
                "could not install the shader compiler, the option stayed off"@ + ": "@ + described(
                    causes,
                ),
            )
        }),
{
    let text = "could not install the shader compiler, the option stayed off"@;
    a_reason_is_told_in_front_of_the_others(text, causes);
    let all = failure(text) + causes;
    if all.contains(CauseView::Cancelled) {
        let i = choose|i: int| 0 <= i < all.len() && all[i] == CauseView::Cancelled;
        assert(causes[i - 1] == CauseView::Cancelled);
    }
}

/// The game that the user picks is the one that is selected, here and on show, and nothing else
/// changes.
pub proof fn the_game_that_is_picked_is_selected(
    ctx: CtxView,
    shared: SharedView,
    id: u64,
    disk: Disk,
)
    requires
        ctx.phase is Idle,
    ensures
        ({
            let turn = ctx.after(shared, Event::Given(Job::SelectGame(id)), disk);
            &&& turn.ctx == (CtxView { selected_game: Some(id), ..ctx })
            &&& turn.shared.status.selected_game == Some(id)
            &&& turn.shared.status.games == shared.status.games
            &&& turn.shared.status.account == shared.status.account
            &&& turn.action is Rest
        }),
{
}

/// Signing out removes the stored session and all that is known of the account, and nothing of what
/// is installed.
pub proof fn signing_out_keeps_what_is_installed(
    ctx: CtxView,
    shared: SharedView,
    disk: Disk,
)
    requires
        ctx.phase is Idle,
    ensures
        ({
            let turn = ctx.after(shared, Event::Given(Job::SignOut), disk);
            &&& turn.action is Forget
            &&& turn.ctx == (CtxView {
                session: None,
                pending_2fa: None,
                selected_game: None,
                ..ctx
            })
            &&& turn.shared.status.account is None && !turn.shared.status.needs_2fa
            &&& turn.shared.status.auth_error is None && turn.shared.status.games.len() == 0
            &&& turn.shared.status.selected_game is None
            &&& turn.shared.status.game_ready == shared.status.game_ready
            &&& turn.shared.status.studio_ready == shared.status.studio_ready
            &&& turn.shared.status.proton_ready == shared.status.proton_ready
        }),
{
}

/// The list of games is asked for at its address, and by nobody.
pub proof fn the_games_are_asked_for(ctx: CtxView, shared: SharedView, disk: Disk)
    requires
        ctx.phase is Idle,
    ensures
        ({
            let turn = ctx.after(shared, Event::Given(Job::LoadGames), disk);
            &&& turn.action matches ActionView::Fetch(request) && request.url
                == "https://playvortex.io/api/games"@ && request.form is None && speaks_for_nobody(
                request,
            )
            &&& turn.ctx == (CtxView { phase: PhaseView::Games, ..ctx })
            &&& turn.shared.status.task == Some(Task::LoadingGames)
        }),
{
}

/// The games that came are listed with their numbers, names and players, the most played first; a
/// selection stays, and without one the first of the list is selected. That they did not come is told.
pub proof fn the_games_that_came_are_listed(
    ctx: CtxView,
    shared: SharedView,
    reply: Result<Reply, Error>,
    game: GameView,
    disk: Disk,
)
    requires
        ctx.phase is Games,
    ensures
        ({
            let turn = ctx.after(shared, Event::Replied(reply), disk);
            &&& turn.action is Rest && turn.ctx == (CtxView { phase: PhaseView::Idle, ..ctx })
            &&& games_reply(reply) matches Ok(games) ==> {
                let rows = turn.shared.status.games;
                &&& rows.len() == games.len()
                &&& games.contains(game) ==> exists|i: int|
                    0 <= i < rows.len() && (#[trigger] rows[i]).id == game.id && rows[i].name
                        == game.name && rows[i].players == game.players
                &&& forall|i: int, j: int|
                    0 <= i < j < rows.len() ==> (#[trigger] rows[i]).players >= (
                    #[trigger] rows[j]).players
                &&& shared.status.selected_game is Some ==> turn.shared.status.selected_game
                    == shared.status.selected_game
                &&& shared.status.selected_game is None && rows.len() > 0
                    ==> turn.shared.status.selected_game == Some(rows[0].id)
            }
            &&& games_reply(reply) is Err ==> turn.shared.status.games == shared.status.games
                && turn.shared.status.selected_game == shared.status.selected_game
        }),
{
    if let Ok(games) = games_reply(reply) {
        the_most_played_games_come_first(ctx, shared, games, game);
        if games.contains(game) {
            let rows = ctx.loaded(shared, Ok(games)).shared.status.games;
            let k = choose|k: int| 0 <= k < rows.len() && rows[k] == row_of(game);
            assert(rows[k].id == game.id);
        }
    }
}

/// A link for the game is launched as it is where it is one and all is there; one that came too early
/// is kept as it is; anything else is refused.
pub proof fn a_link_is_opened_as_it_is(
    ctx: CtxView,
    shared: SharedView,
    uri: String,
    disk: Disk,
)
    requires
        ctx.phase is Idle,
    ensures
        ({
            let turn = ctx.after(shared, Event::Given(Job::PlayUri(uri)), disk);
            let ready = ctx.config.game is Some && disk.file(ctx.config.game->0.exe)
                && ctx.config.proton is Some && usable(ctx.config.proton->0.dir, ctx.arch, disk);
            if !launchable(uri@, "vortex://"@) {
                &&& turn.action is Rest && turn.ctx == ctx
                &&& turn.shared.status.error == Some("that link is not a vortex:// launch link"@)
            } else if !ready {
                &&& turn.action is Rest
                &&& turn.ctx == (CtxView { pending_uri: Some(uri@), ..ctx })
                &&& turn.shared.status.error == Some(
                    "install Vortex first, then the link will open"@,
                )
            } else {
                &&& turn.action == ActionView::Launch(Target::Game, uri@)
                &&& turn.ctx == (CtxView { phase: PhaseView::Launch, ..ctx })
                &&& turn.shared.status.task == Some(Task::Launching)
            }
        }),
{
    all_reasons_are_told("that link is not a vortex:// launch link"@, seq![], seq![]);
    all_reasons_are_told("install Vortex first, then the link will open"@, seq![], seq![]);
}

/// A link for the studio is launched as it is where it is one and all is there, and else refused.
pub proof fn a_studio_link_is_opened_as_it_is(
    ctx: CtxView,
    shared: SharedView,
    uri: String,
    disk: Disk,
)
    requires
        ctx.phase is Idle,
    ensures
        ({
            let turn = ctx.after(shared, Event::Given(Job::StudioUri(uri)), disk);
            let ready = ctx.config.studio is Some && disk.file(ctx.config.studio->0.exe)
                && ctx.config.proton is Some && usable(ctx.config.proton->0.dir, ctx.arch, disk);
            if !launchable(uri@, "vortex-studio://"@) {
                &&& turn.action is Rest && turn.ctx == ctx
                &&& turn.shared.status.error == Some("that link is not a vortex-studio:// link"@)
            } else if !ready {
                &&& turn.action is Rest && turn.ctx == ctx
                &&& turn.shared.status.error == Some(
                    "open the Studio from the launcher once to install it, then the link will work"@,
                )
            } else {
                &&& turn.action == ActionView::Launch(Target::Studio, uri@)
                &&& turn.ctx == (CtxView { phase: PhaseView::Launch, ..ctx })
                &&& turn.shared.status.task == Some(Task::LaunchingStudio)
            }
        }),
{
    all_reasons_are_told("that link is not a vortex-studio:// link"@, seq![], seq![]);
    all_reasons_are_told(
        "open the Studio from the launcher once to install it, then the link will work"@,
        seq![],
        seq![],
    );
}

/// The studio is opened for the session that is signed in: it is installed for it where it is not
/// there, and else its link is asked for. Without a session it is refused.
pub proof fn the_studio_is_opened_for_the_session(
    ctx: CtxView,
    shared: SharedView,
    disk: Disk,
)
    requires
        ctx.phase is Idle,
    ensures
        ({
            let turn = ctx.after(shared, Event::Given(Job::OpenStudio), disk);
            let ready = ctx.config.studio is Some && disk.file(ctx.config.studio->0.exe);
            &&& ctx.session is None ==> turn.action is Rest && turn.ctx == ctx
                && turn.shared.status.error == Some(
                "sign in first, the studio download needs your account"@,
            )
            &&& ctx.session matches Some(session) ==> if ready {
                turn.action == ActionView::LinkStudio(session.token) && turn.ctx == (CtxView {
                    phase: PhaseView::StudioLink,
                    ..ctx
                }) && turn.shared.status.task == Some(Task::LaunchingStudio)
            } else {
                turn.action == ActionView::InstallStudio(session.token) && turn.ctx == (CtxView {
                    config: ConfigView { studio: None, ..ctx.config },
                    phase: PhaseView::StudioInstall(session.token),
                    ..ctx
                }) && turn.shared.status.task == Some(Task::InstallingStudio)
            }
        }),
{
    all_reasons_are_told(
        "sign in first, the studio download needs your account"@,
        seq![],
        seq![],
    );
}

/// Once the studio is installed and that is saved, its link is asked for, for the same session.
pub proof fn an_installed_studio_is_linked_for_the_same_session(
    ctx: CtxView,
    shared: SharedView,
    token: Seq<char>,
    disk: Disk,
)
    requires
        ctx.phase == PhaseView::StudioSave(token),
    ensures
        ({
            let turn = ctx.after(shared, Event::Saved(Ok(())), disk);
            turn.action == ActionView::LinkStudio(token) && turn.ctx == (CtxView {
                phase: PhaseView::StudioLink,
                ..ctx
            }) && shows_what_is_there(turn.ctx, turn.shared.status, disk)
        }),
{
}

/// Whether a step ends its job over a failure: it is shown and logged with all its reasons, unless
/// the user stopped the work.
pub open spec fn fails_with(
    ctx: CtxView,
    shared: SharedView,
    turn: TurnView,
    causes: Seq<CauseView>,
) -> bool {
    &&& turn.action is Rest
    &&& turn.ctx == (CtxView { phase: PhaseView::Idle, ..ctx })
    &&& if causes.contains(CauseView::Cancelled) {
        turn.shared.status.error == shared.status.error && turn.shared.lines
            == shared.lines.push("cancelled"@)
    } else {
        turn.shared.status.error == Some(described(causes)) && turn.shared.lines
            == shared.lines.push("error: "@ + described(causes))
    }
    &&& turn.shared.status.account == shared.status.account
    &&& turn.shared.status.game_ready == shared.status.game_ready
}

/// What goes wrong with a step that a job waits for ends that job, and is told; what is known stays
/// as it is.
pub proof fn a_failing_step_ends_its_job(
    ctx: CtxView,
    shared: SharedView,
    reason: Error,
    disk: Disk,
)
    ensures
        ctx.phase is DetectPrepare || ctx.phase is SetupPrepare ==> fails_with(
            ctx,
            shared,
            ctx.after(shared, Event::Prepared(Err(reason)), disk),
            reason@,
        ),
        ctx.phase is DetectSave || ctx.phase is SetupProtonSave || ctx.phase is SetupGameSave
            || ctx.phase is UpdateSave || ctx.phase is LastSave || ctx.phase is StudioSave
            ==> fails_with(
            ctx,
            shared,
            ctx.after(shared, Event::Saved(Err(reason)), disk),
            reason@,
        ),
        ctx.phase is Keep ==> fails_with(
            ctx,
            shared,
            ctx.after(shared, Event::Kept(Err(reason)), disk),
            reason@,
        ),
        ctx.phase is SetupProton ==> fails_with(
            ctx,
            shared,
            ctx.after(shared, Event::ProtonInstalled(Err(reason)), disk),
            reason@,
        ),
        ctx.phase is SetupGame || ctx.phase is UpdateGame || ctx.phase is StudioInstall
            ==> fails_with(
            ctx,
            shared,
            ctx.after(shared, Event::GameInstalled(Err(reason)), disk),
            reason@,
        ),
        ctx.phase is Launch ==> fails_with(
            ctx,
            shared,
            ctx.after(shared, Event::Launched(Err(reason)), disk),
            reason@,
        ),
        ctx.phase is StudioLink && !session_over(reason@) ==> fails_with(
            ctx,
            shared,
            ctx.after(shared, Event::Linked(Err(reason)), disk),
            reason@,
        ),
{
}

/// The last step of a job that succeeds leaves what is known and what is shown of it as they are, and
/// the launcher idle.
pub proof fn the_last_step_leaves_all_as_it_is(
    ctx: CtxView,
    shared: SharedView,
    disk: Disk,
)
    ensures
        ctx.phase is LastSave ==> ({
            let turn = ctx.after(shared, Event::Saved(Ok(())), disk);
            turn.action is Rest && turn.ctx == (CtxView { phase: PhaseView::Idle, ..ctx })
                && turn.shared == shared.finished()
        }),
        ctx.phase is Launch ==> ({
            let turn = ctx.after(shared, Event::Launched(Ok(())), disk);
            turn.action is Rest && turn.ctx == (CtxView { phase: PhaseView::Idle, ..ctx })
                && turn.shared == shared.finished()
        }),
{
}

/// The files that are watched are those that the next step may have to know of: those of the
/// programs, the script and the programs of the Proton build, and the shader compiler.
pub proof fn all_that_counts_is_watched(ctx: CtxView)
    ensures
        ctx.config.game matches Some(game) ==> ctx.watching().contains(game.exe),
        ctx.config.studio matches Some(studio) ==> ctx.watching().contains(studio.exe),
        ctx.config.proton matches Some(proton) ==> {
            &&& ctx.watching().contains(joined(proton.dir, "proton"@))
            &&& ctx.watching().contains(joined(proton.dir, "files/bin/wine"@))
            &&& ctx.watching().contains(joined(proton.dir, "files/bin/wine64"@))
            &&& ctx.watching().contains(joined(proton.dir, "files/bin/wineserver"@))
        },
        ctx.watching().contains(crate::shaders::compiler_file(ctx.paths)),
{
    let list = ctx.watching();
    let n = list.len() as int;
    assert(list[n - 1] == crate::shaders::compiler_file(ctx.paths));
    if let Some(game) = ctx.config.game {
        assert(list[0] == game.exe);
    }
    let k: int = if ctx.config.game is Some {
        1
    } else {
        0
    };
    if let Some(studio) = ctx.config.studio {
        assert(list[k] == studio.exe);
    }
    let m: int = if ctx.config.studio is Some {
        k + 1
    } else {
        k
    };
    if let Some(proton) = ctx.config.proton {
        assert(list[m] == joined(proton.dir, "proton"@));
        assert(list[m + 1] == joined(proton.dir, "files/bin/wine"@));
        assert(list[m + 2] == joined(proton.dir, "files/bin/wine64"@));
        assert(list[m + 3] == joined(proton.dir, "files/bin/wineserver"@));
    }
}

}
