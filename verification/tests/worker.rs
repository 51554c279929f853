use vortex_launcher::config::{Config, GameInstall, ProtonInstall, ProtonSource};
use vortex_launcher::disk::{DirSeen, Disk, FileSeen};
use vortex_launcher::error::Error;
use vortex_launcher::launch::Target;
use vortex_launcher::net::{Headers, Reply};
use vortex_launcher::paths::Paths;
use vortex_launcher::session::Session;
use vortex_launcher::state::{Shared, Task};
use vortex_launcher::worker::{describe, expired, Action, Ctx, Event, Job, Phase};

fn paths() -> Paths {
    Paths { data: "/d".into(), config: "/c".into() }
}

fn program(exe: &str) -> GameInstall {
    GameInstall { exe: exe.into(), etag: Some("e1".into()), last_modified: None, size: 9 }
}

fn proton() -> ProtonInstall {
    ProtonInstall { name: "GE-9".into(), dir: "/p".into(), source: ProtonSource::Managed }
}

fn session() -> Session {
    Session { token: "tok".into(), username: "kit".into(), user_id: 3 }
}

fn disk(files: &[&str]) -> Disk {
    Disk {
        files: files
            .iter()
            .map(|p| FileSeen { path: p.to_string(), bytes: Some(b"MZ".to_vec()) })
            .collect(),
        dirs: Vec::new(),
    }
}

const ALL: [&str; 3] = ["/g/Vortex.exe", "/s/VortexStudio.exe", "/p/proton"];

fn ready(session: Option<Session>) -> Ctx {
    let mut config = Config::load(None);
    config.game = Some(program("/g/Vortex.exe"));
    config.studio = Some(program("/s/VortexStudio.exe"));
    config.proton = Some(proton());
    Ctx::new(paths(), "x86_64".into(), config, session)
}

fn fresh() -> Ctx {
    Ctx::new(paths(), "x86_64".into(), Config::load(None), None)
}

fn reply(status: u16, cookies: &[&str], body: &str) -> Event {
    Event::Replied(Ok(Reply {
        status,
        headers: Headers {
            content_range: None,
            content_length: None,
            etag: None,
            last_modified: None,
        },
        cookies: cookies.iter().map(|c| c.to_string()).collect(),
        body: Ok(body.to_owned()),
    }))
}

fn offline() -> Event {
    Event::Replied(Err(Error::says("no route")))
}

fn fetched(action: Action) -> String {
    match action {
        Action::Fetch(request) => request.url,
        other => panic!("{other:?}"),
    }
}

const GAMES: &str = r#"[{"id":1,"name":"b","player_count":2},{"id":2,"name":"a","player_count":2},
    {"id":3,"name":"z","player_count":9}]"#;

#[test]
fn a_failure_is_described_on_one_line() {
    let err = Error::says("root").context("middle".into()).context("top".into());
    assert_eq!(describe(&err), "top: middle: root");
    assert_eq!(err.headline(), "top");
    assert_eq!(describe(&Error { causes: Vec::new() }), "unknown error");
    assert!(expired(&Error::says("session expired (x)").context("top".into())));
    assert!(!expired(&Error::says("the session expired")));
}

#[test]
fn detection_drops_what_is_gone_and_finds_proton() {
    let mut ctx = ready(None);
    ctx.config.native_shader_compiler = true;
    let mut shared = Shared::new();
    let nothing = Disk::empty();
    let action = ctx.step(&mut shared, Event::Given(Job::Detect), &nothing);
    assert!(matches!(action, Action::Prepare));
    assert_eq!(shared.status.task, Some(Task::Detecting));
    let action = ctx.step(&mut shared, Event::Prepared(Ok(())), &nothing);
    assert!(matches!(action, Action::Search));
    assert!(ctx.config.game.is_none() && ctx.config.studio.is_none());
    assert!(!ctx.config.native_shader_compiler);
    let mut seen = disk(&["/d/proton/GE-10/proton"]);
    seen.dirs.push(DirSeen { path: "/d/proton".into(), entries: vec!["/d/proton/GE-10".into()] });
    let searched = Event::Searched { steam: Vec::new(), host: None };
    let action = ctx.step(&mut shared, searched, &seen);
    assert!(matches!(action, Action::Save));
    assert_eq!(shared.status.proton_name.as_deref(), Some("GE-10"));
    assert!(shared.status.proton_ready && !shared.status.game_ready);
    let action = ctx.step(&mut shared, Event::Saved(Ok(())), &seen);
    assert!(matches!(action, Action::Rest));
    assert!(matches!(ctx.phase, Phase::Idle));
    assert_eq!(shared.status.task, None);
    assert_eq!(
        shared.lines,
        [
            "native d3dcompiler_47 is not in the prefix, turning the option back off",
            "found GE-10",
        ]
    );
}

#[test]
fn a_failing_account_check_keeps_the_session() {
    let mut ctx = ready(Some(session()));
    let mut shared = Shared::new();
    let seen = disk(&ALL);
    ctx.step(&mut shared, Event::Given(Job::Detect), &seen);
    ctx.step(&mut shared, Event::Prepared(Ok(())), &seen);
    let url = fetched(ctx.step(&mut shared, Event::Saved(Ok(())), &seen));
    assert_eq!(url, "https://playvortex.io/api/users/me");
    let url = fetched(ctx.step(&mut shared, reply(401, &[], ""), &seen));
    assert_eq!(url, "https://playvortex.io/api/games");
    assert_eq!(ctx.session.as_ref().unwrap().username, "kit");
    assert_eq!(shared.status.account.as_deref(), Some("kit"));
    assert_eq!(shared.lines, ["account check failed: session expired (HTTP 401)"]);
    let action = ctx.step(&mut shared, reply(200, &[], GAMES), &seen);
    assert!(matches!(action, Action::Rest));
    let ids: Vec<u64> = shared.status.games.iter().map(|g| g.id).collect();
    assert_eq!(ids, [3, 2, 1]);
    assert_eq!(shared.status.selected_game, Some(3));
}

#[test]
fn a_good_account_check_renews_the_name() {
    let mut ctx = ready(Some(session()));
    let mut shared = Shared::new();
    let seen = disk(&ALL);
    ctx.step(&mut shared, Event::Given(Job::Detect), &seen);
    ctx.step(&mut shared, Event::Prepared(Ok(())), &seen);
    ctx.step(&mut shared, Event::Saved(Ok(())), &seen);
    ctx.step(&mut shared, reply(200, &[], r#"{"id":8,"username":"new"}"#), &seen);
    let session = ctx.session.as_ref().unwrap();
    assert_eq!((session.token.as_str(), session.username.as_str(), session.user_id), ("tok", "new", 8));
    assert_eq!(shared.lines, ["signed in as new"]);
}

#[test]
fn setup_installs_what_is_missing_and_opens_a_waiting_link() {
    let mut ctx = fresh();
    ctx.config.proton_wanted = Some("GE-7".into());
    let mut shared = Shared::new();
    let nothing = Disk::empty();
    let link = "vortex://launch?token=x";
    let early = Event::Given(Job::PlayUri(link.into()));
    assert!(matches!(ctx.step(&mut shared, early, &nothing), Action::Rest));
    assert_eq!(ctx.pending_uri.as_deref(), Some(link));
    assert_eq!(
        shared.status.error.as_deref(),
        Some("install Vortex first, then the link will open")
    );
    assert!(matches!(ctx.step(&mut shared, Event::Given(Job::Setup), &nothing), Action::Prepare));
    assert!(matches!(ctx.step(&mut shared, Event::Prepared(Ok(())), &nothing), Action::Search));
    let searched = Event::Searched { steam: Vec::new(), host: Some((2, 40)) };
    match ctx.step(&mut shared, searched, &nothing) {
        Action::InstallProton(tag) => assert_eq!(tag.as_deref(), Some("GE-7")),
        other => panic!("{other:?}"),
    }
    assert_eq!(shared.status.task, Some(Task::InstallingProton));
    let action = ctx.step(&mut shared, Event::ProtonInstalled(Ok(proton())), &nothing);
    assert!(matches!(action, Action::Save));
    let seen = disk(&["/p/proton"]);
    let action = ctx.step(&mut shared, Event::Saved(Ok(())), &seen);
    assert!(matches!(action, Action::InstallGame));
    assert_eq!(shared.status.task, Some(Task::InstallingGame));
    let installed = Event::GameInstalled(Ok(program("/g/Vortex.exe")));
    assert!(matches!(ctx.step(&mut shared, installed, &seen), Action::Save));
    match ctx.step(&mut shared, Event::Saved(Ok(())), &disk(&ALL)) {
        Action::Launch(Target::Game, uri) => assert_eq!(uri, link),
        other => panic!("{other:?}"),
    }
    assert_eq!(ctx.pending_uri, None);
    assert_eq!(shared.status.task, Some(Task::Launching));
    let action = ctx.step(&mut shared, Event::Launched(Ok(())), &disk(&ALL));
    assert!(matches!(action, Action::Rest));
}

#[test]
fn a_job_that_fails_says_why_and_one_that_is_stopped_does_not() {
    let mut shared = Shared::new();
    let mut ctx = fresh();
    let nothing = Disk::empty();
    ctx.step(&mut shared, Event::Given(Job::Detect), &nothing);
    let action = ctx.step(&mut shared, Event::Prepared(Err(Error::says("read-only"))), &nothing);
    assert!(matches!(action, Action::Rest));
    assert_eq!(shared.status.error.as_deref(), Some("read-only"));
    assert_eq!(shared.lines, ["error: read-only"]);
    let mut shared = Shared::new();
    let mut ctx = ready(None);
    ctx.config.game = None;
    ctx.step(&mut shared, Event::Given(Job::Setup), &disk(&ALL));
    let action = ctx.step(&mut shared, Event::Prepared(Ok(())), &disk(&ALL));
    assert!(matches!(action, Action::InstallGame));
    let stopped = Event::GameInstalled(Err(Error::cancelled()));
    assert!(matches!(ctx.step(&mut shared, stopped, &disk(&ALL)), Action::Rest));
    assert_eq!(shared.status.error, None);
    assert_eq!(shared.lines, ["cancelled"]);
}

#[test]
fn one_job_runs_at_a_time() {
    let mut ctx = ready(None);
    let mut shared = Shared::new();
    let seen = disk(&ALL);
    ctx.step(&mut shared, Event::Given(Job::Detect), &seen);
    let action = ctx.step(&mut shared, Event::Given(Job::SignOut), &seen);
    assert!(matches!(action, Action::Wait));
    assert!(matches!(ctx.phase, Phase::DetectPrepare));
    assert!(matches!(ctx.step(&mut shared, Event::Saved(Ok(())), &seen), Action::Wait));
    assert!(matches!(ctx.step(&mut shared, offline(), &seen), Action::Wait));
    assert!(matches!(ctx.phase, Phase::DetectPrepare));
}

#[test]
fn an_update_is_downloaded_where_the_build_differs() {
    let probe = |etag: &str| {
        Event::Replied(Ok(Reply {
            status: 206,
            headers: Headers {
                content_range: Some("bytes 0-0/9".into()),
                content_length: None,
                etag: Some(etag.into()),
                last_modified: None,
            },
            cookies: Vec::new(),
            body: Ok(String::new()),
        }))
    };
    let seen = disk(&ALL);
    let mut shared = Shared::new();
    let mut ctx = ready(None);
    let url = fetched(ctx.step(&mut shared, Event::Given(Job::CheckUpdate), &seen));
    assert_eq!(url, "https://playvortex.io/download/windows");
    assert!(matches!(ctx.step(&mut shared, probe("e1"), &seen), Action::Rest));
    assert_eq!(shared.lines, ["vortex is up to date"]);
    ctx.step(&mut shared, Event::Given(Job::CheckUpdate), &seen);
    assert!(matches!(ctx.step(&mut shared, probe("e2"), &seen), Action::InstallGame));
    let mut newer = program("/g/Vortex.exe");
    newer.etag = Some("e2".into());
    let action = ctx.step(&mut shared, Event::GameInstalled(Ok(newer)), &seen);
    assert!(matches!(action, Action::Save));
    assert!(matches!(ctx.step(&mut shared, Event::Saved(Ok(())), &seen), Action::Rest));
    assert_eq!(ctx.config.game.as_ref().unwrap().etag.as_deref(), Some("e2"));
    let mut ctx = fresh();
    let action = ctx.step(&mut shared, Event::Given(Job::CheckUpdate), &seen);
    assert!(matches!(action, Action::Prepare));
}

#[test]
fn a_compiler_that_cannot_be_installed_leaves_the_option_off() {
    let mut ctx = ready(None);
    let mut shared = Shared::new();
    let seen = disk(&ALL);
    let on = || Event::Given(Job::SetNativeShaderCompiler(true));
    assert!(matches!(ctx.step(&mut shared, on(), &seen), Action::InstallCompiler));
    assert!(shared.status.native_shader_compiler);
    let failed = Event::CompilerInstalled(Err(Error::says("no winetricks")));
    assert!(matches!(ctx.step(&mut shared, failed, &seen), Action::Save));
    assert!(!ctx.config.native_shader_compiler && !shared.status.native_shader_compiler);
    ctx.step(&mut shared, Event::Saved(Err(Error::says("full"))), &seen);
    assert_eq!(
        shared.status.error.as_deref(),
        Some("could not install the shader compiler, the option stayed off: no winetricks")
    );
    let there = disk(&["/d/prefix/pfx/drive_c/windows/system32/d3dcompiler_47.dll"]);
    assert!(matches!(ctx.step(&mut shared, on(), &there), Action::Save));
    assert!(matches!(ctx.step(&mut shared, Event::Saved(Ok(())), &there), Action::Rest));
    assert!(ctx.config.native_shader_compiler);
    let off = Event::Given(Job::SetSelfUpdate(false));
    assert!(matches!(ctx.step(&mut shared, off, &there), Action::Save));
    let action = ctx.step(&mut shared, Event::Saved(Err(Error::says("full"))), &there);
    assert!(matches!(action, Action::Rest));
    assert_eq!(shared.status.error.as_deref(), Some("full"));
    assert!(!ctx.config.allow_self_update);
}

fn sign_in() -> Event {
    Event::Given(Job::SignIn { username: "me".into(), password: "pw".into() })
}

#[test]
fn signing_in_takes_the_second_factor_where_it_is_asked_for() {
    let mut ctx = ready(None);
    let mut shared = Shared::new();
    let seen = disk(&ALL);
    let url = fetched(ctx.step(&mut shared, sign_in(), &seen));
    assert_eq!(url, "https://playvortex.io/login");
    let asked = reply(200, &[], r#"{"requires_2fa":true,"pending_token":"p"}"#);
    assert!(matches!(ctx.step(&mut shared, asked, &seen), Action::Rest));
    assert!(shared.status.needs_2fa);
    let code = || Event::Given(Job::Submit2fa("123".into()));
    let url = fetched(ctx.step(&mut shared, code(), &seen));
    assert_eq!(url, "https://playvortex.io/login/2fa");
    let again = reply(200, &[], r#"{"requires_2fa":true,"pending_token":"p"}"#);
    ctx.step(&mut shared, again, &seen);
    assert_eq!(shared.status.auth_error.as_deref(), Some("that code was not accepted"));
    ctx.step(&mut shared, code(), &seen);
    let url = fetched(ctx.step(&mut shared, reply(302, &["session_token=t9"], ""), &seen));
    assert_eq!(url, "https://playvortex.io/api/users/me");
    match ctx.step(&mut shared, offline(), &seen) {
        Action::Keep(kept) => {
            assert_eq!((kept.token.as_str(), kept.username.as_str(), kept.user_id), ("t9", "me", 0));
        }
        other => panic!("{other:?}"),
    }
    let url = fetched(ctx.step(&mut shared, Event::Kept(Ok(())), &seen));
    assert_eq!(url, "https://playvortex.io/api/games");
    assert_eq!(shared.status.account.as_deref(), Some("me"));
    assert!(!shared.status.needs_2fa);
    assert_eq!(shared.status.auth_error, None);
    assert_eq!(
        shared.lines,
        [
            "account lookup failed: cannot reach playvortex.io: no route",
            "signed in as me",
        ]
    );
}

#[test]
fn a_refused_login_is_the_server_talking() {
    let mut ctx = ready(None);
    let mut shared = Shared::new();
    let seen = disk(&ALL);
    ctx.step(&mut shared, sign_in(), &seen);
    let action = ctx.step(&mut shared, reply(401, &[], r#"{"detail":"nope"}"#), &seen);
    assert!(matches!(action, Action::Rest));
    assert_eq!(shared.status.auth_error.as_deref(), Some("nope"));
    assert_eq!(shared.status.error, None);
    assert_eq!(shared.lines, ["sign in refused: nope"]);
    ctx.step(&mut shared, Event::Given(Job::Submit2fa("1".into())), &seen);
    assert_eq!(
        shared.status.error.as_deref(),
        Some("the two-factor step expired, sign in again")
    );
}

#[test]
fn signing_out_forgets_everything() {
    let mut ctx = ready(Some(session()));
    let mut shared = Shared::new();
    shared.status.selected_game = Some(4);
    shared.status.account = Some("kit".into());
    let action = ctx.step(&mut shared, Event::Given(Job::SignOut), &disk(&ALL));
    assert!(matches!(action, Action::Forget));
    assert!(ctx.session.is_none());
    assert_eq!(shared.status.account, None);
    assert_eq!(shared.status.selected_game, None);
    assert_eq!(shared.lines, ["signed out"]);
}

#[test]
fn playing_asks_for_the_picked_game() {
    let mut ctx = ready(Some(session()));
    let mut shared = Shared::new();
    let seen = disk(&ALL);
    let play = || Event::Given(Job::Play);
    let url = fetched(ctx.step(&mut shared, play(), &seen));
    assert_eq!(url, "https://playvortex.io/games/1/play");
    assert_eq!(shared.status.detail, "asking the server for a launch link");
    let page = reply(200, &[], "<a href='vortex://launch?t=1'>");
    match ctx.step(&mut shared, page, &seen) {
        Action::Launch(Target::Game, uri) => assert_eq!(uri, "vortex://launch?t=1"),
        other => panic!("{other:?}"),
    }
    let failed = Event::Launched(Err(Error::says("python3 was not found.")));
    ctx.step(&mut shared, failed, &seen);
    assert_eq!(shared.status.error.as_deref(), Some("python3 was not found."));
    shared.status.selected_game = Some(6);
    assert!(fetched(ctx.step(&mut shared, play(), &seen)).ends_with("/games/6/play"));
    ctx.step(&mut shared, offline(), &seen);
    assert!(ctx.session.is_some());
    ctx.step(&mut shared, Event::Given(Job::SelectGame(7)), &seen);
    shared.status.selected_game = Some(6);
    assert!(fetched(ctx.step(&mut shared, play(), &seen)).ends_with("/games/7/play"));
}

#[test]
fn a_refused_play_page_ends_the_session() {
    let mut ctx = ready(Some(session()));
    let mut shared = Shared::new();
    let seen = disk(&ALL);
    ctx.step(&mut shared, Event::Given(Job::Play), &seen);
    let action = ctx.step(&mut shared, reply(302, &[], ""), &seen);
    assert!(matches!(action, Action::Forget));
    assert!(ctx.session.is_none());
    assert_eq!(shared.status.account, None);
    assert_eq!(
        shared.status.error.as_deref(),
        Some("your session expired, sign in again")
    );
    ctx.step(&mut shared, Event::Given(Job::Play), &seen);
    assert_eq!(shared.status.error.as_deref(), Some("sign in first"));
}

#[test]
fn the_studio_is_installed_once_and_opened() {
    let mut ctx = ready(Some(session()));
    let mut shared = Shared::new();
    let without = disk(&["/g/Vortex.exe", "/p/proton"]);
    let seen = disk(&ALL);
    match ctx.step(&mut shared, Event::Given(Job::OpenStudio), &without) {
        Action::InstallStudio(token) => assert_eq!(token, "tok"),
        other => panic!("{other:?}"),
    }
    assert_eq!(shared.status.task, Some(Task::InstallingStudio));
    let installed = Event::GameInstalled(Ok(program("/s/VortexStudio.exe")));
    assert!(matches!(ctx.step(&mut shared, installed, &seen), Action::Save));
    match ctx.step(&mut shared, Event::Saved(Ok(())), &seen) {
        Action::LinkStudio(token) => assert_eq!(token, "tok"),
        other => panic!("{other:?}"),
    }
    match ctx.step(&mut shared, Event::Linked(Ok("vortex-studio://o".into())), &seen) {
        Action::Launch(Target::Studio, uri) => assert_eq!(uri, "vortex-studio://o"),
        other => panic!("{other:?}"),
    }
    ctx.step(&mut shared, Event::Launched(Ok(())), &seen);
    ctx.step(&mut shared, Event::Given(Job::OpenStudio), &seen);
    let over = Event::Linked(Err(Error::says("session expired (HTTP 401)")));
    assert!(matches!(ctx.step(&mut shared, over, &seen), Action::Forget));
    ctx.step(&mut shared, Event::Given(Job::OpenStudio), &seen);
    assert_eq!(
        shared.status.error.as_deref(),
        Some("sign in first, the studio download needs your account")
    );
}

#[test]
fn links_from_outside_are_checked() {
    let mut ctx = ready(None);
    let mut shared = Shared::new();
    let seen = disk(&ALL);
    ctx.step(&mut shared, Event::Given(Job::PlayUri("https://x".into())), &seen);
    assert_eq!(
        shared.status.error.as_deref(),
        Some("that link is not a vortex:// launch link")
    );
    ctx.step(&mut shared, Event::Given(Job::StudioUri("vortex://x".into())), &seen);
    assert_eq!(
        shared.status.error.as_deref(),
        Some("that link is not a vortex-studio:// link")
    );
    let studio = || Event::Given(Job::StudioUri("vortex-studio://x".into()));
    ctx.step(&mut shared, studio(), &Disk::empty());
    assert_eq!(
        shared.status.error.as_deref(),
        Some("open the Studio from the launcher once to install it, then the link will work")
    );
    assert!(matches!(ctx.step(&mut shared, studio(), &seen), Action::Launch(Target::Studio, _)));
}

#[test]
fn the_watched_files_are_those_that_count() {
    let files = ready(None).watched();
    for path in ALL {
        assert!(files.iter().any(|file| file == path), "{path}");
    }
    assert!(files.contains(&"/p/files/bin/wine64".to_owned()));
    assert_eq!(files.len(), 7);
    assert_eq!(fresh().watched().len(), 1);
}

#[test]
fn a_task_begins_without_what_came_before() {
    let mut shared = Shared::new();
    shared.fail("bad".into());
    shared.request_cancel();
    assert!(shared.cancel_flag());
    shared.finish();
    assert_eq!(shared.status.error.as_deref(), Some("bad"));
    shared.begin(Task::SigningIn);
    assert!(!shared.cancel_flag());
    assert_eq!(shared.status.error, None);
    assert_eq!(Task::SigningIn.label(), "Signing in");
    assert_eq!(shared.take_lines(), ["error: bad"]);
    assert!(shared.lines.is_empty());
}
