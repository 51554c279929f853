use vortex_launcher::cli::{opening, picking, signing};
use vortex_launcher::config::{Config, GameInstall, ProtonInstall, ProtonSource};
use vortex_launcher::disk::{Disk, FileSeen};
use vortex_launcher::error::Error;
use vortex_launcher::net::{Headers, Reply, Request};
use vortex_launcher::proton::Build;
use vortex_launcher::session::Session;
use vortex_launcher::worker::describe;

fn replied(status: u16, cookies: &[&str], body: &str) -> signing::Event {
    signing::Event::Replied(Ok(Reply {
        status,
        headers: Headers {
            content_range: None,
            content_length: None,
            etag: None,
            last_modified: None,
        },
        cookies: cookies.iter().map(|c| c.to_string()).collect(),
        body: Ok(body.to_owned()),
    }))
}

fn entered(line: &str) -> signing::Event {
    signing::Event::Entered(Ok(line.to_owned()))
}

fn asked(action: signing::Action) -> Request {
    match action {
        signing::Action::Fetch(request) => request,
        other => panic!("{other:?}"),
    }
}

fn signing_failed(action: signing::Action) -> String {
    match action {
        signing::Action::Fail(error) => describe(&error),
        other => panic!("{other:?}"),
    }
}

fn at_first() -> signing::SigningIn {
    let (flow, action) = signing::sign_in();
    assert!(matches!(action, signing::Action::Ask("Username: ")));
    let (flow, action) = flow.next(entered(" kit \n"));
    assert!(matches!(action, signing::Action::AskHidden("Password: ")));
    let (flow, action) = flow.next(entered(" pw \n"));
    let request = asked(action);
    assert_eq!(request.url, "https://playvortex.io/login");
    let form = request.form.unwrap();
    assert_eq!(form[0], ("username".to_owned(), "kit".to_owned()));
    assert_eq!(form[1], ("password".to_owned(), " pw ".to_owned()));
    flow
}

const HANDOFF: &str = r#"{"requires_2fa":true,"pending_token":"pt"}"#;

#[test]
fn signing_in_asks_for_a_code_where_the_server_does() {
    let (flow, action) = at_first().next(replied(200, &[], HANDOFF));
    assert!(matches!(action, signing::Action::Ask("2FA code: ")));
    let (flow, action) = flow.next(entered("123\n"));
    let request = asked(action);
    assert_eq!(request.url, "https://playvortex.io/login/2fa");
    assert_eq!(request.form.unwrap()[0].1, "123");
    let (flow, action) = flow.next(replied(302, &["session_token=t; Path=/"], ""));
    assert_eq!(asked(action).url, "https://playvortex.io/api/users/me");
    let (flow, action) = flow.next(replied(200, &[], r#"{"id":4,"username":"Kit"}"#));
    match action {
        signing::Action::Keep(session) => {
            assert_eq!(session.token, "t");
            assert_eq!(session.username, "Kit");
            assert_eq!(session.user_id, 4);
        }
        other => panic!("{other:?}"),
    }
    let (flow, action) = flow.next(signing::Event::Kept(Ok(())));
    assert!(matches!(action, signing::Action::Done(line) if line == "signed in as Kit"));
    let (_, action) = flow.next(entered("x"));
    assert!(matches!(action, signing::Action::Wait));
}

#[test]
fn signing_in_fails_with_the_first_thing_that_does() {
    let (flow, _) = signing::sign_in();
    let (_, action) = flow.next(signing::Event::Entered(Err(Error::says("closed"))));
    assert_eq!(signing_failed(action), "cannot read from the terminal: closed");
    let (flow, _) = signing::sign_in();
    let (_, action) = flow.next(entered(" \n"));
    assert_eq!(signing_failed(action), "nothing entered");
    let (flow, _) = at_first().next(replied(200, &[], HANDOFF));
    let (flow, _) = flow.next(entered("1"));
    let (_, action) = flow.next(replied(200, &[], HANDOFF));
    assert_eq!(signing_failed(action), "the server asked for 2FA twice, try again");
    let (flow, _) = at_first().next(replied(302, &["session_token=t"], ""));
    let (flow, _) = flow.next(replied(200, &[], r#"{"id":4,"username":"Kit"}"#));
    let (_, action) = flow.next(signing::Event::Kept(Err(Error::says("full"))));
    assert_eq!(signing_failed(action), "full");
}

fn build(name: &str, dir: &str) -> Build {
    Build { name: name.into(), dir: dir.into(), source: ProtonSource::Managed, needs_glibc: None }
}

fn picking_failed(action: picking::Action) -> String {
    match action {
        picking::Action::Fail(error) => describe(&error),
        other => panic!("{other:?}"),
    }
}

#[test]
fn a_build_that_is_there_is_used_at_once() {
    let (flow, action) = picking::pick("GE-9", None);
    assert!(matches!(action, picking::Action::List));
    let (flow, action) = flow.next(picking::Event::Listed(vec![build("ge-9", "/p/ge-9")]));
    assert!(matches!(action, picking::Action::Load));
    let mut config = Config::default();
    config.proton_wanted = Some("other".into());
    let (flow, action) = flow.next(picking::Event::Loaded(config));
    match action {
        picking::Action::Save(config) => {
            assert_eq!(config.proton.unwrap().dir, "/p/ge-9");
            assert_eq!(config.proton_wanted, None);
        }
        other => panic!("{other:?}"),
    }
    let (_, action) = flow.next(picking::Event::Saved(Ok(())));
    match action {
        picking::Action::Done(lines) => assert_eq!(lines, ["now using ge-9"]),
        other => panic!("{other:?}"),
    }
}

fn at_download() -> picking::Picking {
    let (flow, _) = picking::pick("GE-9", None);
    let (flow, action) = flow.next(picking::Event::Listed(Vec::new()));
    assert!(matches!(action, picking::Action::Prepare));
    let (flow, action) = flow.next(picking::Event::Prepared(Ok(())));
    match action {
        picking::Action::Install { line, tag } => {
            assert_eq!(line, "downloading GE-9, this takes a while");
            assert_eq!(tag, "GE-9");
        }
        other => panic!("{other:?}"),
    }
    flow
}

#[test]
fn a_build_that_is_not_there_is_downloaded() {
    let installed = || {
        picking::Event::Installed(Ok(ProtonInstall {
            name: "GE-9".into(),
            dir: "/p/GE-9".into(),
            source: ProtonSource::Managed,
        }))
    };
    let (flow, action) = at_download().next(installed());
    assert!(matches!(action, picking::Action::List));
    let (_, action) = flow.next(picking::Event::Listed(vec![build("GE-9", "/p/GE-9/")]));
    assert!(matches!(action, picking::Action::Load));
    let (flow, _) = at_download().next(installed());
    let (_, action) = flow.next(picking::Event::Listed(Vec::new()));
    assert_eq!(picking_failed(action), "the build vanished right after being installed");
    let (_, action) = at_download().next(picking::Event::Installed(Err(Error::says("404"))));
    assert_eq!(
        picking_failed(action),
        "no Proton called `GE-9` (see `vortex-launcher-cli proton`): 404"
    );
}

fn session() -> Option<Session> {
    Some(Session { token: "t".into(), username: "kit".into(), user_id: 4 })
}

fn with_proton() -> Config {
    let mut config = Config::default();
    config.proton = Some(ProtonInstall {
        name: "GE-9".into(),
        dir: "/p/GE-9".into(),
        source: ProtonSource::Managed,
    });
    config
}

fn studio() -> GameInstall {
    GameInstall { exe: "/s/VortexStudio.exe".into(), etag: None, last_modified: None, size: 1 }
}

#[test]
fn the_studio_is_installed_and_saved_before_it_is_opened() {
    let (flow, action) = opening::open(session(), with_proton(), &Disk::empty()).unwrap();
    assert!(matches!(action, opening::Action::Prepare));
    let (flow, action) = flow.next(opening::Event::Prepared(Ok(())));
    match action {
        opening::Action::Install { line, token } => {
            assert_eq!(line, "downloading Vortex Studio...");
            assert_eq!(token, "t");
        }
        other => panic!("{other:?}"),
    }
    let (flow, action) = flow.next(opening::Event::Installed(Ok(studio())));
    assert!(matches!(action, opening::Action::Save));
    assert_eq!(flow.config.studio.as_ref().unwrap().exe, "/s/VortexStudio.exe");
    let (flow, action) = flow.next(opening::Event::Saved(Ok(())));
    match action {
        opening::Action::Link { line, token } => {
            assert_eq!(line.as_deref(), Some("studio installed"));
            assert_eq!(token, "t");
        }
        other => panic!("{other:?}"),
    }
    let (_, action) = flow.next(opening::Event::Linked(Ok("vortex-studio://x".into())));
    assert!(matches!(action, opening::Action::Launch(uri) if uri == "vortex-studio://x"));
}

#[test]
fn the_studio_is_opened_where_it_is_there() {
    let mut config = with_proton();
    config.studio = Some(studio());
    let mut disk = Disk::empty();
    disk.files.push(FileSeen { path: "/s/VortexStudio.exe".into(), bytes: None });
    let (flow, action) = opening::open(session(), config, &disk).unwrap();
    assert!(matches!(action, opening::Action::Link { line: None, .. }));
    let (_, action) = flow.next(opening::Event::Linked(Err(Error::says("no"))));
    assert!(matches!(action, opening::Action::Fail(e) if describe(&e) == "no"));
    let why = |r: Result<(opening::Opening, opening::Action), Error>| describe(&r.unwrap_err());
    assert_eq!(
        why(opening::open(None, with_proton(), &disk)),
        "not signed in, run `login`"
    );
    assert_eq!(
        why(opening::open(session(), Config::default(), &disk)),
        "Proton is not installed yet, run the GUI (vortex-launcher) once to install"
    );
}
