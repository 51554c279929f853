use vortex_launcher::error::Error;
use vortex_launcher::game::{self, extract, Action, Entry, Event, Install, Item};
use vortex_launcher::net::{Headers, Reply};
use vortex_launcher::paths::Paths;
use vortex_launcher::state::{Part, Shared};
use vortex_launcher::studio;
use vortex_launcher::worker::describe;

fn paths() -> Paths {
    Paths { data: "/d".into(), config: "/c".into() }
}

fn reply(size: &str) -> Result<Reply, Error> {
    Ok(Reply {
        status: 206,
        headers: Headers {
            content_range: Some(format!("bytes 0-0/{size}")),
            content_length: None,
            etag: Some("e1".into()),
            last_modified: Some("today".into()),
        },
        cookies: Vec::new(),
        body: Ok(String::new()),
    })
}

fn item(path: &str, is_dir: bool) -> Item {
    Item { path: path.into(), is_dir }
}

fn at_search(shared: &mut Shared) -> Install {
    let (machine, action) = game::install(&paths());
    match action {
        Action::Fetch(request) => {
            assert_eq!(request.url, "https://playvortex.io/download/windows");
        }
        other => panic!("{other:?}"),
    }
    let (machine, action) = machine.next(shared, Event::Replied(reply("1024")));
    assert!(matches!(action, Action::Measure { .. }));
    assert_eq!(shared.lines, ["vortex build is 1.0 KiB"]);
    let (machine, action) = machine.next(shared, Event::Free(Some(3072)));
    match action {
        Action::Download { url, token, file } => {
            assert_eq!(url, "https://playvortex.io/download/windows");
            assert_eq!(token, None);
            assert_eq!(file, "/d/downloads/Vortex-Windows.zip");
        }
        other => panic!("{other:?}"),
    }
    let (machine, _) = machine.next(shared, Event::Received(256, 0));
    assert_eq!(shared.status.progress, None);
    assert_eq!(shared.status.detail, "256 B");
    let (machine, _) = machine.next(shared, Event::Received(256, 1024));
    assert_eq!(shared.status.progress, Some(Part { done: 256, whole: 1024 }));
    let (machine, action) = machine.next(shared, Event::Downloaded(Ok(())));
    match action {
        Action::Extract { archive, dir } => {
            assert_eq!(archive, "/d/downloads/Vortex-Windows.zip");
            assert_eq!(dir, "/d/game");
        }
        other => panic!("{other:?}"),
    }
    assert_eq!(shared.status.progress, None);
    assert_eq!(shared.status.detail, "extracting");
    let (machine, _) = machine.next(shared, Event::Unpacked(1, 40));
    assert_eq!(shared.status.detail, "extracting 1 of 40 files");
    let (machine, _) = machine.next(shared, Event::Unpacked(2, 40));
    assert_eq!(shared.status.detail, "extracting 1 of 40 files");
    let (machine, _) = machine.next(shared, Event::Unpacked(17, 40));
    assert_eq!(shared.status.detail, "extracting 17 of 40 files");
    let (machine, _) = machine.next(shared, Event::Unpacked(40, 40));
    assert_eq!(shared.status.progress, Some(Part { done: 40, whole: 40 }));
    let (machine, action) = machine.next(shared, Event::Extracted(Ok(())));
    match action {
        Action::List { dir } => assert_eq!(dir, "/d/game"),
        other => panic!("{other:?}"),
    }
    machine
}

#[test]
fn the_program_is_found_wherever_it_is() {
    let mut shared = Shared::new();
    let machine = at_search(&mut shared);
    let listing = vec![
        item("/d/game/a", true),
        item("/d/game/readme", false),
        item("/d/game/b", true),
    ];
    let (machine, action) = machine.next(&mut shared, Event::Listed(Ok(listing)));
    match action {
        Action::List { dir } => assert_eq!(dir, "/d/game/b"),
        other => panic!("{other:?}"),
    }
    let (machine, action) = machine.next(&mut shared, Event::Listed(Ok(Vec::new())));
    match action {
        Action::List { dir } => assert_eq!(dir, "/d/game/a"),
        other => panic!("{other:?}"),
    }
    let listing = vec![item("/d/game/a/Vortex.exe", true), item("/d/game/a/VORTEX.EXE", false)];
    match machine.next(&mut shared, Event::Listed(Ok(listing))).1 {
        Action::Done { install, discard } => {
            assert_eq!(install.exe, "/d/game/a/VORTEX.EXE");
            assert_eq!(install.etag.as_deref(), Some("e1"));
            assert_eq!(install.last_modified.as_deref(), Some("today"));
            assert_eq!(install.size, 1024);
            assert_eq!(discard, "/d/downloads/Vortex-Windows.zip");
        }
        other => panic!("{other:?}"),
    }
    assert_eq!(shared.lines[1], "installed /d/game/a/VORTEX.EXE");
}

#[test]
fn an_archive_without_the_program_is_an_error() {
    let mut shared = Shared::new();
    let machine = at_search(&mut shared);
    match machine.next(&mut shared, Event::Listed(Ok(Vec::new()))).1 {
        Action::Fail(error) => assert_eq!(
            describe(&error),
            "Vortex.exe was not in the archive, the download may have changed format"
        ),
        other => panic!("{other:?}"),
    }
}

#[test]
fn three_times_the_size_has_to_be_free() {
    let mut shared = Shared::new();
    let (machine, _) = game::install(&paths());
    let (machine, _) = machine.next(&mut shared, Event::Replied(reply("1024")));
    match machine.next(&mut shared, Event::Free(Some(3071))).1 {
        Action::Fail(error) => assert_eq!(
            describe(&error),
            "not enough disk space: 3.0 KiB free, about 3.0 KiB needed"
        ),
        other => panic!("{other:?}"),
    }
    let (machine, _) = game::install(&paths());
    let (machine, _) = machine.next(&mut shared, Event::Replied(reply("18446744073709551615")));
    let action = machine.next(&mut shared, Event::Free(Some(1))).1;
    assert!(matches!(action, Action::Fail(_)));
    let (machine, _) = game::install(&paths());
    let (machine, _) = machine.next(&mut shared, Event::Replied(reply("*")));
    let action = machine.next(&mut shared, Event::Free(Some(1))).1;
    assert!(matches!(action, Action::Download { .. }));
}

#[test]
fn failures_of_the_steps_are_passed_on() {
    let mut shared = Shared::new();
    let (machine, _) = game::install(&paths());
    match machine.next(&mut shared, Event::Replied(Err(Error::says("down")))).1 {
        Action::Fail(error) => assert_eq!(
            describe(&error),
            "cannot reach https://playvortex.io/download/windows: down"
        ),
        other => panic!("{other:?}"),
    }
    let machine = at_search(&mut Shared::new());
    let failed = Event::Listed(Err(Error::says("cannot read /d/game")));
    let (machine, action) = machine.next(&mut shared, failed);
    assert!(matches!(action, Action::Fail(_)));
    let (_, action) = machine.next(&mut shared, Event::Extracted(Ok(())));
    assert!(matches!(action, Action::Wait));
}

#[test]
fn the_studio_is_downloaded_for_an_account() {
    let mut shared = Shared::new();
    let (machine, action) = studio::install(&paths(), "tok");
    match action {
        Action::Fetch(request) => {
            assert_eq!(request.url, "https://playvortex.io/download/studio-windows");
            assert_eq!(request.headers[1].1, "session_token=tok");
        }
        other => panic!("{other:?}"),
    }
    assert_eq!(machine.build.exe, "VortexStudio.exe");
    assert_eq!(machine.build.dir, "/d/studio");
    let (machine, _) = machine.next(&mut shared, Event::Replied(reply("10")));
    assert_eq!(shared.lines, ["studio build is 10 B"]);
    match machine.next(&mut shared, Event::Free(None)).1 {
        Action::Download { token, file, .. } => {
            assert_eq!(token.as_deref(), Some("tok"));
            assert_eq!(file, "/d/downloads/VortexStudio-Windows.zip");
        }
        other => panic!("{other:?}"),
    }
    assert_eq!(studio::ask("t").headers.len(), 2);
    assert_eq!(studio::probe(reply("7")).unwrap().size, 7);
    assert_eq!(game::ask().headers.len(), 1);
    assert_eq!(game::probe(reply("7")).unwrap().size, 7);
}

#[test]
fn entries_stay_inside_the_destination() {
    assert!(matches!(extract("/d/game", None, false), Entry::Skip));
    match extract("/d/game", Some("data/x.pak"), false) {
        Entry::File { file, parent } => {
            assert_eq!(file, "/d/game/data/x.pak");
            assert_eq!(parent.as_deref(), Some("/d/game/data"));
        }
        other => panic!("{other:?}"),
    }
    match extract("/d/game", Some("data/"), true) {
        Entry::Directory { dir } => assert_eq!(dir, "/d/game/data/"),
        other => panic!("{other:?}"),
    }
}
