use vortex_launcher::app::{
    first_jobs, link_given, status_line, Form, Offer, Screen, Snapshot, CREDIT,
};
use vortex_launcher::desktop::{
    applications_below, applications_dir, entry, handler_entry, icons_dir, icons_dir_below, install,
    install_icon, note,
};
use vortex_launcher::disk::{Disk, FileSeen};
use vortex_launcher::error::Error;
use vortex_launcher::ipc::{listen, send, serve, socket_below, socket_path, Listening};
use vortex_launcher::logo::{decode, paint, Color, Frame};
use vortex_launcher::state::{GameRow, Part, Status, Task};
use vortex_launcher::worker::Job;

fn file(path: &str, bytes: &[u8]) -> Disk {
    Disk {
        files: vec![FileSeen { path: path.into(), bytes: Some(bytes.to_vec()) }],
        dirs: Vec::new(),
    }
}

#[test]
fn the_screen_is_the_first_step_that_is_missing() {
    let mut status = Status::default();
    let screen = |status: &Status| Snapshot::from_status(status).screen();
    assert_eq!(screen(&status), Screen::Install);
    status.game_ready = true;
    assert_eq!(screen(&status), Screen::Install);
    status.proton_ready = true;
    assert_eq!(screen(&status), Screen::SignIn);
    status.needs_2fa = true;
    assert_eq!(screen(&status), Screen::Code);
    status.account = Some("kit".into());
    assert_eq!(screen(&status), Screen::Play);
    status.task = Some(Task::LoadingGames);
    assert_eq!(screen(&status), Screen::Busy);
    let snapshot = Snapshot::from_status(&status);
    assert_eq!(snapshot.task, Some("Loading games"));
    assert_eq!(snapshot.idle_controls(), Screen::Play);
    assert!(snapshot.changes());
    assert!(!snapshot.has_detail());
    assert_eq!(CREDIT, "Developed by zPaulinBRz | Logo by KitKat");
}

#[test]
fn a_running_game_is_not_offered_again() {
    let mut status = Status::default();
    assert_eq!(Snapshot::from_status(&status).offer(), Offer::Play);
    status.game_running = true;
    assert_eq!(Snapshot::from_status(&status).offer(), Offer::Running);
}

#[test]
fn the_bottom_line_names_the_account_and_proton() {
    let mut status = Status::default();
    status.proton_name = Some("GE-9".into());
    let line = |status: &Status| status_line(&Snapshot::from_status(status));
    assert_eq!(line(&status), "signed out - Proton missing");
    status.proton_ready = true;
    status.account = Some("kit".into());
    assert_eq!(line(&status), "kit - GE-9");
    let footer = Snapshot::from_status(&status).footer();
    assert!(footer.sign_out && !footer.check_for_updates);
    assert_eq!(footer.line, "kit - GE-9");
}

#[test]
fn games_are_shown_with_their_players() {
    let mut status = Status::default();
    status.games = vec![
        GameRow { id: 4, name: "Race".into(), players: 12 },
        GameRow { id: 5, name: "Duel".into(), players: 0 },
    ];
    status.selected_game = Some(5);
    status.progress = Some(Part { done: 1, whole: 2 });
    status.detail = "x".into();
    let snapshot = Snapshot::from_status(&status);
    let rows = snapshot.rows();
    assert_eq!((rows[0].label.as_str(), rows[0].selected), ("Race - 12 playing", false));
    assert_eq!((rows[1].label.as_str(), rows[1].selected, rows[1].id), ("Duel - 0 playing", true, 5));
    assert!(snapshot.has_detail());
    assert_eq!(snapshot.progress, Some(Part { done: 1, whole: 2 }));
    assert!(!snapshot.changes());
}

#[test]
fn signing_in_takes_a_name_and_a_password() {
    let mut form = Form::new();
    assert!(!form.ready());
    form.username = "  me ".into();
    assert!(form.sign_in(true).is_none());
    form.password = " ".into();
    assert!(form.ready());
    assert!(form.sign_in(false).is_none());
    match form.sign_in(true) {
        Some(Job::SignIn { username, password }) => {
            assert_eq!((username.as_str(), password.as_str()), ("me", " "));
        }
        other => panic!("{other:?}"),
    }
    assert_eq!(form.password, "");
    form.code = " 12 3 ".into();
    assert!(form.verify(false).is_none());
    match form.verify(true) {
        Some(Job::Submit2fa(code)) => assert_eq!(code, "12 3"),
        other => panic!("{other:?}"),
    }
    assert!(form.verify(true).is_none());
}

#[test]
fn the_launcher_starts_with_a_look_and_its_link() {
    let link = "vortex://launch?x=1".to_owned();
    assert_eq!(link_given(&vec![link.clone()]).as_deref(), Some("vortex://launch?x=1"));
    assert_eq!(link_given(&vec!["--version".into()]), None);
    assert_eq!(link_given(&Vec::new()), None);
    let jobs = first_jobs(Some(link));
    assert!(matches!(jobs[0], Job::Detect));
    assert!(matches!(&jobs[1], Job::PlayUri(uri) if uri == "vortex://launch?x=1"));
    assert_eq!(first_jobs(None).len(), 1);
}

const CLI: &str = "/opt/v/vortex-launcher-cli";

#[test]
fn entries_are_written_only_where_they_changed() {
    let exe = "/opt/v/vortex-launcher";
    let menu = entry(exe);
    assert_eq!(
        menu,
        "[Desktop Entry]\n\
         Type=Application\n\
         Name=Vortex Launcher\n\
         Comment=Unofficial Linux launcher for Vortex\n\
         Exec=/opt/v/vortex-launcher %u\n\
         Icon=vortex-launcher\n\
         Terminal=false\n\
         Categories=Game;\n\
         Keywords=vortex;\n\
         StartupWMClass=vortex-launcher\n"
    );
    let seen = file(CLI, b"");
    let link = handler_entry(exe, &seen);
    assert_eq!(
        link,
        "[Desktop Entry]\n\
         Type=Application\n\
         Name=Vortex Launcher (link handler)\n\
         Comment=Opens vortex:// links without a window\n\
         Exec=/opt/v/vortex-launcher-cli %u\n\
         Icon=vortex-launcher\n\
         Terminal=false\n\
         NoDisplay=true\n\
         Categories=Game;\n\
         MimeType=x-scheme-handler/vortex;\n"
    );
    assert!(handler_entry(exe, &Disk::empty()).contains("Exec=/opt/v/vortex-launcher %u\n"));
    let plan = install("/a", exe, None, Some(&link), &seen);
    assert_eq!(plan.files.len(), 1);
    assert_eq!(plan.files[0].path, "/a/vortex-launcher.desktop");
    assert_eq!(plan.files[0].text, menu);
    assert_eq!(plan.commands[0].program, "update-desktop-database");
    assert_eq!(plan.commands[0].args, ["/a"]);
    assert_eq!(
        plan.commands[1].args,
        ["default", "vortex-launcher-uri.desktop", "x-scheme-handler/vortex"]
    );
    let plan = install("/a", exe, Some(&menu), Some("old"), &seen);
    assert_eq!(plan.files[0].path, "/a/vortex-launcher-uri.desktop");
    let plan = install("/a", exe, Some(&menu), Some(&link), &seen);
    assert!(plan.files.is_empty() && plan.commands.is_empty());
    assert_eq!(install("/a", exe, None, None, &seen).files.len(), 2);
}

#[test]
fn the_icon_is_written_where_it_differs() {
    let dir = "/u/icons/hicolor/256x256/apps";
    let path = format!("{dir}/vortex-launcher.png");
    assert!(install_icon(dir, b"png", &file(&path, b"png")).is_none());
    let icon = install_icon(dir, b"png", &file(&path, b"old")).unwrap();
    assert_eq!(icon.file, path);
    assert_eq!(icon.refresh.unwrap().args, ["-t", "-q", "/u/icons/hicolor"]);
    assert!(install_icon(dir, b"png", &Disk::empty()).is_some());
    assert_eq!(applications_below(Some("/u")).unwrap(), "/u/applications");
    assert!(applications_below(None).is_none());
    assert_eq!(icons_dir_below(Some("/u")).unwrap(), dir);
    assert_eq!(icons_dir_below(None).unwrap_err().headline(), "no XDG data directory");
    match dirs::data_dir() {
        Some(data) => {
            assert_eq!(applications_dir().unwrap(), data.join("applications").to_str().unwrap());
            let icons = data.join("icons/hicolor/256x256/apps");
            assert_eq!(icons_dir().unwrap(), icons.to_str().unwrap());
        }
        None => assert!(applications_dir().is_none() && icons_dir().is_err()),
    }
    assert_eq!(note(Ok(true)).as_deref(), Some("registered as the vortex:// handler"));
    assert_eq!(note(Ok(false)), None);
    assert_eq!(
        note(Err(Error::says("b").context("a".into()))).as_deref(),
        Some("desktop entry failed: a: b")
    );
}

#[test]
fn the_socket_lies_in_the_first_directory_there_is() {
    assert_eq!(
        socket_below(Some("/run/user/1"), Some("/d".into()), "/tmp"),
        "/run/user/1/vortex-launcher.sock"
    );
    assert_eq!(socket_below(None, Some("/d".into()), "/tmp"), "/d/vortex-launcher.sock");
    assert_eq!(socket_below(None, None, "/tmp"), "/tmp/vortex-launcher.sock");
    assert_eq!(socket_path(Some("/r"), "/tmp"), "/r/vortex-launcher.sock");
    let base = dirs::data_dir().map(|dir| dir.to_str().unwrap().to_owned());
    assert_eq!(socket_path(None, "/tmp"), socket_below(None, base, "/tmp"));
}

#[test]
fn a_socket_nobody_answers_at_is_taken_over() {
    assert_eq!(listen(true, false), Listening::Ours);
    assert_eq!(listen(false, false), Listening::Stale);
    assert_eq!(listen(false, true), Listening::Taken);
    assert_eq!(send("vortex://x"), "vortex://x\n");
    assert_eq!(serve("vortex://x\n").as_deref(), Some("vortex://x"));
    assert_eq!(serve(&send("")), None);
    assert_eq!(serve(&send("vortex-studio://é")).as_deref(), Some("vortex-studio://é"));
}

fn encoded(color: png::ColorType, pixels: &[u8]) -> Vec<u8> {
    let mut bytes = Vec::new();
    let mut encoder = png::Encoder::new(&mut bytes, 2, 1);
    encoder.set_color(color);
    encoder.set_depth(png::BitDepth::Eight);
    let mut writer = encoder.write_header().unwrap();
    writer.write_image_data(pixels).unwrap();
    writer.finish().unwrap();
    bytes
}

#[test]
fn a_picture_becomes_four_bytes_a_pixel() {
    let image = decode(&encoded(png::ColorType::Rgb, &[1, 2, 3, 4, 5, 6])).unwrap();
    assert_eq!(image.rgba, [1, 2, 3, 255, 4, 5, 6, 255]);
    assert_eq!((image.width, image.height), (2, 1));
    let image = decode(&encoded(png::ColorType::Rgba, &[1, 2, 3, 4, 5, 6, 7, 8])).unwrap();
    assert_eq!(image.rgba, [1, 2, 3, 4, 5, 6, 7, 8]);
    assert!(decode(&encoded(png::ColorType::Grayscale, &[1, 2])).is_none());
    assert!(decode(b"no picture").is_none());
    let frame = Frame { color: Color::Rgb, pixels: vec![9, 8, 7, 6], width: 1, height: 1 };
    assert_eq!(paint(frame).unwrap().rgba, [9, 8, 7, 255]);
}
