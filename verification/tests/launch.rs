use vortex_launcher::config::{Config, GameInstall, ProtonInstall, ProtonSource};
use vortex_launcher::disk::{path_candidates, Disk, FileSeen};
use vortex_launcher::launch::{
    exited, launch, launch_target, launched, merge_overrides, python, Exit, Target,
};
use vortex_launcher::paths::Paths;
use vortex_launcher::state::Shared;
use vortex_launcher::worker::describe;

fn paths() -> Paths {
    Paths { data: "/d".into(), config: "/c".into() }
}

fn config() -> Config {
    let program = |exe: &str| GameInstall {
        exe: exe.into(),
        etag: None,
        last_modified: None,
        size: 1,
    };
    let mut config = Config::load(None);
    config.game = Some(program("/d/game/sub/Vortex.exe"));
    config.studio = Some(program("/d/studio/VortexStudio.exe"));
    config.proton = Some(ProtonInstall {
        name: "GE-9".into(),
        dir: "/p".into(),
        source: ProtonSource::Managed,
    });
    config
}

fn disk(files: &[&str]) -> Disk {
    Disk {
        files: files.iter().map(|p| FileSeen { path: p.to_string(), bytes: None }).collect(),
        dirs: Vec::new(),
    }
}

const ALL: [&str; 4] = [
    "/d/game/sub/Vortex.exe",
    "/d/studio/VortexStudio.exe",
    "/p/proton",
    "/usr/bin/python3",
];

#[test]
fn the_command_runs_the_game_under_proton() {
    let config = config();
    let ready = launch(&paths(), &config, Some("/bin:/usr/bin"), &disk(&ALL)).unwrap();
    assert_eq!(ready.log, "/d/logs/game.log");
    let uri = "vortex://launch?token=t";
    let command = ready.command(&paths(), &config, Some(uri), None, None).unwrap();
    assert_eq!(command.program, "/usr/bin/python3");
    assert_eq!(command.args, ["/p/proton", "run", "/d/game/sub/Vortex.exe", uri]);
    assert_eq!(command.dir.as_deref(), Some("/d/game/sub"));
    let env: Vec<(&str, &str)> =
        command.env.iter().map(|(n, v)| (n.as_str(), v.as_str())).collect();
    assert_eq!(
        env,
        [
            ("STEAM_COMPAT_DATA_PATH", "/d/prefix"),
            ("STEAM_COMPAT_CLIENT_INSTALL_PATH", "/d/compat-client"),
        ]
    );
}

#[test]
fn the_options_go_into_the_environment() {
    let mut config = config();
    config.allow_self_update = false;
    config.native_shader_compiler = true;
    let ready =
        launch_target(&paths(), &config, Target::Studio, Some("/usr/bin"), &disk(&ALL)).unwrap();
    assert_eq!(ready.log, "/d/logs/studio.log");
    let command = ready
        .command(&paths(), &config, None, Some("dxgi=n"), Some("  "))
        .unwrap();
    assert_eq!(command.args, ["/p/proton", "run", "/d/studio/VortexStudio.exe"]);
    let env: Vec<(&str, &str)> =
        command.env[2..].iter().map(|(n, v)| (n.as_str(), v.as_str())).collect();
    assert_eq!(
        env,
        [
            ("VORTEX_NO_UPDATE", "1"),
            ("PROTON_DLL_OVERRIDES", "dxgi=n;d3dcompiler_47=n,b"),
            ("WINEDLLOVERRIDES", "d3dcompiler_47=n,b"),
        ]
    );
    assert_eq!(merge_overrides(None), "d3dcompiler_47=n,b");
}

#[test]
fn the_first_thing_that_is_missing_is_named() {
    let why = |config: &Config, target: Target, path: Option<&str>, files: &[&str]| {
        describe(&launch_target(&paths(), config, target, path, &disk(files)).unwrap_err())
    };
    let none = Config::load(None);
    assert_eq!(why(&none, Target::Game, None, &[]), "Vortex is not installed yet");
    assert_eq!(why(&none, Target::Studio, None, &[]), "Vortex Studio is not installed yet");
    let mut no_proton = config();
    no_proton.proton = None;
    assert_eq!(why(&no_proton, Target::Game, None, &[]), "Proton is not installed yet");
    assert_eq!(
        why(&config(), Target::Game, None, &[]),
        "/d/game/sub/Vortex.exe is missing, reinstall Vortex"
    );
    assert_eq!(
        why(&config(), Target::Game, None, &ALL[..1]),
        "/p/proton is missing, reinstall Proton"
    );
    assert_eq!(why(&config(), Target::Game, None, &ALL[..3]), "PATH is not set");
    assert_eq!(why(&config(), Target::Game, Some("/bin"), &ALL), "python3 was not found.");
}

#[test]
fn only_a_link_of_its_own_reaches_a_program() {
    let config = config();
    let game =
        launch_target(&paths(), &config, Target::Game, Some("/usr/bin"), &disk(&ALL)).unwrap();
    for link in ["vortex-studio://x", "--help", "vortex://a b", ""] {
        let refused = game.command(&paths(), &config, Some(link), None, None).unwrap_err();
        assert_eq!(describe(&refused), "that is not a launch link for Vortex");
    }
    let studio =
        launch_target(&paths(), &config, Target::Studio, Some("/usr/bin"), &disk(&ALL)).unwrap();
    let refused = studio.command(&paths(), &config, Some("vortex://x"), None, None).unwrap_err();
    assert_eq!(describe(&refused), "that is not a launch link for Vortex Studio");
    assert!(Target::Studio.accepts("vortex-studio://x"));
}

#[test]
fn the_search_path_is_searched_in_order() {
    assert_eq!(path_candidates("/a::b", "x"), ["/a/x", "x", "b/x"]);
    let seen = disk(&["/b/python3", "/c/python3"]);
    assert_eq!(python(Some("/a:/b:/c"), &seen).unwrap(), "/b/python3");
}

#[test]
fn a_program_that_closes_at_once_is_shown_as_an_error() {
    let config = config();
    let ready =
        launch_target(&paths(), &config, Target::Game, Some("/usr/bin"), &disk(&ALL)).unwrap();
    let mut shared = Shared::new();
    launched(&mut shared, &ready);
    assert!(shared.status.game_running);
    assert_eq!(shared.lines, ["running Vortex via GE-9"]);
    let failed = |code| Exit::Failed { status: "exit status: 3".into(), code };
    exited(&mut shared, Target::Game, "/l", failed(Some(3)), 19999);
    assert!(!shared.status.game_running);
    assert_eq!(
        shared.status.error.as_deref(),
        Some("Vortex closed immediately (exit 3). Full output in /l")
    );
    assert_eq!(shared.lines[1], "Vortex exited with exit status: 3");
    exited(&mut shared, Target::Game, "/l", failed(None), 5);
    assert_eq!(
        shared.status.error.as_deref(),
        Some("Vortex closed immediately (exit a signal). Full output in /l")
    );
    exited(&mut shared, Target::Game, "/l", failed(Some(-7)), 5);
    assert!(shared.status.error.as_deref().unwrap().contains("(exit -7)"));
}

#[test]
fn a_program_that_ran_for_a_while_is_only_logged() {
    let mut shared = Shared::new();
    shared.status.studio_running = true;
    let failed = Exit::Failed { status: "exit status: 1".into(), code: Some(1) };
    exited(&mut shared, Target::Studio, "/l", failed, 20000);
    assert_eq!(shared.status.error, None);
    assert!(!shared.status.studio_running);
    exited(&mut shared, Target::Studio, "/l", Exit::Success, 1);
    exited(&mut shared, Target::Studio, "/l", Exit::Lost("gone".into()), 1);
    assert_eq!(shared.status.error, None);
    assert_eq!(
        shared.lines,
        [
            "Vortex Studio exited with exit status: 1",
            "Vortex Studio exited",
            "lost track of Vortex Studio: gone",
        ]
    );
}
