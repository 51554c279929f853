use vortex_launcher::auth::{Account, Game, Login};
use vortex_launcher::cli::{
    downloaded, games, launch_program, launch_with, list_proton, login, open_studio, order_play,
    pick_proton, prompt, prompt_hidden, run, running_line, signed_in, stored, use_build, whoami,
    Order, Watch, HELP,
};
use vortex_launcher::config::{Config, GameInstall, ProtonInstall, ProtonSource};
use vortex_launcher::error::Error;
use vortex_launcher::launch::Target;
use vortex_launcher::proton::Build;
use vortex_launcher::session::Session;
use vortex_launcher::worker::describe;

fn args(words: &[&str]) -> Vec<String> {
    words.iter().map(|w| w.to_string()).collect()
}

fn build(name: &str, dir: &str, source: ProtonSource, needs: Option<(u32, u32)>) -> Build {
    Build { name: name.into(), dir: dir.into(), source, needs_glibc: needs }
}

#[test]
fn words_become_orders() {
    let order = |words: &[&str]| run(&args(words)).unwrap();
    assert!(matches!(order(&[]), Order::Start));
    assert!(matches!(order(&["login"]), Order::Login));
    assert!(matches!(order(&["logout"]), Order::Logout));
    assert!(matches!(order(&["whoami"]), Order::Whoami));
    assert!(matches!(order(&["games"]), Order::Games));
    assert!(matches!(order(&["studio"]), Order::Studio));
    assert!(matches!(order(&["proton"]), Order::ListProton));
    assert!(matches!(order(&["proton", "GE"]), Order::PickProton(name) if name == "GE"));
    assert!(matches!(order(&["play", "+12"]), Order::Play(12)));
    for help in ["help", "--help", "-h"] {
        assert!(matches!(order(&[help]), Order::Help));
    }
    assert!(matches!(order(&["vortex://x"]), Order::Open(Target::Game, _)));
    assert!(matches!(order(&["vortex-studio://x"]), Order::Open(Target::Studio, _)));
}

#[test]
fn other_words_are_refused() {
    let why = |words: &[&str]| describe(&run(&args(words)).unwrap_err());
    assert_eq!(why(&["play"]), "usage: vortex-launcher-cli play <game-id>");
    assert_eq!(
        why(&["play", "x1"]),
        "the game id must be a number (see `games`): invalid digit found in string"
    );
    assert_eq!(
        why(&["play", ""]),
        "the game id must be a number (see `games`): cannot parse integer from empty string"
    );
    assert_eq!(
        why(&["play", "18446744073709551616"]),
        "the game id must be a number (see `games`): number too large to fit in target type"
    );
    assert_eq!(why(&["fly"]), format!("unknown command `fly`\n\n{HELP}"));
    assert_eq!(
        describe(&order_play(Err("no".into())).unwrap_err()),
        "the game id must be a number (see `games`): no"
    );
    assert!(HELP.starts_with("vortex-launcher-cli — headless Vortex launcher\n\nUSAGE:\n"));
}

#[test]
fn builds_are_printed_with_what_they_need() {
    let builds = vec![
        build("GE-9", "/p/GE-9", ProtonSource::Managed, Some((2, 38))),
        build("Proton 8", "/s/Proton 8", ProtonSource::System, Some((2, 41))),
    ];
    let tags = Ok(args(&["GE-10", "GE-9"]));
    let lines = list_proton(&builds, Some("/p//GE-9/"), Some((2, 40)), tags);
    assert_eq!(
        lines,
        [
            "system glibc 2.40\n",
            &format!("* {:<24} launcher", "GE-9"),
            &format!(
                "  {:<24} steam  needs glibc 2.41, too new for this system",
                "Proton 8"
            ),
            "\nnot downloaded:",
            "  GE-10",
            "\n* is the one in use. pick another with: vortex-launcher-cli proton <name>",
        ]
    );
    let lines = list_proton(&builds[..0].to_vec(), None, None, Err(Error::says("down")));
    assert_eq!(
        lines[..2],
        [
            "cannot tell which glibc this system has\n",
            "\ncannot reach GitHub for the release list: down",
        ]
    );
    assert_eq!(list_proton(&builds, None, None, Ok(args(&["GE-9"]))).len(), 4);
}

#[test]
fn a_build_is_picked_by_its_name() {
    let builds = vec![
        build("ge-9", "/a", ProtonSource::System, None),
        build("GE-9", "/b", ProtonSource::Managed, Some((2, 41))),
    ];
    assert_eq!(pick_proton(&builds, "GE-9").unwrap().dir, "/b");
    assert_eq!(pick_proton(&builds, "Ge-9").unwrap().dir, "/a");
    assert!(pick_proton(&builds, "GE-10").is_none());
    assert_eq!(downloaded(&builds, "x", Ok("/b/")).unwrap().name, "GE-9");
    assert_eq!(
        describe(&downloaded(&builds, "x", Ok("/c")).unwrap_err()),
        "the build vanished right after being installed"
    );
    assert_eq!(
        describe(&downloaded(&builds, "x", Err(Error::says("404"))).unwrap_err()),
        "no Proton called `x` (see `vortex-launcher-cli proton`): 404"
    );
    let mut config = Config::load(None);
    config.proton_wanted = Some("old".into());
    let lines = use_build(&mut config, &builds[1], Some((2, 40)));
    assert_eq!(
        lines,
        [
            "now using GE-9",
            "warning: it needs glibc 2.41, newer than this system, the game will not start",
        ]
    );
    assert_eq!(config.proton.as_ref().unwrap().dir, "/b");
    assert_eq!(config.proton_wanted, None);
    assert_eq!(use_build(&mut config, &builds[0], None).len(), 1);
}

#[test]
fn signing_in_takes_two_steps_at_most() {
    assert_eq!(login(Login::Done("t".into())).unwrap(), "t");
    assert_eq!(
        describe(&login(Login::Needs2fa("p".into())).unwrap_err()),
        "the server asked for 2FA twice, try again"
    );
    let (session, line) = signed_in("t".into(), Account { id: 4, username: "kit".into() });
    assert_eq!((session.token.as_str(), session.user_id), ("t", 4));
    assert_eq!(line, "signed in as kit");
    assert_eq!(describe(&stored(None).unwrap_err()), "not signed in, run `login`");
    assert_eq!(stored(Some(session)).unwrap().username, "kit");
}

#[test]
fn the_account_is_printed_or_why_not() {
    let session = Session { token: "t".into(), username: "kit".into(), user_id: 4 };
    let account = Account { id: 4, username: "kit".into() };
    assert_eq!(whoami(&session, Ok(account)).unwrap(), "kit (id 4)");
    let failed = Err(Error::says("root").context("top".into()));
    assert_eq!(
        describe(&whoami(&session, failed).unwrap_err()),
        "stored session for kit no longer works: top: root"
    );
}

#[test]
fn games_are_printed_in_columns() {
    assert_eq!(games(&Vec::new()), ["no games listed right now"]);
    let list = vec![
        Game { id: 7, name: "Ünter".into(), players: 3 },
        Game { id: 12345678, name: "a".repeat(40), players: 0 },
    ];
    let printed = games(&list);
    for (line, game) in printed.iter().zip(&list) {
        let wanted = format!("{:>6}  {:<30} {} playing", game.id, game.name, game.players);
        assert_eq!(*line, wanted);
    }
}

#[test]
fn what_is_missing_is_named_before_anything_starts() {
    let why = |config: &Config, target| describe(&launch_program(config, target).unwrap_err());
    let mut config = Config::load(None);
    let no_proton = "Proton is not installed yet, run the GUI (vortex-launcher) once to install";
    assert_eq!(why(&config, Target::Game), no_proton);
    assert_eq!(describe(&open_studio(&config).unwrap_err()), no_proton);
    config.proton = Some(ProtonInstall {
        name: "p".into(),
        dir: "/p".into(),
        source: ProtonSource::System,
    });
    assert!(open_studio(&config).is_ok());
    assert_eq!(
        why(&config, Target::Game),
        "Vortex is not installed yet, run the GUI (vortex-launcher) once to install"
    );
    assert_eq!(
        why(&config, Target::Studio),
        "Vortex Studio is not installed yet, run `vortex-launcher-cli studio` first"
    );
    config.game =
        Some(GameInstall { exe: "/e".into(), etag: None, last_modified: None, size: 0 });
    assert!(launch_program(&config, Target::Game).is_ok());
}

#[test]
fn a_started_program_is_watched_to_its_end() {
    assert_eq!(
        running_line(Target::Game, "/l/game.log"),
        "vortex is running (output in /l/game.log)"
    );
    assert!(matches!(launch_with(Target::Game, true, None), Watch::On));
    match launch_with(Target::Studio, false, None) {
        Watch::Exited(line) => assert_eq!(line, "vortex studio exited"),
        other => panic!("{other:?}"),
    }
    match launch_with(Target::Game, true, Some("crashed".into())) {
        Watch::Failed(error) => assert_eq!(describe(&error), "crashed"),
        other => panic!("{other:?}"),
    }
}

#[test]
fn a_password_keeps_its_blanks() {
    assert_eq!(prompt("  me \n").unwrap(), "me");
    assert_eq!(prompt_hidden(" pw \r\n").unwrap(), " pw ");
    assert_eq!(describe(&prompt(" \n").unwrap_err()), "nothing entered");
    assert_eq!(describe(&prompt_hidden("\r\n").unwrap_err()), "nothing entered");
    assert_eq!(prompt_hidden(" ").unwrap(), " ");
}
