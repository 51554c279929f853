use std::path::Path;
use vortex_launcher::config::{Config, GameInstall, ProtonInstall, ProtonSource};
use vortex_launcher::disk::{Disk, FileSeen};
use vortex_launcher::paths::{
    file_name, free_space, join, parent, same_path, with_extension, with_file_name, Paths,
};
use vortex_launcher::session;
use vortex_launcher::storing::{steps, Storing};
use vortex_launcher::worker::describe;

const SAMPLES: [&str; 22] = [
    "", "/", "a", "a/", "/a", "/a/b", "/a//b/", "./a", "a/.", "a/./b", "a/..", "..", ".", "/a/.",
    "//", "/.", "a.b", "/x/.hidden", "/x/a.b.c", "/x/a.", "a/b/./", "...",
];

#[test]
fn paths_are_taken_apart_as_the_standard_library_does() {
    for s in SAMPLES {
        let path = Path::new(s);
        assert_eq!(
            file_name(s).as_deref(),
            path.file_name().map(|n| n.to_str().unwrap()),
            "{s}"
        );
        assert_eq!(parent(s).as_deref(), path.parent().map(|p| p.to_str().unwrap()), "{s}");
        for t in SAMPLES {
            assert_eq!(join(s, t), path.join(t).to_str().unwrap(), "{s} {t}");
            assert_eq!(same_path(s, t), path == Path::new(t), "{s} {t}");
        }
        let renamed = path.with_file_name("n");
        assert_eq!(with_file_name(s, "n"), renamed.to_str().unwrap(), "{s}");
        let extended = path.with_extension("json.tmp");
        assert_eq!(with_extension(s, "json.tmp"), extended.to_str().unwrap(), "{s}");
    }
}

#[test]
fn everything_lies_below_two_directories() {
    let paths = Paths::below(Some("/home/me/.local/share".into()), Some("/cfg".into())).unwrap();
    assert_eq!(paths.data, "/home/me/.local/share/vortex-launcher");
    assert_eq!(paths.config_file(), "/cfg/vortex-launcher/config.json");
    assert_eq!(paths.session_file(), "/home/me/.local/share/vortex-launcher/session.json");
    let dirs = paths.ensure();
    assert_eq!(dirs.len(), 8);
    assert_eq!(dirs[0], paths.data);
    assert_eq!(dirs[1], paths.config);
    assert!(dirs[2..].iter().all(|dir| parent(dir).as_deref() == Some(paths.data.as_str())));
    assert_eq!(
        describe(&Paths::below(None, Some("/c".into())).unwrap_err()),
        "no XDG data directory (is $HOME set?)"
    );
    assert_eq!(
        describe(&Paths::below(Some("/d".into()), None).unwrap_err()),
        "no XDG config directory (is $HOME set?)"
    );
}

#[test]
fn the_directories_come_from_the_environment() {
    match (Paths::discover(), dirs::data_dir(), dirs::config_dir()) {
        (Ok(paths), Some(data), Some(config)) => {
            assert_eq!(Path::new(&paths.data), data.join("vortex-launcher"));
            assert_eq!(Path::new(&paths.config), config.join("vortex-launcher"));
        }
        (found, data, config) => assert!(found.is_err() && (data.is_none() || config.is_none())),
    }
}

#[test]
fn the_free_space_is_in_the_fourth_column() {
    let df = "Filesystem 1024-blocks Used Available Capacity Mounted on\n/dev/sda1 100 40 60 40% /\n";
    assert_eq!(free_space(df), Some(60 * 1024));
    assert_eq!(free_space("one line"), None);
    assert_eq!(free_space("a\nb c d"), None);
    assert_eq!(free_space("a\nb c d -"), None);
    assert_eq!(free_space("a\nb c d 18446744073709551615"), Some(u64::MAX));
}

#[test]
fn a_file_is_replaced_in_one_go() {
    let plan = Config::save("/c/vortex-launcher/config.json").unwrap();
    assert_eq!(plan.dir, "/c/vortex-launcher");
    assert_eq!(plan.tmp, "/c/vortex-launcher/config.json.tmp");
    assert_eq!(describe(&Config::save("/").unwrap_err()), "config path has no parent");
    assert_eq!(plan.mode, None);
    let plan = session::save("/d/session.json").unwrap();
    assert_eq!(plan.tmp, "/d/session.json.tmp");
    assert_eq!(plan.mode, Some(0o600));
    match &steps("/d/session.json", &plan)[..] {
        [Storing::MakeDir { dir }, Storing::Write { file, mode }, Storing::SetMode { file: set, mode: to }, Storing::Rename { from, to: path }] =>
        {
            assert_eq!(dir, "/d");
            assert_eq!((file.as_str(), *mode), ("/d/session.json.tmp", Some(0o600)));
            assert_eq!((set.as_str(), *to), ("/d/session.json.tmp", 0o600));
            assert_eq!((from.as_str(), path.as_str()), ("/d/session.json.tmp", "/d/session.json"));
        }
        other => panic!("{other:?}"),
    }
    let plan = Config::save("/c/config.json").unwrap();
    assert_eq!(steps("/c/config.json", &plan).len(), 3);
    assert_eq!(describe(&session::save("").unwrap_err()), "session path has no parent");
}

#[test]
fn a_missing_configuration_lets_the_game_update_itself() {
    let fresh = Config::load(None);
    assert!(fresh.allow_self_update);
    assert!(!fresh.native_shader_compiler);
    assert!(fresh.game.is_none() && fresh.proton_wanted.is_none());
    // what a stored state lacks
    assert!(Config::load(Some(Config::default())).allow_self_update);
    assert!(!Config::load(Some(Config::default())).native_shader_compiler);
    let mut stored = Config::default();
    stored.proton_wanted = Some("GE-Proton9-27".into());
    stored.allow_self_update = false;
    let loaded = Config::load(Some(stored));
    assert_eq!(loaded.proton_wanted.as_deref(), Some("GE-Proton9-27"));
    assert!(!loaded.allow_self_update);
    assert!(!loaded.proton_ready("x86_64", &Disk::empty()));
}

#[test]
fn what_is_installed_has_to_be_there() {
    let mut config = Config::load(None);
    let seen = Disk {
        files: ["/g/Vortex.exe", "/p/proton"]
            .iter()
            .map(|p| FileSeen { path: p.to_string(), bytes: None })
            .collect(),
        dirs: Vec::new(),
    };
    assert!(!config.game_ready(&seen));
    let program = GameInstall {
        exe: "/g/Vortex.exe".into(),
        etag: None,
        last_modified: None,
        size: 3,
    };
    config.game = Some(program.clone());
    config.studio = Some(program);
    config.proton = Some(ProtonInstall {
        name: "p".into(),
        dir: "/p".into(),
        source: ProtonSource::System,
    });
    assert!(config.game_ready(&seen) && config.studio_ready(&seen));
    assert!(config.proton_ready("x86_64", &seen));
    assert!(!config.game_ready(&Disk::empty()));
    assert!(ProtonSource::Managed < ProtonSource::System);
}
