use vortex_launcher::config::{Config, ProtonInstall, ProtonSource};
use vortex_launcher::disk::{DirSeen, Disk, FileSeen};
use vortex_launcher::error::Error;
use vortex_launcher::paths::Paths;
use vortex_launcher::shaders::{
    compiler, install, installed, is_installed, is_wine_builtin, judge, prefix, wine, winetricks,
    Output, OVERRIDE,
};
use vortex_launcher::state::Shared;
use vortex_launcher::worker::describe;

const BUILTIN_MARK: &[u8] = b"Wine builtin DLL";

fn paths() -> Paths {
    Paths { data: "/data".into(), config: "/config".into() }
}

fn disk(files: &[(&str, &[u8])], dirs: &[&str]) -> Disk {
    Disk {
        files: files
            .iter()
            .map(|(path, bytes)| FileSeen { path: path.to_string(), bytes: Some(bytes.to_vec()) })
            .collect(),
        dirs: dirs
            .iter()
            .map(|path| DirSeen { path: path.to_string(), entries: Vec::new() })
            .collect(),
    }
}

fn config() -> Config {
    let mut config = Config::default();
    config.proton = Some(ProtonInstall {
        name: "GE".into(),
        dir: "/p".into(),
        source: ProtonSource::Managed,
    });
    config
}

#[test]
fn wine_own_dll_does_not_count_as_installed() {
    let mut builtin = vec![0u8; 512];
    builtin[64..64 + BUILTIN_MARK.len()].copy_from_slice(BUILTIN_MARK);
    assert!(is_wine_builtin(&builtin));
    assert!(!is_wine_builtin(&vec![0u8; 512]));
}

#[test]
fn the_mark_counts_only_in_the_first_block() {
    let mut dll = vec![0u8; 8192];
    dll[4080..4096].copy_from_slice(BUILTIN_MARK);
    assert!(is_wine_builtin(&dll));
    let mut dll = vec![0u8; 8192];
    dll[4081..4097].copy_from_slice(BUILTIN_MARK);
    assert!(!is_wine_builtin(&dll));
    assert!(is_wine_builtin(&BUILTIN_MARK.to_vec()));
    assert!(!is_wine_builtin(&BUILTIN_MARK[1..].to_vec()));
    assert!(!is_wine_builtin(&Vec::new()));
}

#[test]
fn prefix_sits_below_compat_data() {
    let paths = Paths { data: "/data".into(), config: "/config".into() };
    assert_eq!(prefix(&paths), "/data/prefix/pfx");
}

#[test]
fn only_a_native_file_counts() {
    let file = compiler(&paths());
    assert_eq!(
        file,
        "/data/prefix/pfx/drive_c/windows/system32/d3dcompiler_47.dll"
    );
    assert!(is_installed(&paths(), &disk(&[(file.as_str(), b"MZ")], &[])));
    assert!(!is_installed(&paths(), &disk(&[(file.as_str(), BUILTIN_MARK)], &[])));
    assert!(!is_installed(&paths(), &Disk::empty()));
    let unreadable =
        Disk { files: vec![FileSeen { path: file, bytes: None }], dirs: Vec::new() };
    assert!(!is_installed(&paths(), &unreadable));
    assert_eq!(OVERRIDE, "d3dcompiler_47=n,b");
}

#[test]
fn the_command_uses_the_wine_of_the_build() {
    let seen = disk(
        &[("/usr/bin/winetricks", b""), ("/p/dist/bin/wine", b"")],
        &["/data/prefix/pfx"],
    );
    assert_eq!(wine("/p", &seen).as_deref(), Some("/p/dist/bin/wine"));
    assert_eq!(
        winetricks(Some("/bin:/usr/bin"), &seen).as_deref(),
        Some("/usr/bin/winetricks")
    );
    let mut shared = Shared::new();
    let command = install(&paths(), &config(), Some("/bin:/usr/bin"), &seen, &mut shared)
        .unwrap()
        .unwrap();
    assert_eq!(command.program, "/usr/bin/winetricks");
    assert_eq!(command.args, ["-q", "d3dcompiler_47"]);
    let env: Vec<(&str, &str)> =
        command.env.iter().map(|(n, v)| (n.as_str(), v.as_str())).collect();
    assert_eq!(
        env,
        [
            ("WINEPREFIX", "/data/prefix/pfx"),
            ("WINESERVER", "/p/dist/bin/wineserver"),
            ("WINE", "/p/dist/bin/wine"),
        ]
    );
    assert_eq!(shared.lines, ["installing native d3dcompiler_47 via winetricks"]);
}

#[test]
fn each_thing_that_is_missing_is_named() {
    let mut shared = Shared::new();
    let mut why = |config: &Config, path: Option<&str>, disk: &Disk| {
        describe(&install(&paths(), config, path, disk, &mut shared).unwrap_err())
    };
    let prefix_only = disk(&[], &["/data/prefix/pfx"]);
    let with_tool = disk(&[("/b/winetricks", b"")], &["/data/prefix/pfx"]);
    assert_eq!(
        why(&config(), Some("/b"), &Disk::empty()),
        "the wine prefix does not exist yet, start Vortex once and then turn this on"
    );
    assert_eq!(
        why(&config(), Some("/b"), &prefix_only),
        "winetricks is not installed, install it and try again"
    );
    assert_eq!(
        why(&config(), None, &with_tool),
        "winetricks is not installed, install it and try again"
    );
    assert_eq!(
        why(&Config::default(), Some("/b"), &with_tool),
        "Proton is not installed yet"
    );
}

#[test]
fn nothing_is_run_where_the_compiler_is_there() {
    let file = compiler(&paths());
    let mut shared = Shared::new();
    let seen = disk(&[(file.as_str(), b"MZ")], &[]);
    assert!(install(&paths(), &config(), None, &seen, &mut shared).unwrap().is_none());
    assert!(shared.lines.is_empty());
}

#[test]
fn a_run_is_judged_by_what_it_says_and_leaves() {
    let file = compiler(&paths());
    let there = disk(&[(file.as_str(), b"MZ")], &[]);
    let mut shared = Shared::new();
    let ran = |success: bool, stderr: &str| Ok(Output { success, stderr: stderr.to_owned() });
    let failed = installed(
        &paths(),
        "/b/winetricks",
        ran(false, "first\nno network é\n---\n\n"),
        &there,
        &mut shared,
    );
    assert_eq!(
        describe(&failed.unwrap_err()),
        "winetricks could not install d3dcompiler_47: no network é"
    );
    let failed = installed(&paths(), "w", ran(false, "--\n"), &there, &mut shared);
    assert_eq!(
        describe(&failed.unwrap_err()),
        "winetricks could not install d3dcompiler_47"
    );
    let failed = installed(&paths(), "w", ran(true, ""), &Disk::empty(), &mut shared);
    assert_eq!(
        describe(&failed.unwrap_err()),
        "winetricks finished but d3dcompiler_47.dll is not in the prefix"
    );
    let failed = installed(&paths(), "w", Err(Error::says("denied")), &there, &mut shared);
    assert_eq!(describe(&failed.unwrap_err()), "cannot run w: denied");
    assert!(shared.lines.is_empty());
    assert!(installed(&paths(), "w", ran(true, ""), &there, &mut shared).is_ok());
    assert_eq!(shared.lines, ["native d3dcompiler_47 is in place"]);
    assert!(judge(true, None, true).is_ok());
}
