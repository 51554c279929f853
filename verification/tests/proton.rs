use vortex_launcher::config::ProtonSource;
use vortex_launcher::disk::{DirSeen, Disk, FileSeen};
use vortex_launcher::error::Error;
use vortex_launcher::json::parse;
use vortex_launcher::net::{Headers, Reply};
use vortex_launcher::paths::Paths;
use vortex_launcher::proton::checksum::{to_hex, Checksum};
use vortex_launcher::proton::glibc::{host_glibc, max_glibc_tag, parse_glibc};
use vortex_launcher::proton::install::{install, Action, Event, Install, Stage};
use vortex_launcher::proton::release::{
    checksum_for, judge_release, judge_tags, latest_release, release_by_tag, release_from,
    release_url, releases, tarball_for_host,
};
use vortex_launcher::proton::{
    available, build_files, builds_in, candidates_below, detect, elf_machine, host_machine,
    is_usable, system_candidates, Build,
};
use vortex_launcher::spelling::spell;
use vortex_launcher::state::Shared;
use vortex_launcher::worker::describe;

const ASSETS: [&str; 4] = [
    "GE-Proton11-3-aarch64.sha512sum",
    "GE-Proton11-3-aarch64.tar.gz",
    "GE-Proton11-3.sha512sum",
    "GE-Proton11-3.tar.gz",
];

fn assets() -> Vec<String> {
    ASSETS.iter().map(|name| name.to_string()).collect()
}

fn paths() -> Paths {
    Paths { data: "/d".into(), config: "/c".into() }
}

fn reply(status: u16, body: &str) -> Result<Reply, Error> {
    Ok(Reply {
        status,
        headers: Headers {
            content_range: None,
            content_length: None,
            etag: None,
            last_modified: None,
        },
        cookies: Vec::new(),
        body: Ok(body.to_owned()),
    })
}

fn elf(machine: u8) -> Vec<u8> {
    let mut bytes = vec![0u8; 64];
    bytes[..4].copy_from_slice(b"\x7fELF");
    bytes[18] = machine;
    bytes
}

/// builds with their proton script, wine for the given machine, and a wineserver with a tag
fn disk(dirs: &[(&str, &[(&str, u8, &str)])]) -> Disk {
    let mut seen = Disk::empty();
    for (dir, builds) in dirs {
        let mut entries = Vec::new();
        for (name, machine, tag) in builds.iter() {
            let path = format!("{dir}/{name}");
            seen.files.push(FileSeen { path: format!("{path}/proton"), bytes: None });
            seen.files.push(FileSeen {
                path: format!("{path}/files/bin/wine"),
                bytes: Some(elf(*machine)),
            });
            seen.files.push(FileSeen {
                path: format!("{path}/files/bin/wineserver"),
                bytes: Some(format!("\0GLIBC_{tag}\0").into_bytes()),
            });
            entries.push(path);
        }
        seen.dirs.push(DirSeen { path: dir.to_string(), entries });
    }
    seen
}

#[test]
fn skips_the_aarch64_tarball_on_x86_64() {
    assert_eq!(
        tarball_for_host(&assets(), "x86_64").as_deref(),
        Some("GE-Proton11-3.tar.gz")
    );
}

#[test]
fn takes_the_aarch64_tarball_on_arm() {
    assert_eq!(
        tarball_for_host(&assets(), "aarch64").as_deref(),
        Some("GE-Proton11-3-aarch64.tar.gz")
    );
}

#[test]
fn checksum_matches_the_tarball() {
    assert_eq!(checksum_for("GE-Proton11-3.tar.gz"), "GE-Proton11-3.sha512sum");
    assert_eq!(
        checksum_for("GE-Proton11-3-aarch64.tar.gz"),
        "GE-Proton11-3-aarch64.sha512sum"
    );
}

#[test]
fn a_suffix_is_dropped_as_often_as_it_stands_there() {
    assert_eq!(checksum_for("a.tar.gz.tar.gz"), "a.sha512sum");
    assert_eq!(checksum_for("a.zip"), "a.zip.sha512sum");
    assert_eq!(tarball_for_host(&vec!["x.zip".into()], "x86_64"), None);
    assert_eq!(
        tarball_for_host(&vec!["x-arm64.tar.gz".into()], "aarch64").as_deref(),
        Some("x-arm64.tar.gz")
    );
}

#[test]
fn reads_the_version_from_getconf_and_ldd_shapes() {
    assert_eq!(parse_glibc("glibc 2.35"), Some((2, 35)));
    assert_eq!(parse_glibc("ldd (Ubuntu GLIBC 2.35-0ubuntu3.8) 2.35"), Some((2, 35)));
    assert_eq!(parse_glibc("nothing here"), None);
}

#[test]
fn orders_minor_versions_as_numbers() {
    assert!(parse_glibc("glibc 2.9") < parse_glibc("glibc 2.35"));
    assert!(parse_glibc("glibc 2.38") < parse_glibc("glibc 3.0"));
}

#[test]
fn takes_the_highest_tag_in_the_file() {
    let bytes = b"\x00GLIBC_2.2.5\x00GLIBC_2.38\x00GLIBC_2.9\x00".to_vec();
    assert_eq!(max_glibc_tag(&bytes), Some((2, 38)));
}

#[test]
fn a_file_without_tags_asks_for_nothing() {
    assert_eq!(max_glibc_tag(&b"GLIBC_".to_vec()), None);
    assert_eq!(max_glibc_tag(&b"GLIBC_PRIVATE GLIBC_2".to_vec()), None);
    assert_eq!(max_glibc_tag(&b"xGLIBC_2.17".to_vec()), Some((2, 17)));
    assert_eq!(max_glibc_tag(&Vec::new()), None);
}

#[test]
fn ldd_is_asked_where_getconf_says_nothing() {
    assert_eq!(host_glibc(Some("glibc 2.40\n"), Some("ldd 2.1")), Some((2, 40)));
    assert_eq!(host_glibc(Some("?"), Some("ldd (GNU) 2.31\nfoo 9.9")), Some((2, 31)));
    assert_eq!(host_glibc(None, Some("")), None);
    assert_eq!(host_glibc(None, None), None);
}

#[test]
fn a_build_with_unreadable_requirements_is_not_hidden() {
    let build = Build {
        name: "GE-Proton9-27".into(),
        dir: "/nowhere".into(),
        source: ProtonSource::Managed,
        needs_glibc: None,
    };
    assert!(build.runs_here(Some((2, 1))));
    assert!(build.runs_here(None));
}

#[test]
fn a_build_runs_where_the_library_is_new_enough() {
    let build = Build {
        name: "b".into(),
        dir: "/b".into(),
        source: ProtonSource::System,
        needs_glibc: Some((2, 38)),
    };
    assert!(build.runs_here(Some((2, 38))));
    assert!(build.runs_here(Some((3, 0))));
    assert!(!build.runs_here(Some((2, 37))));
    assert!(build.runs_here(None));
    let install = build.install();
    assert_eq!((install.name.as_str(), install.dir.as_str()), ("b", "/b"));
    assert_eq!(install.source, ProtonSource::System);
}

#[test]
fn steam_keeps_its_builds_in_known_places() {
    let places = candidates_below(Some("/home/me"));
    assert_eq!(places.len(), 9);
    assert_eq!(places[0], "/home/me/.steam/steam/compatibilitytools.d");
    assert_eq!(places[5], "/home/me/.local/share/Steam/steamapps/common");
    assert_eq!(places[8], "/usr/share/steam/compatibilitytools.d");
    assert_eq!(candidates_below(None), ["/usr/share/steam/compatibilitytools.d"]);
    let found = system_candidates();
    assert!(found.len() == 1 || found.len() == 9);
    if let Some(home) = dirs::home_dir() {
        assert_eq!(found, candidates_below(home.to_str()));
    }
}

#[test]
fn only_a_wine_for_this_processor_is_usable() {
    assert_eq!(host_machine("x86_64"), Some(0x3e));
    assert_eq!(host_machine("aarch64"), Some(0xb7));
    assert_eq!(host_machine("riscv64"), None);
    assert_eq!(elf_machine(&elf(0xb7)), Some(0xb7));
    assert_eq!(elf_machine(&b"\x7fELF".to_vec()), None);
    assert_eq!(elf_machine(&vec![0u8; 64]), None);
    let seen = disk(&[("/p", &[("x", 0x3e, "2.1"), ("a", 0xb7, "2.1")])]);
    assert!(is_usable("/p/x", "x86_64", &seen));
    assert!(!is_usable("/p/a", "x86_64", &seen));
    assert!(is_usable("/p/a", "aarch64", &seen));
    assert!(is_usable("/p/a", "riscv64", &seen));
    assert!(!is_usable("/p/none", "x86_64", &seen));
    assert_eq!(
        builds_in("/p", "x86_64", &seen),
        [("x".to_owned(), "/p/x".to_owned())]
    );
    assert!(builds_in("/q", "x86_64", &seen).is_empty());
    assert_eq!(build_files("/p/x").len(), 7);
}

#[test]
fn builds_are_listed_by_whether_they_run_by_owner_and_by_name() {
    let seen = disk(&[
        ("/d/proton", &[("GE-9", 0x3e, "2.50"), ("GE-8", 0x3e, "2.30"), ("GE-7", 0x3e, "2.30")]),
        ("/s", &[("Z", 0x3e, "2.1"), ("A", 0x3e, "2.1")]),
        ("/t", &[("New", 0x3e, "2.60")]),
    ]);
    let steam = vec!["/s".to_owned(), "/s/".to_owned(), "/t".to_owned()];
    let builds = available(&paths(), &steam, "x86_64", Some((2, 40)), &seen);
    let names: Vec<&str> = builds.iter().map(|b| b.name.as_str()).collect();
    assert_eq!(names, ["GE-7", "GE-8", "A", "Z", "GE-9", "New"]);
}

#[test]
fn a_directory_is_listed_once() {
    let mut seen = disk(&[("/s", &[("A", 0x3e, "2.1")])]);
    let again = DirSeen { path: "/t".into(), entries: vec!["/s//A/".into(), "/s/A".into()] };
    seen.files.push(FileSeen { path: "/s//A/proton".into(), bytes: None });
    seen.dirs.push(again);
    let steam = vec!["/s".to_owned(), "/t".to_owned()];
    assert_eq!(available(&paths(), &steam, "x86_64", None, &seen).len(), 1);
}

#[test]
fn a_build_is_called_as_its_name_can_be_read() {
    let dir = spell(&b"/s/GE\xff".to_vec());
    let mut seen = Disk::empty();
    seen.files.push(FileSeen { path: format!("{dir}/proton"), bytes: None });
    seen.dirs.push(DirSeen { path: "/s".into(), entries: vec![dir.clone()] });
    let found = builds_in("/s", "x86_64", &seen);
    assert_eq!(found, [("GE\u{fffd}".to_owned(), dir.clone())]);
    let build = &available(&paths(), &vec!["/s".to_owned()], "x86_64", None, &seen)[0];
    assert_eq!((build.name.as_str(), &build.dir), ("GE\u{fffd}", &dir));
}

#[test]
fn detection_prefers_a_build_that_runs() {
    let host = Some((2, 40));
    let steam = vec!["/s".to_owned()];
    let name = |seen: &Disk| detect(&paths(), &steam, "x86_64", host, seen).map(|p| p.name);
    let own = disk(&[
        ("/d/proton", &[("GE-1", 0x3e, "2.1"), ("GE-2", 0x3e, "2.2"), ("GE-3", 0x3e, "2.50")]),
        ("/s", &[("Z", 0x3e, "2.1")]),
    ]);
    assert_eq!(name(&own).as_deref(), Some("GE-2"));
    let steams = disk(&[("/d/proton", &[("GE-3", 0x3e, "2.50")]), ("/s", &[("Z", 0x3e, "2.1")])]);
    assert_eq!(name(&steams).as_deref(), Some("Z"));
    let none_runs = disk(&[("/d/proton", &[("G", 0x3e, "2.50")]), ("/s", &[("Z", 0x3e, "2.60")])]);
    assert_eq!(name(&none_runs).as_deref(), Some("G"));
    let only_steam = disk(&[("/s", &[("Y", 0x3e, "2.60"), ("X", 0x3e, "2.60")])]);
    assert_eq!(name(&only_steam).as_deref(), Some("Y"));
    assert_eq!(name(&Disk::empty()), None);
}

const RELEASE: &str = r#"{"tag_name":"GE-Proton11-3","assets":[
    {"name":"GE-Proton11-3-aarch64.tar.gz","browser_download_url":"https://h/a"},
    {"name":"GE-Proton11-3.sha512sum","browser_download_url":"https://h/s"},
    {"name":"GE-Proton11-3.tar.gz","browser_download_url":"https://h/x"}]}"#;

#[test]
fn a_release_tells_where_its_files_are() {
    let release = release_from(&parse(RELEASE).unwrap(), "x86_64").unwrap();
    assert_eq!(release.tag, "GE-Proton11-3");
    assert_eq!(release.tarball, "https://h/x");
    assert_eq!(release.checksum.as_deref(), Some("https://h/s"));
    let release = latest_release(reply(200, RELEASE), "aarch64").unwrap();
    assert_eq!(release.tarball, "https://h/a");
    assert_eq!(release.checksum, None);
    assert_eq!(
        release_url(Some("t")),
        "https://api.github.com/repos/GloriousEggroll/proton-ge-custom/releases/tags/t"
    );
}

#[test]
fn each_release_error_says_why() {
    let why = |text: &str| {
        describe(&release_from(&parse(text).unwrap(), "x86_64").unwrap_err())
    };
    assert_eq!(why("{}"), "GitHub release has no tag");
    assert_eq!(why(r#"{"tag_name":"t"}"#), "GitHub release has no assets");
    assert_eq!(why(r#"{"tag_name":"t","assets":{}}"#), "GitHub release has no assets");
    assert_eq!(
        why(r#"{"tag_name":"t","assets":[]}"#),
        "no GE-Proton build for x86_64 in t"
    );
    assert_eq!(
        why(r#"{"tag_name":"t","assets":[{"name":"a.tar.gz"}]}"#),
        "GitHub asset has no download url"
    );
    let failed = latest_release(reply(200, "x"), "x86_64").unwrap_err();
    assert!(describe(&failed).starts_with("GitHub sent something that is not JSON: "));
    let failed = latest_release(Err(Error::says("down")), "x86_64").unwrap_err();
    assert!(describe(&failed).starts_with("cannot ask GitHub for GE-Proton: cannot reach https:"));
    let failed = release_by_tag("GE-0", reply(404, ""), "x86_64").unwrap_err();
    assert!(describe(&failed).starts_with("cannot find GE-0 on GitHub: https:"));
    assert_eq!(
        describe(&judge_release(Err("bad".into()), "x86_64").unwrap_err()),
        "GitHub sent something that is not JSON: bad"
    );
}

#[test]
fn tags_are_listed_as_they_come() {
    let body = r#"[{"tag_name":"b"},{"name":"x"},{"tag_name":"a"}]"#;
    assert_eq!(releases(reply(200, body)).unwrap(), ["b", "a"]);
    assert_eq!(
        describe(&releases(reply(200, "{}")).unwrap_err()),
        "GitHub sent no release list"
    );
    assert!(describe(&releases(reply(500, "")).unwrap_err())
        .starts_with("cannot ask GitHub for GE-Proton: "));
    assert!(judge_tags(Err("bad".into())).is_err());
}

const ABC: &str = "ddaf35a193617abacc417349ae20413112e6fa4e89a97ea20a9eeee64b55d39a2192992a274fc1a836ba3c23a3feebbd454d4423643ce80e2a9ac94fa54ca49f";

#[test]
fn a_checksum_is_that_of_all_the_bytes() {
    let mut checksum = Checksum::new();
    checksum.update(b"a");
    checksum.update(b"bc");
    assert_eq!(checksum.sha512(), ABC);
    assert_ne!(Checksum::new().sha512(), ABC);
    assert_eq!(to_hex(&vec![0x00, 0x0f, 0xa9, 0xff]), "000fa9ff");
}

fn at_hashing(shared: &mut Shared, told: &str) -> Install {
    let (machine, action) = install(&paths(), "x86_64", None);
    match action {
        Action::Fetch(request) => assert!(request.url.ends_with("/releases/latest")),
        other => panic!("{other:?}"),
    }
    let (machine, action) = machine.next(shared, Event::Replied(reply(200, RELEASE)));
    match action {
        Action::Measure { dir } => assert_eq!(dir, "/d"),
        other => panic!("{other:?}"),
    }
    let (machine, action) = machine.next(shared, Event::Free(Some(2147483648)));
    match action {
        Action::Download { url, file } => {
            assert_eq!(url, "https://h/x");
            assert_eq!(file, "/d/downloads/GE-Proton11-3.tar.gz");
        }
        other => panic!("{other:?}"),
    }
    assert_eq!(shared.status.detail, "connecting");
    let (machine, action) = machine.next(shared, Event::Received(512, 1024));
    assert!(matches!(action, Action::Wait));
    assert_eq!(shared.status.detail, "512 B of 1.0 KiB");
    let (machine, action) = machine.next(shared, Event::Downloaded(Ok(())));
    match action {
        Action::Fetch(request) => assert_eq!(request.url, "https://h/s"),
        other => panic!("{other:?}"),
    }
    assert_eq!(shared.status.detail, "verifying");
    let (machine, action) = machine.next(shared, Event::Replied(reply(200, told)));
    assert!(matches!(action, Action::Hash { .. }));
    machine
}

#[test]
fn a_release_that_matches_its_checksum_is_installed() {
    let mut shared = Shared::new();
    let told = format!(" {}  GE-Proton11-3.tar.gz\n", ABC.to_uppercase());
    let machine = at_hashing(&mut shared, &told);
    let (machine, action) = machine.next(&mut shared, Event::Hashed(Ok(ABC.to_owned())));
    match action {
        Action::Unpack { file, dest, old } => {
            assert_eq!(file, "/d/downloads/GE-Proton11-3.tar.gz");
            assert_eq!(dest, "/d/proton");
            assert_eq!(old, "/d/proton/GE-Proton11-3");
        }
        other => panic!("{other:?}"),
    }
    let (machine, action) = machine.next(&mut shared, Event::Unpacked(Ok(())));
    assert!(matches!(action, Action::Look { .. }));
    let seen = disk(&[("/d/proton", &[("GE-Proton11-3", 0x3e, "2.1")])]);
    let (machine, action) = machine.next(&mut shared, Event::Looked(seen));
    match action {
        Action::Done(install) => {
            assert_eq!(install.name, "GE-Proton11-3");
            assert_eq!(install.dir, "/d/proton/GE-Proton11-3");
            assert_eq!(install.source, ProtonSource::Managed);
        }
        other => panic!("{other:?}"),
    }
    assert!(matches!(machine.stage, Stage::Over));
    assert_eq!(
        shared.lines,
        ["installing proton GE-Proton11-3", "proton checksum ok", "installed GE-Proton11-3"]
    );
}

#[test]
fn a_release_that_does_not_match_is_thrown_away() {
    let mut shared = Shared::new();
    let machine = at_hashing(&mut shared, ABC);
    let (machine, action) = machine.next(&mut shared, Event::Hashed(Ok("00".to_owned())));
    match action {
        Action::Fail { error, discard } => {
            assert_eq!(describe(&error), "Proton download failed its checksum, try again");
            assert_eq!(discard.as_deref(), Some("/d/downloads/GE-Proton11-3.tar.gz"));
        }
        other => panic!("{other:?}"),
    }
    let (_, action) = machine.next(&mut shared, Event::Unpacked(Ok(())));
    assert!(matches!(action, Action::Wait));
}

#[test]
fn too_little_space_stops_the_installation() {
    let mut shared = Shared::new();
    let (machine, _) = install(&paths(), "x86_64", Some("GE-Proton11-3"));
    let (machine, _) = machine.next(&mut shared, Event::Replied(reply(200, RELEASE)));
    let (_, action) = machine.next(&mut shared, Event::Free(Some(2147483647)));
    match action {
        Action::Fail { error, discard: None } => assert_eq!(
            describe(&error),
            "not enough disk space for Proton: 2.0 GiB free, about 2.0 GiB needed"
        ),
        other => panic!("{other:?}"),
    }
}

#[test]
fn a_checksum_that_cannot_be_had_does_not_block() {
    let mut shared = Shared::new();
    let (machine, _) = install(&paths(), "x86_64", None);
    let (machine, _) = machine.next(&mut shared, Event::Replied(reply(200, RELEASE)));
    let (machine, _) = machine.next(&mut shared, Event::Free(None));
    let (machine, _) = machine.next(&mut shared, Event::Downloaded(Ok(())));
    let (machine, action) = machine.next(&mut shared, Event::Replied(reply(404, "")));
    assert!(matches!(action, Action::Unpack { .. }));
    assert_eq!(
        shared.lines[1],
        "could not fetch checksum: https://h/s answered HTTP 404"
    );
    let (machine, _) = machine.next(&mut shared, Event::Unpacked(Ok(())));
    let renamed = disk(&[("/d/proton", &[("B", 0x3e, "2.1"), ("C", 0x3e, "2.1"), ("A", 0x3e, "2.1")])]);
    match machine.next(&mut shared, Event::Looked(renamed)).1 {
        Action::Done(install) => assert_eq!(install.dir, "/d/proton/C"),
        other => panic!("{other:?}"),
    }
}

#[test]
fn an_archive_without_a_build_is_an_error() {
    let mut shared = Shared::new();
    let machine = at_hashing(&mut shared, ABC);
    let (machine, _) = machine.next(&mut shared, Event::Hashed(Ok(ABC.to_owned())));
    let (machine, _) = machine.next(&mut shared, Event::Unpacked(Ok(())));
    match machine.next(&mut shared, Event::Looked(Disk::empty())).1 {
        Action::Fail { error, .. } => assert_eq!(
            describe(&error),
            "the Proton archive did not contain a proton script"
        ),
        other => panic!("{other:?}"),
    }
}
