//! Finding an existing Proton, or fetching GE-Proton.
use vstd::prelude::*;

pub mod checksum;
pub mod glibc;
pub mod install;
pub mod laws;
pub mod release;

use crate::config::{inside, ProtonInstall, ProtonInstallView, ProtonSource};
use crate::disk::{find_first_file, first_file, Disk};
use crate::proton::glibc::{is_not_newer, max_glibc_tag, newest_tag, not_newer};
use crate::paths::{file_name, home_dir, join, joined, name_in, same_path, same_place, Paths};
use crate::sort::{arranged, ranked_as, sort, sorting_is_stable, sorting_keeps_the_items, stably_sorted, views, Ranked};
use crate::spelling::{legible, shown};
use crate::text::{
    borrowed, in_order, in_order_antisymmetric, in_order_total, in_order_transitive, ordered,
    same_text, texts,
};

verus! {

broadcast use vstd::string::group_string_axioms;

/// Where Steam keeps Proton builds below `base`.
pub open spec fn steam_dirs(base: Seq<char>) -> Seq<Seq<char>> {
    seq![joined(base, "compatibilitytools.d"@), joined(base, "steamapps/common"@)]
}

/// Where Steam may keep Proton builds, for a user whose home directory is `home`.
pub open spec fn steam_places(home: Option<Seq<char>>) -> Seq<Seq<char>> {
    let shared = seq!["/usr/share/steam/compatibilitytools.d"@];
    match home {
        None => shared,
        Some(home) => steam_dirs(joined(home, ".steam/steam"@)) + steam_dirs(
            joined(home, ".steam/root"@),
        ) + steam_dirs(joined(home, ".local/share/Steam"@)) + steam_dirs(
            joined(home, ".var/app/com.valvesoftware.Steam/data/Steam"@),
        ) + shared,
    }
}

fn push_steam_dirs(dirs: &mut Vec<String>, home: &str, base: &str)
    ensures
        texts(final(dirs)@) == texts(old(dirs)@) + steam_dirs(joined(home@, base@)),
{
    let base = join(home, base);
    dirs.push(join(base.as_str(), "compatibilitytools.d"));
    dirs.push(join(base.as_str(), "steamapps/common"));
    assert(texts(dirs@) =~= texts(old(dirs)@) + steam_dirs(base@));
}

/// Where Steam may keep Proton builds, for a user whose home directory is `home`.
pub fn candidates_below(home: Option<&str>) -> (dirs: Vec<String>)
    ensures
        texts(dirs@) == steam_places(borrowed(home)),
{
    let mut dirs: Vec<String> = Vec::new();
    assert(texts(dirs@) =~= seq![]);
    if let Some(home) = home {
        push_steam_dirs(&mut dirs, home, ".steam/steam");
        push_steam_dirs(&mut dirs, home, ".steam/root");
        push_steam_dirs(&mut dirs, home, ".local/share/Steam");
        push_steam_dirs(&mut dirs, home, ".var/app/com.valvesoftware.Steam/data/Steam");
    }
    let ghost before = texts(dirs@);
    dirs.push("/usr/share/steam/compatibilitytools.d".to_owned());
    assert(texts(dirs@) =~= before + seq!["/usr/share/steam/compatibilitytools.d"@]);
    assert(texts(dirs@) =~= steam_places(borrowed(home)));
    dirs
}

/// Where Steam may keep Proton builds.
pub fn system_candidates() -> (dirs: Vec<String>)
    ensures
        exists|home: Option<Seq<char>>| texts(dirs@) == #[trigger] steam_places(home),
{
    let home = home_dir();
    candidates_below(
        match &home {
            Some(home) => Some(home.as_str()),
            None => None,
        },
    )
}

/// The ELF machine number of a host of this architecture, so that an aarch64 build never gets
/// picked on x86_64.
pub open spec fn machine_of(arch: Seq<char>) -> Option<u16> {
    if arch == "x86_64"@ {
        Some(0x3e)
    } else if arch == "aarch64"@ {
        Some(0xb7)
    } else {
        None
    }
}

/// The ELF machine number of a host of this architecture.
pub fn host_machine(arch: &str) -> (machine: Option<u16>)
    ensures
        machine == machine_of(arch@),
{
    if same_text(arch, "x86_64") {
        Some(0x3e)
    } else if same_text(arch, "aarch64") {
        Some(0xb7)
    } else {
        None
    }
}

/// The machine number in an ELF header, `None` where the bytes are none.
pub open spec fn machine_in(bytes: Seq<u8>) -> Option<u16> {
    if bytes.len() >= 20 && bytes[0] == 0x7f && bytes[1] == 0x45 && bytes[2] == 0x4c && bytes[3]
        == 0x46 {
        Some((bytes[18] + 256 * bytes[19]) as u16)
    } else {
        None
    }
}

/// The machine number in an ELF header, `None` where the bytes are none.
pub fn elf_machine(bytes: &Vec<u8>) -> (machine: Option<u16>)
    ensures
        machine == machine_in(bytes@),
{
    if bytes.len() >= 20 && bytes[0] == 0x7f && bytes[1] == 0x45 && bytes[2] == 0x4c && bytes[3]
        == 0x46 {
        Some(bytes[18] as u16 + 256 * bytes[19] as u16)
    } else {
        None
    }
}

/// The programs of a Proton build that tell which processor it is for.
pub open spec fn wine_programs(dir: Seq<char>) -> Seq<Seq<char>> {
    seq![
        joined(dir, "files/bin/wine"@),
        joined(dir, "files/bin/wine64"@),
        joined(dir, "files/bin/wineserver"@),
    ]
}

/// The programs of a Proton build that tell which processor it is for.
pub fn wine_candidates(dir: &str) -> (paths: Vec<String>)
    ensures
        texts(paths@) == wine_programs(dir@),
{
    let mut paths: Vec<String> = Vec::new();
    paths.push(join(dir, "files/bin/wine"));
    paths.push(join(dir, "files/bin/wine64"));
    paths.push(join(dir, "files/bin/wineserver"));
    assert(texts(paths@) =~= wine_programs(dir@));
    paths
}

/// Whether `dir` holds a Proton build whose wine runs on a host of this architecture. Where that
/// cannot be told it is taken for granted.
pub open spec fn usable(dir: Seq<char>, arch: Seq<char>, disk: Disk) -> bool {
    &&& disk.file(joined(dir, "proton"@))
    &&& match (machine_of(arch), first_file(disk, wine_programs(dir), 0)) {
        (Some(machine), Some(path)) => match disk.content(path) {
            Some(bytes) => machine_in(bytes) is None || machine_in(bytes) == Some(machine),
            None => true,
        },
        _ => true,
    }
}

/// Whether `dir` holds a Proton build whose wine runs on a host of this architecture.
pub fn is_usable(dir: &str, arch: &str, disk: &Disk) -> (b: bool)
    ensures
        b == usable(dir@, arch@, *disk),
{
    if !disk.is_file(join(dir, "proton").as_str()) {
        return false;
    }
    let machine: u16 = match host_machine(arch) {
        Some(machine) => machine,
        None => {
            return true;
        },
    };
    match find_first_file(disk, &wine_candidates(dir)) {
        Some(path) => match disk.read(path.as_str()) {
            Some(bytes) => match elf_machine(bytes) {
                Some(found) => found == machine,
                None => true,
            },
            None => true,
        },
        None => true,
    }
}

/// The files of a build that its usefulness and its needs are judged by.
pub open spec fn telling_files(dir: Seq<char>) -> Seq<Seq<char>> {
    seq![joined(dir, "proton"@)] + wine_programs(dir) + unix_programs(dir)
}

/// The files of a build that its usefulness and its needs are judged by.
pub fn build_files(dir: &str) -> (files: Vec<String>)
    ensures
        texts(files@) == telling_files(dir@),
{
    let mut files: Vec<String> = Vec::new();
    files.push(join(dir, "proton"));
    files.append(&mut wine_candidates(dir));
    files.append(&mut unix_candidates(dir));
    assert(texts(files@) =~= telling_files(dir@));
    files
}

/// The names and directories of the builds among the entries from the `i`th on that a host of this
/// architecture can use.
pub open spec fn usable_entries(
    entries: Seq<Seq<char>>,
    arch: Seq<char>,
    disk: Disk,
    i: int,
) -> Seq<(Seq<char>, Seq<char>)>
    decreases entries.len() - i,
{
    if i >= entries.len() {
        seq![]
    } else {
        let rest = usable_entries(entries, arch, disk, i + 1);
        match name_in(entries[i]) {
            Some(name) => if usable(entries[i], arch, disk) {
                seq![(legible(name), entries[i])] + rest
            } else {
                rest
            },
            None => rest,
        }
    }
}

/// The names and directories in a list.
pub open spec fn named_dirs(list: Seq<(String, String)>) -> Seq<(Seq<char>, Seq<char>)> {
    Seq::new(list.len(), |i: int| (list[i].0@, list[i].1@))
}

/// The names and directories of the builds in `dir` that a host of this architecture can use.
pub fn builds_in(dir: &str, arch: &str, disk: &Disk) -> (builds: Vec<(String, String)>)
    ensures
        named_dirs(builds@) == usable_entries(disk.listing(dir@), arch@, *disk, 0),
{
    let mut builds: Vec<(String, String)> = Vec::new();
    let ghost all = disk.listing(dir@);
    assert(named_dirs(builds@) =~= seq![]);
    let entries = match disk.entries(dir) {
        Some(entries) => entries,
        None => {
            return builds;
        },
    };
    let mut i: usize = 0;
    assert(named_dirs(builds@) + usable_entries(all, arch@, *disk, 0) =~= usable_entries(
        all,
        arch@,
        *disk,
        0,
    ));
    while i < entries.len()
        invariant
            i <= entries.len(),
            all == texts(entries@),
            named_dirs(builds@) + usable_entries(all, arch@, *disk, i as int) == usable_entries(
                all,
                arch@,
                *disk,
                0,
            ),
        decreases entries.len() - i,
    {
        let ghost before = named_dirs(builds@);
        let path = entries[i].as_str();
        assert(all[i as int] == path@);
        if is_usable(path, arch, disk) {
            if let Some(name) = file_name(path) {
                let name = shown(name.as_str());
                builds.push((name, path.to_owned()));
                assert(named_dirs(builds@) =~= before.push((name@, path@)));
                assert(before.push((name@, path@)) + usable_entries(all, arch@, *disk, i + 1)
                    =~= before + (seq![(name@, path@)] + usable_entries(all, arch@, *disk, i + 1)));
            }
        }
        i += 1;
    }
    assert(named_dirs(builds@) + usable_entries(all, arch@, *disk, i as int) =~= named_dirs(
        builds@,
    ));
    builds
}

/// A Proton build on disk.
#[derive(Debug)]
pub struct Build {
    pub name: String,
    pub dir: String,
    pub source: ProtonSource,
    /// the newest C library version the build asks for, `None` where it cannot be read
    pub needs_glibc: Option<(u32, u32)>,
}

/// What a [`Build`] says.
pub struct BuildView {
    pub name: Seq<char>,
    pub dir: Seq<char>,
    pub source: ProtonSource,
    pub needs_glibc: Option<(u32, u32)>,
}

impl View for Build {
    type V = BuildView;

    open spec fn view(&self) -> BuildView {
        BuildView {
            name: self.name@,
            dir: self.dir@,
            source: self.source,
            needs_glibc: self.needs_glibc,
        }
    }
}

impl Clone for Build {
    fn clone(&self) -> (copy: Build)
        ensures
            copy@ == self@,
    {
        Build {
            name: self.name.clone(),
            dir: self.dir.clone(),
            source: self.source,
            needs_glibc: self.needs_glibc,
        }
    }
}

impl BuildView {
    /// Whether this build can be loaded on a host with this C library. Where either is not known
    /// it counts as fine: a guess is no reason to hide a build.
    pub open spec fn runs(self, host: Option<(u32, u32)>) -> bool {
        match (self.needs_glibc, host) {
            (Some(needs), Some(host)) => not_newer(needs, host),
            _ => true,
        }
    }

    /// The build as it is put to use.
    pub open spec fn installed(self) -> ProtonInstallView {
        ProtonInstallView { name: self.name, dir: self.dir, source: self.source }
    }
}

impl Build {
    /// Whether this build can be loaded on a host with this C library.
    pub fn runs_here(&self, host: Option<(u32, u32)>) -> (b: bool)
        ensures
            b == self@.runs(host),
    {
        match (self.needs_glibc, host) {
            (Some(needs), Some(host)) => is_not_newer(needs, host),
            _ => true,
        }
    }

    /// The build as it is put to use.
    pub fn install(&self) -> (install: ProtonInstall)
        ensures
            install@ == self@.installed(),
    {
        ProtonInstall { name: self.name.clone(), dir: self.dir.clone(), source: self.source }
    }
}

/// The programs of a build that break first on an old host.
pub open spec fn unix_programs(dir: Seq<char>) -> Seq<Seq<char>> {
    seq![
        joined(dir, "files/lib/wine/x86_64-unix/ntdll.so"@),
        joined(dir, "files/lib64/wine/x86_64-unix/ntdll.so"@),
        joined(dir, "files/bin/wineserver"@),
    ]
}

/// The programs of a build that break first on an old host.
pub fn unix_candidates(dir: &str) -> (paths: Vec<String>)
    ensures
        texts(paths@) == unix_programs(dir@),
{
    let mut paths: Vec<String> = Vec::new();
    paths.push(join(dir, "files/lib/wine/x86_64-unix/ntdll.so"));
    paths.push(join(dir, "files/lib64/wine/x86_64-unix/ntdll.so"));
    paths.push(join(dir, "files/bin/wineserver"));
    assert(texts(paths@) =~= unix_programs(dir@));
    paths
}

/// The newest C library version that the build in `dir` asks for.
pub open spec fn needed_by(dir: Seq<char>, disk: Disk) -> Option<(u32, u32)> {
    match first_file(disk, unix_programs(dir), 0) {
        Some(path) => match disk.content(path) {
            Some(bytes) => newest_tag(bytes, 0),
            None => None,
        },
        None => None,
    }
}

/// The newest C library version that the build in `dir` asks for.
pub fn glibc_needed_by(dir: &str, disk: &Disk) -> (version: Option<(u32, u32)>)
    ensures
        version == needed_by(dir@, *disk),
{
    match find_first_file(disk, &unix_candidates(dir)) {
        Some(path) => match disk.read(path.as_str()) {
            Some(bytes) => max_glibc_tag(bytes),
            None => None,
        },
        None => None,
    }
}

/// The build called and placed so.
pub open spec fn build_at(named: (Seq<char>, Seq<char>), source: ProtonSource, disk: Disk) -> BuildView {
    BuildView { name: named.0, dir: named.1, source, needs_glibc: needed_by(named.1, disk) }
}

/// The builds that Steam has in the directories from the `i`th on.
pub open spec fn steam_builds(
    dirs: Seq<Seq<char>>,
    arch: Seq<char>,
    disk: Disk,
    i: int,
) -> Seq<(Seq<char>, Seq<char>)>
    decreases dirs.len() - i,
{
    if i >= dirs.len() {
        seq![]
    } else {
        usable_entries(disk.listing(dirs[i]), arch, disk, 0) + steam_builds(dirs, arch, disk, i + 1)
    }
}

/// All builds that were found: the launcher's own, and then Steam's.
pub open spec fn all_builds(
    own: Seq<char>,
    steam: Seq<Seq<char>>,
    arch: Seq<char>,
    disk: Disk,
) -> Seq<BuildView> {
    usable_entries(disk.listing(own), arch, disk, 0).map_values(
        |named: (Seq<char>, Seq<char>)| build_at(named, ProtonSource::Managed, disk),
    ) + steam_builds(steam, arch, disk, 0).map_values(
        |named: (Seq<char>, Seq<char>)| build_at(named, ProtonSource::System, disk),
    )
}

/// Whether the `i`th build lies elsewhere than all before it.
pub open spec fn first_there(builds: Seq<BuildView>, i: int) -> bool {
    forall|j: int| 0 <= j < i ==> !same_place((#[trigger] builds[j]).dir, builds[i].dir)
}

/// The builds from the `i`th on, each directory once.
pub open spec fn once_each(builds: Seq<BuildView>, i: int) -> Seq<BuildView>
    decreases builds.len() - i,
{
    if i >= builds.len() {
        seq![]
    } else if first_there(builds, i) {
        seq![builds[i]] + once_each(builds, i + 1)
    } else {
        once_each(builds, i + 1)
    }
}

fn push_builds(
    builds: &mut Vec<Build>,
    dir: &str,
    source: ProtonSource,
    arch: &str,
    disk: &Disk,
)
    ensures
        views(final(builds)@) == views(old(builds)@) + usable_entries(
            disk.listing(dir@),
            arch@,
            *disk,
            0,
        ).map_values(|named: (Seq<char>, Seq<char>)| build_at(named, source, *disk)),
{
    let found = builds_in(dir, arch, disk);
    let ghost named = named_dirs(found@);
    let ghost f = |named: (Seq<char>, Seq<char>)| build_at(named, source, *disk);
    let ghost before = views(builds@);
    let mut i: usize = 0;
    assert(named.take(0).map_values(f) =~= seq![]);
    assert(views(builds@) =~= before + named.take(0).map_values(f));
    while i < found.len()
        invariant
            i <= found.len(),
            named == named_dirs(found@),
            f == |named: (Seq<char>, Seq<char>)| build_at(named, source, *disk),
            views(builds@) == before + named.take(i as int).map_values(f),
        decreases found.len() - i,
    {
        let ghost so_far = views(builds@);
        let build = Build {
            needs_glibc: glibc_needed_by(found[i].1.as_str(), disk),
            name: found[i].0.clone(),
            dir: found[i].1.clone(),
            source,
        };
        assert(named[i as int] == (found@[i as int].0@, found@[i as int].1@));
        builds.push(build);
        assert(views(builds@) =~= so_far.push(build@));
        assert(named.take(i + 1) =~= named.take(i as int).push(named[i as int]));
        assert(named.take(i + 1).map_values(f) =~= named.take(i as int).map_values(f).push(
            f(named[i as int]),
        ));
        i += 1;
        assert(views(builds@) =~= before + named.take(i as int).map_values(f));
    }
    assert(named.take(i as int) =~= named);
}

fn find_all(own: &str, steam: &Vec<String>, arch: &str, disk: &Disk) -> (builds: Vec<Build>)
    ensures
        views(builds@) == all_builds(own@, texts(steam@), arch@, *disk),
{
    let mut builds: Vec<Build> = Vec::new();
    push_builds(&mut builds, own, ProtonSource::Managed, arch, disk);
    let ghost dirs = texts(steam@);
    let ghost f = |named: (Seq<char>, Seq<char>)| build_at(named, ProtonSource::System, *disk);
    let ghost managed = views(builds@);
    assert(managed =~= usable_entries(disk.listing(own@), arch@, *disk, 0).map_values(
        |named: (Seq<char>, Seq<char>)| build_at(named, ProtonSource::Managed, *disk),
    ));
    let mut i: usize = 0;
    while i < steam.len()
        invariant
            i <= steam.len(),
            dirs == texts(steam@),
            f == |named: (Seq<char>, Seq<char>)| build_at(named, ProtonSource::System, *disk),
            views(builds@) + steam_builds(dirs, arch@, *disk, i as int).map_values(f) == managed
                + steam_builds(dirs, arch@, *disk, 0).map_values(f),
        decreases steam.len() - i,
    {
        let ghost before = views(builds@);
        let ghost here = usable_entries(disk.listing(dirs[i as int]), arch@, *disk, 0);
        let ghost rest = steam_builds(dirs, arch@, *disk, i + 1);
        assert(dirs[i as int] == steam@[i as int]@);
        push_builds(&mut builds, steam[i].as_str(), ProtonSource::System, arch, disk);
        assert(steam_builds(dirs, arch@, *disk, i as int) =~= here + rest);
        assert((here + rest).map_values(f) =~= here.map_values(f) + rest.map_values(f));
        assert(views(builds@) + rest.map_values(f) =~= before + (here.map_values(f)
            + rest.map_values(f)));
        i += 1;
    }
    assert(steam_builds(dirs, arch@, *disk, i as int).map_values(f) =~= seq![]);
    assert(views(builds@) =~= all_builds(own@, texts(steam@), arch@, *disk));
    builds
}

fn is_first_there(builds: &Vec<Build>, i: usize) -> (b: bool)
    requires
        i < builds.len(),
    ensures
        b == first_there(views(builds@), i as int),
{
    let ghost all = views(builds@);
    let mut j: usize = 0;
    while j < i
        invariant
            j <= i < builds.len(),
            all == views(builds@),
            forall|k: int| 0 <= k < j ==> !same_place((#[trigger] all[k]).dir, all[i as int].dir),
        decreases i - j,
    {
        assert(all[j as int] == builds@[j as int]@ && all[i as int] == builds@[i as int]@);
        if same_path(builds[j].dir.as_str(), builds[i].dir.as_str()) {
            return false;
        }
        j += 1;
    }
    true
}

/// The builds that were found, each directory once: the launcher's own, and then Steam's.
pub open spec fn found_builds(
    own: Seq<char>,
    steam: Seq<Seq<char>>,
    arch: Seq<char>,
    disk: Disk,
) -> Seq<BuildView> {
    once_each(all_builds(own, steam, arch, disk), 0)
}

fn find_builds(paths: &Paths, steam: &Vec<String>, arch: &str, disk: &Disk) -> (builds: Vec<Build>)
    ensures
        views(builds@) == found_builds(
            joined(paths.data@, "proton"@),
            texts(steam@),
            arch@,
            *disk,
        ),
{
    let found = find_all(paths.proton().as_str(), steam, arch, disk);
    let ghost all = views(found@);
    let mut builds: Vec<Build> = Vec::new();
    let mut i: usize = 0;
    assert(views(builds@) + once_each(all, 0) =~= once_each(all, 0));
    while i < found.len()
        invariant
            i <= found.len(),
            all == views(found@),
            views(builds@) + once_each(all, i as int) == once_each(all, 0),
        decreases found.len() - i,
    {
        let ghost before = views(builds@);
        assert(all[i as int] == found@[i as int]@);
        if is_first_there(&found, i) {
            builds.push(found[i].clone());
            assert(views(builds@) =~= before.push(all[i as int]));
            assert(before.push(all[i as int]) + once_each(all, i + 1) =~= before + (seq![
                all[i as int],
            ] + once_each(all, i + 1)));
        }
        i += 1;
    }
    assert(views(builds@) + once_each(all, i as int) =~= views(builds@));
    builds
}

/// A build, and whether this host can load it.
#[derive(Debug)]
pub struct Placed {
    pub runs: bool,
    pub build: Build,
}

/// What a [`Placed`] says.
pub struct PlacedView {
    pub runs: bool,
    pub build: BuildView,
}

impl View for Placed {
    type V = PlacedView;

    open spec fn view(&self) -> PlacedView {
        PlacedView { runs: self.runs, build: self.build@ }
    }
}

impl Ranked for Placed {
    /// Those that run come first, then the launcher's own, then it goes by name.
    open spec fn precedes(a: PlacedView, b: PlacedView) -> bool {
        if a.runs != b.runs {
            a.runs
        } else if a.build.source != b.build.source {
            a.build.source is Managed
        } else {
            in_order(a.build.name, b.build.name)
        }
    }

    proof fn total(a: PlacedView, b: PlacedView) {
        in_order_total(a.build.name, b.build.name);
    }

    proof fn transitive(a: PlacedView, b: PlacedView, c: PlacedView) {
        if a.runs == b.runs && b.runs == c.runs && a.build.source == b.build.source
            && b.build.source == c.build.source {
            in_order_transitive(a.build.name, b.build.name, c.build.name);
        }
    }

    fn may_precede(&self, other: &Placed) -> (b: bool) {
        if self.runs != other.runs {
            self.runs
        } else if self.build.source != other.build.source {
            self.build.source == ProtonSource::Managed
        } else {
            ordered(self.build.name.as_str(), other.build.name.as_str())
        }
    }
}

/// Each build with whether a host with this C library can load it.
pub open spec fn placed(builds: Seq<BuildView>, host: Option<(u32, u32)>) -> Seq<PlacedView> {
    Seq::new(builds.len(), |i: int| PlacedView { runs: builds[i].runs(host), build: builds[i] })
}

/// Every build the launcher could use: those that this host can load first, then its own, then by
/// name.
pub fn available(
    paths: &Paths,
    steam: &Vec<String>,
    arch: &str,
    host: Option<(u32, u32)>,
    disk: &Disk,
) -> (builds: Vec<Build>)
    ensures
        placed(views(builds@), host) == arranged::<Placed>(
            placed(
                found_builds(joined(paths.data@, "proton"@), texts(steam@), arch@, *disk),
                host,
            ),
        ),
{
    let mut found = find_builds(paths, steam, arch, disk);
    let ghost given = views(found@);
    let mut list: Vec<Placed> = Vec::new();
    assert(views(list@) =~= placed(given.take(0), host));
    assert(views(found@) =~= given.skip(0));
    while found.len() > 0
        invariant
            list@.len() + found@.len() == given.len(),
            views(found@) == given.skip(list@.len() as int),
            views(list@) == placed(given.take(list@.len() as int), host),
        decreases found.len(),
    {
        let ghost n = list@.len() as int;
        let ghost left = found@;
        let ghost before = views(list@);
        assert(views(left)[0] == given[n]);
        let build = found.remove(0);
        assert forall|j: int| 0 <= j < found@.len() implies views(found@)[j] == given.skip(n + 1)[j] by {
            assert(views(left)[j + 1] == given.skip(n)[j + 1]);
        }
        assert(views(found@) =~= given.skip(n + 1));
        list.push(Placed { runs: build.runs_here(host), build });
        assert(views(list@) =~= before.push(PlacedView { runs: given[n].runs(host), build: given[n] }));
        assert(given.take(n + 1) =~= given.take(n).push(given[n]));
        assert(views(list@) =~= placed(given.take(n + 1), host));
    }
    assert(given.take(list@.len() as int) =~= given);
    let ghost unsorted = views(list@);
    let mut sorted = sort(list);
    let ghost order = views(sorted@);
    proof {
        sorting_is_stable::<Placed>(unsorted);
    }
    assert forall|i: int| 0 <= i < order.len() implies (#[trigger] order[i]).runs
        == order[i].build.runs(host) by {
        sorting_keeps_the_items::<Placed>(order, unsorted, order[i]);
        assert(order.contains(order[i]));
    }
    let mut builds: Vec<Build> = Vec::new();
    assert(order.skip(0) =~= order);
    while sorted.len() > 0
        invariant
            builds@.len() + sorted@.len() == order.len(),
            views(sorted@) == order.skip(builds@.len() as int),
            forall|i: int| 0 <= i < builds@.len() ==> #[trigger] builds@[i]@ == order[i].build,
        decreases sorted.len(),
    {
        let ghost n = builds@.len() as int;
        let ghost left = sorted@;
        assert(views(left)[0] == order[n]);
        let item = sorted.remove(0);
        assert forall|j: int| 0 <= j < sorted@.len() implies views(sorted@)[j] == order.skip(
            n + 1,
        )[j] by {
            assert(views(left)[j + 1] == order.skip(n)[j + 1]);
        }
        assert(views(sorted@) =~= order.skip(n + 1));
        builds.push(item.build);
    }
    assert(placed(views(builds@), host) =~= order) by {
        assert forall|i: int| 0 <= i < order.len() implies placed(views(builds@), host)[i]
            == order[i] by {
            assert(builds@[i]@ == order[i].build);
            assert(order[i].runs == order[i].build.runs(host));
        }
    }
    builds
}

/// The build with the highest name, which is the newest in practice, among the first `n` that are
/// from `source` and that this host can load, or cannot; the last of those with that name.
pub open spec fn newest(
    builds: Seq<BuildView>,
    source: ProtonSource,
    runs: bool,
    host: Option<(u32, u32)>,
    n: int,
) -> Option<BuildView>
    decreases n,
{
    if n <= 0 {
        None
    } else {
        let best = newest(builds, source, runs, host, n - 1);
        let build = builds[n - 1];
        if build.source == source && build.runs(host) == runs && match best {
            Some(best) => in_order(best.name, build.name),
            None => true,
        } {
            Some(build)
        } else {
            best
        }
    }
}

/// The build to use where none is configured: the newest of the launcher's own, or else the newest
/// of Steam's. One that this host cannot load is only picked where there is nothing else, so that
/// the error at least names a Proton.
pub open spec fn preferred(builds: Seq<BuildView>, host: Option<(u32, u32)>) -> Option<BuildView> {
    let n = builds.len() as int;
    match newest(builds, ProtonSource::Managed, true, host, n) {
        Some(build) => Some(build),
        None => match newest(builds, ProtonSource::System, true, host, n) {
            Some(build) => Some(build),
            None => match newest(builds, ProtonSource::Managed, false, host, n) {
                Some(build) => Some(build),
                None => newest(builds, ProtonSource::System, false, host, n),
            },
        },
    }
}

fn pick(builds: &Vec<Build>, source: ProtonSource, runs: bool, host: Option<(u32, u32)>) -> (build:
    Option<&Build>)
    ensures
        match build {
            Some(build) => newest(views(builds@), source, runs, host, builds@.len() as int) == Some(
                build@,
            ),
            None => newest(views(builds@), source, runs, host, builds@.len() as int) is None,
        },
{
    let ghost all = views(builds@);
    let mut best: Option<usize> = None;
    let mut i: usize = 0;
    while i < builds.len()
        invariant
            i <= builds.len(),
            all == views(builds@),
            match best {
                Some(b) => b < i && newest(all, source, runs, host, i as int) == Some(
                    all[b as int],
                ),
                None => newest(all, source, runs, host, i as int) is None,
            },
        decreases builds.len() - i,
    {
        assert(all[i as int] == builds@[i as int]@);
        if builds[i].source == source && builds[i].runs_here(host) == runs {
            match best {
                Some(b) => {
                    assert(all[b as int] == builds@[b as int]@);
                    if ordered(builds[b].name.as_str(), builds[i].name.as_str()) {
                        best = Some(i);
                    }
                },
                None => {
                    best = Some(i);
                },
            }
        }
        i += 1;
    }
    match best {
        Some(b) => Some(&builds[b]),
        None => None,
    }
}

/// The build to use where none is configured.
pub fn detect(
    paths: &Paths,
    steam: &Vec<String>,
    arch: &str,
    host: Option<(u32, u32)>,
    disk: &Disk,
) -> (found: Option<ProtonInstall>)
    ensures
        inside(found) == (match preferred(
            found_builds(joined(paths.data@, "proton"@), texts(steam@), arch@, *disk),
            host,
        ) {
            Some(build) => Some(build.installed()),
            None => None,
        }),
{
    let builds = find_builds(paths, steam, arch, disk);
    if let Some(build) = pick(&builds, ProtonSource::Managed, true, host) {
        return Some(build.install());
    }
    if let Some(build) = pick(&builds, ProtonSource::System, true, host) {
        return Some(build.install());
    }
    if let Some(build) = pick(&builds, ProtonSource::Managed, false, host) {
        return Some(build.install());
    }
    match pick(&builds, ProtonSource::System, false, host) {
        Some(build) => Some(build.install()),
        None => None,
    }
}

/// The newest build of a kind is one of them, and none of them has a higher name.
pub proof fn the_newest_has_the_highest_name(
    builds: Seq<BuildView>,
    source: ProtonSource,
    runs: bool,
    host: Option<(u32, u32)>,
    n: int,
)
    requires
        0 <= n <= builds.len(),
    ensures
        match newest(builds, source, runs, host, n) {
            Some(best) => {
                &&& builds.contains(best)
                &&& best.source == source && best.runs(host) == runs
                &&& forall|i: int|
                    0 <= i < n && (#[trigger] builds[i]).source == source && builds[i].runs(host)
                        == runs ==> in_order(builds[i].name, best.name)
            },
            None => forall|i: int|
                0 <= i < n ==> (#[trigger] builds[i]).source != source || builds[i].runs(host)
                    != runs,
        },
    decreases n,
{
    if n > 0 {
        the_newest_has_the_highest_name(builds, source, runs, host, n - 1);
        let build = builds[n - 1];
        let best = newest(builds, source, runs, host, n - 1);
        if build.source == source && build.runs(host) == runs {
            in_order_total(build.name, build.name);
            match best {
                Some(best) => {
                    in_order_total(best.name, build.name);
                    if in_order(best.name, build.name) {
                        assert forall|i: int|
                            0 <= i < n && (#[trigger] builds[i]).source == source && builds[i].runs(
                                host,
                            ) == runs implies in_order(builds[i].name, build.name) by {
                            if i < n - 1 {
                                in_order_transitive(builds[i].name, best.name, build.name);
                            }
                        }
                    }
                },
                None => {},
            }
        }
    }
}

/// Where a build that this host can load is there, one that it cannot load is not picked; and
/// where any build is there, one is picked.
pub proof fn a_build_that_runs_is_preferred(builds: Seq<BuildView>, host: Option<(u32, u32)>, i: int)
    requires
        0 <= i < builds.len(),
    ensures
        preferred(builds, host) matches Some(build) && builds.contains(build),
        builds[i].runs(host) ==> preferred(builds, host)->0.runs(host),
        builds[i].runs(host) && builds[i].source is Managed ==> preferred(builds, host)->0.source
            is Managed,
{
    let n = builds.len() as int;
    the_newest_has_the_highest_name(builds, ProtonSource::Managed, true, host, n);
    the_newest_has_the_highest_name(builds, ProtonSource::System, true, host, n);
    the_newest_has_the_highest_name(builds, ProtonSource::Managed, false, host, n);
    the_newest_has_the_highest_name(builds, ProtonSource::System, false, host, n);
    assert(builds[i] == builds[i]);
}

proof fn lemma_newest_is_last_of_its_rank(
    builds: Seq<BuildView>,
    source: ProtonSource,
    runs: bool,
    host: Option<(u32, u32)>,
    n: int,
)
    requires
        0 <= n <= builds.len(),
    ensures
        newest(builds, source, runs, host, n) matches Some(best) ==> {
            let ranked = placed(builds, host).take(n).filter(
                ranked_as::<Placed>(PlacedView { runs, build: best }),
            );
            ranked.len() > 0 && ranked.last() == (PlacedView { runs, build: best })
        },
        newest(builds, source, runs, host, n) matches Some(best) ==> best.source == source
            && best.runs(host) == runs,
    decreases n,
{
    reveal(Seq::filter);
    if n > 0 {
        lemma_newest_is_last_of_its_rank(builds, source, runs, host, n - 1);
        let all = placed(builds, host);
        let build = builds[n - 1];
        let before = newest(builds, source, runs, host, n - 1);
        assert(all.take(n).drop_last() =~= all.take(n - 1));
        assert(all.take(n).last() == all[n - 1]);
        if let Some(best) = newest(builds, source, runs, host, n) {
            in_order_total(best.name, best.name);
            if newest(builds, source, runs, host, n) == before {
                let rank = ranked_as::<Placed>(PlacedView { runs, build: best });
                if !rank(all[n - 1]) {
                    assert(all.take(n).filter(rank) == all.take(n - 1).filter(rank));
                } else {
                    assert(build == best);
                }
            }
        }
    }
}

proof fn lemma_newest_of_sorted(
    sorted: Seq<BuildView>,
    found: Seq<BuildView>,
    source: ProtonSource,
    runs: bool,
    host: Option<(u32, u32)>,
)
    requires
        stably_sorted::<Placed>(placed(sorted, host), placed(found, host)),
    ensures
        newest(sorted, source, runs, host, sorted.len() as int) == newest(
            found,
            source,
            runs,
            host,
            found.len() as int,
        ),
{
    let a = newest(sorted, source, runs, host, sorted.len() as int);
    let b = newest(found, source, runs, host, found.len() as int);
    the_newest_has_the_highest_name(sorted, source, runs, host, sorted.len() as int);
    the_newest_has_the_highest_name(found, source, runs, host, found.len() as int);
    lemma_newest_is_last_of_its_rank(sorted, source, runs, host, sorted.len() as int);
    lemma_newest_is_last_of_its_rank(found, source, runs, host, found.len() as int);
    assert(placed(sorted, host).take(sorted.len() as int) =~= placed(sorted, host));
    assert(placed(found, host).take(found.len() as int) =~= placed(found, host));
    if let Some(x) = a {
        let p = PlacedView { runs, build: x };
        let i = choose|i: int| 0 <= i < sorted.len() && sorted[i] == x;
        assert(placed(sorted, host)[i] == p);
        sorting_keeps_the_items::<Placed>(placed(sorted, host), placed(found, host), p);
        let j = choose|j: int| 0 <= j < found.len() && placed(found, host)[j] == p;
        assert(found[j] == x);
        assert(b is Some);
    }
    if let Some(y) = b {
        let p = PlacedView { runs, build: y };
        let i = choose|i: int| 0 <= i < found.len() && found[i] == y;
        assert(placed(found, host)[i] == p);
        sorting_keeps_the_items::<Placed>(placed(sorted, host), placed(found, host), p);
        let j = choose|j: int| 0 <= j < sorted.len() && placed(sorted, host)[j] == p;
        assert(sorted[j] == y);
        assert(a is Some);
        let x = a->0;
        in_order_antisymmetric(x.name, y.name);
        let px = PlacedView { runs, build: x };
        assert(ranked_as::<Placed>(px) =~= ranked_as::<Placed>(p));
        assert(placed(sorted, host).filter(ranked_as::<Placed>(p)) == placed(found, host).filter(
            ranked_as::<Placed>(p),
        ));
    }
}

/// It makes no difference whether the build to use is picked from the builds as they were found or
/// as [`available`] lists them.
pub proof fn detection_goes_by_the_list(
    listed: Seq<BuildView>,
    found: Seq<BuildView>,
    host: Option<(u32, u32)>,
)
    requires
        placed(listed, host) == arranged::<Placed>(placed(found, host)),
    ensures
        preferred(listed, host) == preferred(found, host),
{
    sorting_is_stable::<Placed>(placed(found, host));
    lemma_newest_of_sorted(listed, found, ProtonSource::Managed, true, host);
    lemma_newest_of_sorted(listed, found, ProtonSource::System, true, host);
    lemma_newest_of_sorted(listed, found, ProtonSource::Managed, false, host);
    lemma_newest_of_sorted(listed, found, ProtonSource::System, false, host);
}

}
