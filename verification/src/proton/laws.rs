//! What holds of all Proton builds.
use vstd::prelude::*;

use crate::config::ProtonSource;
use crate::disk::laws::the_first_file_is_taken;
use crate::disk::{first_file, Disk};
use crate::paths::{joined, name_in, same_place};
use crate::proton::glibc::newest_tag;
use crate::proton::{
    all_builds, first_there, found_builds, machine_in, machine_of, needed_by, once_each, placed,
    preferred, steam_builds, steam_places, telling_files, the_newest_has_the_highest_name, unix_programs, usable,
    usable_entries, wine_programs, Build, BuildView, Placed, PlacedView,
};
use crate::sort::{arranged, sorting_is_stable, sorting_keeps_the_items, Ranked};
use crate::spelling::legible;
use crate::text::in_order;

verus! {

broadcast use vstd::string::group_string_axioms;

/// The files that a build is judged by are its script and the programs that tell its processor and
/// what it needs.
pub proof fn a_build_is_judged_by_these_files(dir: Seq<char>)
    ensures
        telling_files(dir) == seq![
            joined(dir, "proton"@),
            joined(dir, "files/bin/wine"@),
            joined(dir, "files/bin/wine64"@),
            joined(dir, "files/bin/wineserver"@),
            joined(dir, "files/lib/wine/x86_64-unix/ntdll.so"@),
            joined(dir, "files/lib64/wine/x86_64-unix/ntdll.so"@),
            joined(dir, "files/bin/wineserver"@),
        ],
{
    assert(telling_files(dir) =~= seq![
        joined(dir, "proton"@),
        joined(dir, "files/bin/wine"@),
        joined(dir, "files/bin/wine64"@),
        joined(dir, "files/bin/wineserver"@),
        joined(dir, "files/lib/wine/x86_64-unix/ntdll.so"@),
        joined(dir, "files/lib64/wine/x86_64-unix/ntdll.so"@),
        joined(dir, "files/bin/wineserver"@),
    ]);
}

proof fn lemma_first_there(builds: Seq<BuildView>, j: int) -> (i: int)
    requires
        0 <= j < builds.len(),
    ensures
        0 <= i <= j,
        first_there(builds, i),
        same_place(builds[i].dir, builds[j].dir),
    decreases j,
{
    if first_there(builds, j) {
        j
    } else {
        let k = choose|k: int| 0 <= k < j && same_place((#[trigger] builds[k]).dir, builds[j].dir);
        lemma_first_there(builds, k)
    }
}

/// Every build of the launcher's own directory that can be used here is found, unless another entry
/// leads to the same place, and so is every build in one of Steam's directories; one that lies in
/// both counts as the launcher's own.
pub proof fn no_usable_build_is_passed_over(
    own: Seq<char>,
    steam: Seq<Seq<char>>,
    arch: Seq<char>,
    disk: Disk,
    dir: Seq<char>,
)
    requires
        disk.listing(own).contains(dir),
        usable(dir, arch, disk),
        name_in(dir) is Some,
    ensures
        exists|i: int|
            0 <= i < found_builds(own, steam, arch, disk).len() && same_place(
                (#[trigger] found_builds(own, steam, arch, disk)[i]).dir,
                dir,
            ) && found_builds(own, steam, arch, disk)[i].source is Managed,
{
    let all = all_builds(own, steam, arch, disk);
    let entries = disk.listing(own);
    let here = usable_entries(entries, arch, disk, 0);
    build_among(entries, arch, disk, 0);
    let e = choose|e: int| 0 <= e < entries.len() && entries[e] == dir;
    assert(usable(entries[e], arch, disk));
    let named = (legible(name_in(dir)->0), dir);
    assert(here.contains(named));
    let j = choose|j: int| 0 <= j < here.len() && here[j] == named;
    assert(all[j].dir == dir);
    let i = lemma_first_there(all, j);
    lemma_once_each(all, 0);
    let found = found_builds(own, steam, arch, disk);
    assert(found.contains(all[i]));
    let k = choose|k: int| 0 <= k < found.len() && found[k] == all[i];
    assert(found[k].dir == all[i].dir);
    assert(all[i].source is Managed);
}

proof fn lemma_steam_listed(
    dirs: Seq<Seq<char>>,
    arch: Seq<char>,
    disk: Disk,
    i: int,
    at: int,
    named: (Seq<char>, Seq<char>),
)
    requires
        0 <= i <= at < dirs.len(),
        usable_entries(disk.listing(dirs[at]), arch, disk, 0).contains(named),
    ensures
        steam_builds(dirs, arch, disk, i).contains(named),
    decreases dirs.len() - i,
{
    let here = usable_entries(disk.listing(dirs[i]), arch, disk, 0);
    let rest = steam_builds(dirs, arch, disk, i + 1);
    let all = steam_builds(dirs, arch, disk, i);
    assert(all == here + rest);
    if i == at {
        let k = choose|k: int| 0 <= k < here.len() && here[k] == named;
        assert(all[k] == named);
    } else {
        lemma_steam_listed(dirs, arch, disk, i + 1, at, named);
        let k = choose|k: int| 0 <= k < rest.len() && rest[k] == named;
        assert(all[here.len() + k] == named);
    }
}

/// Every build in one of Steam's directories that can be used here is found.
pub proof fn no_usable_build_of_steam_is_passed_over(
    own: Seq<char>,
    steam: Seq<Seq<char>>,
    arch: Seq<char>,
    disk: Disk,
    at: int,
    dir: Seq<char>,
)
    requires
        0 <= at < steam.len(),
        disk.listing(steam[at]).contains(dir),
        usable(dir, arch, disk),
        name_in(dir) is Some,
    ensures
        exists|i: int|
            0 <= i < found_builds(own, steam, arch, disk).len() && same_place(
                (#[trigger] found_builds(own, steam, arch, disk)[i]).dir,
                dir,
            ),
{
    let all = all_builds(own, steam, arch, disk);
    let entries = disk.listing(steam[at]);
    let here = usable_entries(disk.listing(own), arch, disk, 0);
    let there = steam_builds(steam, arch, disk, 0);
    build_among(entries, arch, disk, 0);
    let e = choose|e: int| 0 <= e < entries.len() && entries[e] == dir;
    assert(usable(entries[e], arch, disk));
    let named = (legible(name_in(dir)->0), dir);
    lemma_steam_listed(steam, arch, disk, 0, at, named);
    let j = choose|j: int| 0 <= j < there.len() && there[j] == named;
    assert(all[here.len() + j].dir == dir);
    let i = lemma_first_there(all, here.len() + j);
    lemma_once_each(all, 0);
    let found = found_builds(own, steam, arch, disk);
    assert(found.contains(all[i]));
    let k = choose|k: int| 0 <= k < found.len() && found[k] == all[i];
    assert(found[k].dir == all[i].dir);
}

/// A build is what its fields say.
pub proof fn a_build_is_what_its_fields_say(build: Build)
    ensures
        build@.name == build.name@,
        build@.dir == build.dir@,
        build@.source == build.source,
        build@.needs_glibc == build.needs_glibc,
        build@.installed().name == build.name@,
        build@.installed().dir == build.dir@,
        build@.installed().source == build.source,
{
}

/// An ELF file tells its machine in the two bytes behind the eighteenth, the low one first, and
/// nothing else does.
pub proof fn an_elf_file_tells_its_machine(bytes: Seq<u8>)
    ensures
        machine_in(bytes) is Some <==> bytes.len() >= 20 && bytes.take(4) == seq![
            0x7fu8,
            0x45u8,
            0x4cu8,
            0x46u8,
        ],
        machine_in(bytes) matches Some(machine) ==> machine % 256 == bytes[18] && machine / 256
            == bytes[19],
        machine_of("x86_64"@) == Some(62u16),
        machine_of("aarch64"@) == Some(183u16),
        forall|arch: Seq<char>|
            arch != "x86_64"@ && arch != "aarch64"@ ==> #[trigger] machine_of(arch) is None,
{
    let magic = seq![0x7fu8, 0x45u8, 0x4cu8, 0x46u8];
    if bytes.len() >= 20 {
        if bytes.take(4) == magic {
            assert(bytes.take(4)[0] == magic[0] && bytes.take(4)[1] == magic[1] && bytes.take(4)[2]
                == magic[2] && bytes.take(4)[3] == magic[3]);
        }
        if machine_in(bytes) is Some {
            assert(bytes.take(4) =~= magic);
        }
    }
    reveal_strlit("x86_64");
    reveal_strlit("aarch64");
    assert("x86_64"@.len() == 6 && "aarch64"@.len() == 7);
}

/// The program of a build that tells which processor it is for: the first of three that is there.
pub open spec fn telling(dir: Seq<char>, disk: Disk) -> Option<Seq<char>> {
    if disk.file(joined(dir, "files/bin/wine"@)) {
        Some(joined(dir, "files/bin/wine"@))
    } else if disk.file(joined(dir, "files/bin/wine64"@)) {
        Some(joined(dir, "files/bin/wine64"@))
    } else if disk.file(joined(dir, "files/bin/wineserver"@)) {
        Some(joined(dir, "files/bin/wineserver"@))
    } else {
        None
    }
}

/// A directory holds a usable build exactly if it has a proton script and its wine is not known to be
/// for another processor.
pub proof fn a_build_for_another_processor_is_not_usable(
    dir: Seq<char>,
    arch: Seq<char>,
    disk: Disk,
    machine: u16,
)
    requires
        telling(dir, disk) is Some,
        disk.content(telling(dir, disk)->0) is Some,
        machine_in(disk.content(telling(dir, disk)->0)->0) == Some(machine),
    ensures
        usable(dir, "x86_64"@, disk) <==> disk.file(joined(dir, "proton"@)) && machine == 62,
        usable(dir, "aarch64"@, disk) <==> disk.file(joined(dir, "proton"@)) && machine == 183,
        arch != "x86_64"@ && arch != "aarch64"@ ==> (usable(dir, arch, disk) <==> disk.file(
            joined(dir, "proton"@),
        )),
{
    the_first_file_is_taken(disk, wine_programs(dir));
    an_elf_file_tells_its_machine(seq![]);
    let programs = wine_programs(dir);
    assert(programs[0] == joined(dir, "files/bin/wine"@));
    assert(programs[1] == joined(dir, "files/bin/wine64"@));
    assert(programs[2] == joined(dir, "files/bin/wineserver"@));
    assert(first_file(disk, programs, 0) == telling(dir, disk));
}

/// A build whose programs tell nothing is usable if it has a proton script.
pub proof fn a_build_that_tells_nothing_is_usable(dir: Seq<char>, arch: Seq<char>, disk: Disk)
    requires
        telling(dir, disk) matches Some(program) ==> (disk.content(program) matches Some(bytes)
            ==> machine_in(bytes) is None),
    ensures
        usable(dir, arch, disk) <==> disk.file(joined(dir, "proton"@)),
{
    the_first_file_is_taken(disk, wine_programs(dir));
    let programs = wine_programs(dir);
    assert(programs[0] == joined(dir, "files/bin/wine"@));
    assert(programs[1] == joined(dir, "files/bin/wine64"@));
    assert(programs[2] == joined(dir, "files/bin/wineserver"@));
    assert(first_file(disk, programs, 0) == telling(dir, disk));
}

/// Steam's builds are looked for in the four places below the home directory where Steam may be, in
/// two directories each, and in the one that all users share.
pub proof fn steam_is_looked_for_everywhere(home: Seq<char>)
    ensures
        steam_places(None) == seq!["/usr/share/steam/compatibilitytools.d"@],
        steam_places(Some(home)) == seq![
            joined(joined(home, ".steam/steam"@), "compatibilitytools.d"@),
            joined(joined(home, ".steam/steam"@), "steamapps/common"@),
            joined(joined(home, ".steam/root"@), "compatibilitytools.d"@),
            joined(joined(home, ".steam/root"@), "steamapps/common"@),
            joined(joined(home, ".local/share/Steam"@), "compatibilitytools.d"@),
            joined(joined(home, ".local/share/Steam"@), "steamapps/common"@),
            joined(
                joined(home, ".var/app/com.valvesoftware.Steam/data/Steam"@),
                "compatibilitytools.d"@,
            ),
            joined(
                joined(home, ".var/app/com.valvesoftware.Steam/data/Steam"@),
                "steamapps/common"@,
            ),
            "/usr/share/steam/compatibilitytools.d"@,
        ],
{
    assert(steam_places(Some(home)) =~= seq![
        joined(joined(home, ".steam/steam"@), "compatibilitytools.d"@),
        joined(joined(home, ".steam/steam"@), "steamapps/common"@),
        joined(joined(home, ".steam/root"@), "compatibilitytools.d"@),
        joined(joined(home, ".steam/root"@), "steamapps/common"@),
        joined(joined(home, ".local/share/Steam"@), "compatibilitytools.d"@),
        joined(joined(home, ".local/share/Steam"@), "steamapps/common"@),
        joined(
            joined(home, ".var/app/com.valvesoftware.Steam/data/Steam"@),
            "compatibilitytools.d"@,
        ),
        joined(
            joined(home, ".var/app/com.valvesoftware.Steam/data/Steam"@),
            "steamapps/common"@,
        ),
        "/usr/share/steam/compatibilitytools.d"@,
    ]);
}

/// A build runs on a host unless both versions are known and the host's is the older: by the major
/// number first, and then by the minor one.
pub proof fn an_old_host_cannot_load_a_new_build(
    build: BuildView,
    major: u32,
    minor: u32,
    host_major: u32,
    host_minor: u32,
)
    requires
        build.needs_glibc == Some((major, minor)),
    ensures
        host_major > major ==> build.runs(Some((host_major, host_minor))),
        host_major < major ==> !build.runs(Some((host_major, host_minor))),
        host_major == major ==> (build.runs(Some((host_major, host_minor))) <==> host_minor
            >= minor),
        build.runs(None),
{
}

/// A build that says nothing of what it needs runs everywhere.
pub proof fn a_build_that_needs_nothing_runs_everywhere(build: BuildView, host: Option<(u32, u32)>)
    requires
        build.needs_glibc is None,
    ensures
        build.runs(host),
{
}

/// How far in front a build is where none is configured: first whether it runs, and then whether it
/// is the launcher's own.
pub open spec fn standing(build: BuildView, host: Option<(u32, u32)>) -> int {
    (if build.runs(host) {
        2int
    } else {
        0int
    }) + (if build.source is Managed {
        1int
    } else {
        0int
    })
}

/// The build to use where none is configured is there, and no other that is there stands before it or,
/// standing level, has a higher name. One is picked wherever there is any.
pub proof fn the_best_build_is_picked(builds: Seq<BuildView>, host: Option<(u32, u32)>)
    ensures
        match preferred(builds, host) {
            Some(best) => builds.contains(best) && forall|i: int|
                0 <= i < builds.len() ==> {
                    let other = #[trigger] builds[i];
                    ||| standing(other, host) < standing(best, host)
                    ||| standing(other, host) == standing(best, host) && in_order(
                        other.name,
                        best.name,
                    )
                },
            None => builds.len() == 0,
        },
{
    let n = builds.len() as int;
    the_newest_has_the_highest_name(builds, ProtonSource::Managed, true, host, n);
    the_newest_has_the_highest_name(builds, ProtonSource::System, true, host, n);
    the_newest_has_the_highest_name(builds, ProtonSource::Managed, false, host, n);
    the_newest_has_the_highest_name(builds, ProtonSource::System, false, host, n);
    if preferred(builds, host) is None && n > 0 {
        assert(builds[0].runs(host) || !builds[0].runs(host));
    }
}

proof fn lemma_steam_builds(dirs: Seq<Seq<char>>, arch: Seq<char>, disk: Disk, i: int)
    requires
        0 <= i,
    ensures
        forall|k: int|
            0 <= k < steam_builds(dirs, arch, disk, i).len() ==> {
                let found = #[trigger] steam_builds(dirs, arch, disk, i)[k];
                exists|j: int|
                    i <= j < dirs.len() && (#[trigger] disk.listing(dirs[j])).contains(found.1)
            },
        forall|k: int|
            0 <= k < steam_builds(dirs, arch, disk, i).len() ==> {
                let found = #[trigger] steam_builds(dirs, arch, disk, i)[k];
                usable(found.1, arch, disk) && name_in(found.1) is Some && found.0 == legible(
                    name_in(found.1)->0,
                )
            },
    decreases dirs.len() - i,
{
    if i < dirs.len() {
        lemma_steam_builds(dirs, arch, disk, i + 1);
        let here = usable_entries(disk.listing(dirs[i]), arch, disk, 0);
        build_among(disk.listing(dirs[i]), arch, disk, 0);
        let rest = steam_builds(dirs, arch, disk, i + 1);
        let all = steam_builds(dirs, arch, disk, i);
        assert(all == here + rest);
        assert forall|k: int| 0 <= k < all.len() implies {
            let found = #[trigger] all[k];
            exists|j: int| i <= j < dirs.len() && (#[trigger] disk.listing(dirs[j])).contains(found.1)
        } by {
            if k < here.len() {
                assert(all[k] == here[k]);
                let j = choose|j: int|
                    0 <= j < disk.listing(dirs[i]).len() && #[trigger] disk.listing(dirs[i])[j]
                        == here[k].1;
                assert(disk.listing(dirs[i])[j] == all[k].1);
                assert(disk.listing(dirs[i]).contains(all[k].1));
            } else {
                assert(all[k] == rest[k - here.len()]);
            }
        }
        assert forall|k: int| 0 <= k < all.len() implies {
            let found = #[trigger] all[k];
            usable(found.1, arch, disk) && name_in(found.1) is Some && found.0 == legible(
                name_in(found.1)->0,
            )
        } by {
            if k < here.len() {
                assert(all[k] == here[k]);
            } else {
                assert(all[k] == rest[k - here.len()]);
            }
        }
    }
}

proof fn lemma_once_each(builds: Seq<BuildView>, i: int)
    requires
        0 <= i,
    ensures
        forall|k: int|
            0 <= k < once_each(builds, i).len() ==> exists|j: int|
                i <= j < builds.len() && #[trigger] builds[j] == #[trigger] once_each(builds, i)[k]
                    && first_there(builds, j),
        forall|j: int|
            i <= j < builds.len() && #[trigger] first_there(builds, j) ==> once_each(
                builds,
                i,
            ).contains(builds[j]),
        forall|k: int, l: int|
            0 <= k < l < once_each(builds, i).len() ==> !same_place(
                (#[trigger] once_each(builds, i)[k]).dir,
                (#[trigger] once_each(builds, i)[l]).dir,
            ),
    decreases builds.len() - i,
{
    if i < builds.len() {
        lemma_once_each(builds, i + 1);
        let rest = once_each(builds, i + 1);
        let all = once_each(builds, i);
        if first_there(builds, i) {
            assert(all =~= seq![builds[i]] + rest);
            assert(all[0] == builds[i]);
            assert forall|k: int| 0 <= k < all.len() implies exists|j: int|
                i <= j < builds.len() && #[trigger] builds[j] == #[trigger] all[k] && first_there(
                    builds,
                    j,
                ) by {
                if k > 0 {
                    assert(all[k] == rest[k - 1]);
                } else {
                    assert(builds[i] == all[k]);
                }
            }
            assert forall|j: int|
                i <= j < builds.len() && #[trigger] first_there(builds, j) implies all.contains(
                builds[j],
            ) by {
                if j > i {
                    assert(rest.contains(builds[j]));
                    let k = choose|k: int| 0 <= k < rest.len() && rest[k] == builds[j];
                    assert(all[k + 1] == builds[j]);
                }
            }
            assert forall|k: int, l: int| 0 <= k < l < all.len() implies !same_place(
                (#[trigger] all[k]).dir,
                (#[trigger] all[l]).dir,
            ) by {
                assert(all[l] == rest[l - 1]);
                if k > 0 {
                    assert(all[k] == rest[k - 1]);
                } else {
                    let j = choose|j: int|
                        i + 1 <= j < builds.len() && #[trigger] builds[j] == rest[l - 1]
                            && first_there(builds, j);
                    assert(!same_place(builds[i].dir, builds[j].dir));
                }
            }
        }
    }
}

/// Each build that is found lies either in the launcher's own directory, and is then the launcher's
/// own, or in one of Steam's; it is usable here, and goes by the name of its directory. No directory
/// is listed twice.
pub proof fn every_build_lies_where_it_was_looked_for(
    own: Seq<char>,
    steam: Seq<Seq<char>>,
    arch: Seq<char>,
    disk: Disk,
)
    ensures
        forall|k: int|
            0 <= k < found_builds(own, steam, arch, disk).len() ==> {
                let build = #[trigger] found_builds(own, steam, arch, disk)[k];
                &&& usable(build.dir, arch, disk)
                &&& name_in(build.dir) is Some && build.name == legible(name_in(build.dir)->0)
                &&& build.needs_glibc == needed_by(build.dir, disk)
                &&& build.source is Managed ==> disk.listing(own).contains(build.dir)
                &&& build.source is System ==> exists|j: int|
                    0 <= j < steam.len() && (#[trigger] disk.listing(steam[j])).contains(build.dir)
            },
        forall|k: int, l: int|
            0 <= k < l < found_builds(own, steam, arch, disk).len() ==> !same_place(
                (#[trigger] found_builds(own, steam, arch, disk)[k]).dir,
                (#[trigger] found_builds(own, steam, arch, disk)[l]).dir,
            ),
{
    let all = all_builds(own, steam, arch, disk);
    let here = usable_entries(disk.listing(own), arch, disk, 0);
    let there = steam_builds(steam, arch, disk, 0);
    build_among(disk.listing(own), arch, disk, 0);
    lemma_steam_builds(steam, arch, disk, 0);
    lemma_once_each(all, 0);
    let found = found_builds(own, steam, arch, disk);
    assert forall|k: int| 0 <= k < found.len() implies {
        let build = #[trigger] found[k];
        &&& usable(build.dir, arch, disk)
        &&& name_in(build.dir) is Some && build.name == legible(name_in(build.dir)->0)
        &&& build.needs_glibc == needed_by(build.dir, disk)
        &&& build.source is Managed ==> disk.listing(own).contains(build.dir)
        &&& build.source is System ==> exists|j: int|
            0 <= j < steam.len() && (#[trigger] disk.listing(steam[j])).contains(build.dir)
    } by {
        let j = choose|j: int|
            0 <= j < all.len() && #[trigger] all[j] == found[k] && first_there(all, j);
        assert(all[j] == found[k]);
        if j < here.len() {
            let i = choose|i: int|
                0 <= i < disk.listing(own).len() && #[trigger] disk.listing(own)[i] == here[j].1;
            assert(here[j].1 == found[k].dir);
            assert(disk.listing(own)[i] == found[k].dir);
        } else {
            assert(there[j - here.len()].1 == found[k].dir);
        }
    }
}

/// The builds are listed with those that run first, then the launcher's own, then by name; none is
/// lost or made up.
pub proof fn the_builds_are_listed_best_first(
    listed: Seq<BuildView>,
    found: Seq<BuildView>,
    host: Option<(u32, u32)>,
    build: BuildView,
)
    requires
        placed(listed, host) == arranged::<Placed>(placed(found, host)),
    ensures
        forall|i: int, j: int|
            0 <= i < j < listed.len() ==> {
                let (a, b) = (#[trigger] listed[i], #[trigger] listed[j]);
                ||| a.runs(host) && !b.runs(host)
                ||| a.runs(host) == b.runs(host) && a.source is Managed && b.source is System
                ||| a.runs(host) == b.runs(host) && a.source == b.source && in_order(a.name, b.name)
            },
        listed.len() == found.len(),
        listed.contains(build) <==> found.contains(build),
{
    sorting_is_stable::<Placed>(placed(found, host));
    let all = placed(listed, host);
    let given = placed(found, host);
    assert forall|i: int, j: int| 0 <= i < j < listed.len() implies {
        let (a, b) = (#[trigger] listed[i], #[trigger] listed[j]);
        ||| a.runs(host) && !b.runs(host)
        ||| a.runs(host) == b.runs(host) && a.source is Managed && b.source is System
        ||| a.runs(host) == b.runs(host) && a.source == b.source && in_order(a.name, b.name)
    } by {
        assert(Placed::precedes(all[i], all[j]));
    }
    let x = PlacedView { runs: build.runs(host), build };
    sorting_keeps_the_items::<Placed>(all, given, x);
    if listed.contains(build) {
        let i = choose|i: int| 0 <= i < listed.len() && listed[i] == build;
        assert(all[i] == x);
        let j = choose|j: int| 0 <= j < given.len() && given[j] == x;
        assert(found[j] == build);
    }
    if found.contains(build) {
        let i = choose|i: int| 0 <= i < found.len() && found[i] == build;
        assert(given[i] == x);
        let j = choose|j: int| 0 <= j < all.len() && all[j] == x;
        assert(listed[j] == build);
    }
}

/// What a build needs is what the first of three of its programs that is there asks for.
pub proof fn what_a_build_needs_is_what_its_programs_ask_for(dir: Seq<char>, disk: Disk)
    ensures
        ({
            let program = if disk.file(joined(dir, "files/lib/wine/x86_64-unix/ntdll.so"@)) {
                Some(joined(dir, "files/lib/wine/x86_64-unix/ntdll.so"@))
            } else if disk.file(joined(dir, "files/lib64/wine/x86_64-unix/ntdll.so"@)) {
                Some(joined(dir, "files/lib64/wine/x86_64-unix/ntdll.so"@))
            } else if disk.file(joined(dir, "files/bin/wineserver"@)) {
                Some(joined(dir, "files/bin/wineserver"@))
            } else {
                None
            };
            match program {
                Some(program) => match disk.content(program) {
                    Some(bytes) => needed_by(dir, disk) == newest_tag(bytes, 0),
                    None => needed_by(dir, disk) is None,
                },
                None => needed_by(dir, disk) is None,
            }
        }),
{
    let programs = unix_programs(dir);
    the_first_file_is_taken(disk, programs);
    assert(programs[0] == joined(dir, "files/lib/wine/x86_64-unix/ntdll.so"@));
    assert(programs[1] == joined(dir, "files/lib64/wine/x86_64-unix/ntdll.so"@));
    assert(programs[2] == joined(dir, "files/bin/wineserver"@));
}

/// The builds that are found in a directory are those of its entries that have a name and that this
/// host can use, in order.
pub proof fn build_among(entries: Seq<Seq<char>>, arch: Seq<char>, disk: Disk, i: int)
    requires
        0 <= i,
    ensures
        forall|k: int|
            0 <= k < usable_entries(entries, arch, disk, i).len() ==> {
                let found = #[trigger] usable_entries(entries, arch, disk, i)[k];
                &&& exists|j: int| i <= j < entries.len() && #[trigger] entries[j] == found.1
                &&& usable(found.1, arch, disk)
                &&& name_in(found.1) is Some && found.0 == legible(name_in(found.1)->0)
            },
        forall|j: int|
            i <= j < entries.len() && usable(#[trigger] entries[j], arch, disk) && name_in(
                entries[j],
            ) is Some ==> usable_entries(entries, arch, disk, i).contains(
                (legible(name_in(entries[j])->0), entries[j]),
            ),
    decreases entries.len() - i,
{
    if i < entries.len() {
        build_among(entries, arch, disk, i + 1);
        let rest = usable_entries(entries, arch, disk, i + 1);
        let all = usable_entries(entries, arch, disk, i);
        if name_in(entries[i]) is Some && usable(entries[i], arch, disk) {
            let first = (legible(name_in(entries[i])->0), entries[i]);
            assert(all =~= seq![first] + rest);
            assert(all[0] == first);
            assert forall|k: int| 0 <= k < all.len() implies {
                let found = #[trigger] all[k];
                &&& exists|j: int| i <= j < entries.len() && #[trigger] entries[j] == found.1
                &&& usable(found.1, arch, disk)
                &&& name_in(found.1) is Some && found.0 == legible(name_in(found.1)->0)
            } by {
                if k > 0 {
                    assert(all[k] == rest[k - 1]);
                } else {
                    assert(entries[i] == all[k].1);
                }
            }
            assert forall|j: int|
                i <= j < entries.len() && usable(#[trigger] entries[j], arch, disk) && name_in(
                    entries[j],
                ) is Some implies all.contains((legible(name_in(entries[j])->0), entries[j])) by {
                if j > i {
                    let build = (legible(name_in(entries[j])->0), entries[j]);
                    assert(rest.contains(build));
                    let k = choose|k: int| 0 <= k < rest.len() && rest[k] == build;
                    assert(all[k + 1] == build);
                }
            }
        }
    }
}

}
