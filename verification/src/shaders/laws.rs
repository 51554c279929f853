//! What holds of the shader compiler, however it is installed.
use vstd::prelude::*;

use crate::config::ConfigView;
use crate::disk::laws::the_first_file_is_taken;
use crate::disk::{on_path, Disk};
use crate::error::{failure, CauseView, Error};
use crate::launch::{Command, CommandView};
use crate::net::laws::{says_nothing_of, says_once};
use crate::paths::{joined, name_in, parent_in, renamed, Paths};
use crate::shaders::{
    builtin_mark, compiler_file, found, last_telling, marked_at, native, outcome, telling, tricks, wanted,
    wine_builtin, wine_places, wine_prefix, winetricks_at, Output,
};
use crate::spelling::legible;
use crate::text::lines_in;

verus! {

broadcast use vstd::string::group_string_axioms;

/// The prefix is the one that Proton makes below the launcher's own, and the compiler is looked for
/// among its system libraries.
pub proof fn the_compiler_lies_in_the_prefix(paths: Paths)
    ensures
        wine_prefix(paths) == joined(joined(paths.data@, "prefix"@), "pfx"@),
        compiler_file(paths) == joined(
            joined(wine_prefix(paths), "drive_c/windows/system32"@),
            "d3dcompiler_47.dll"@,
        ),
{
}

/// The compiler in the prefix is Microsoft's exactly if a file is there that can be read and that
/// nowhere in its first block says that it is Wine's own.
pub proof fn a_library_is_native_unless_wine_marked_it(paths: Paths, disk: Disk, dll: Seq<u8>)
    ensures
        disk.content(compiler_file(paths)) is None ==> !native(paths, disk),
        disk.content(compiler_file(paths)) == Some(dll) ==> (native(paths, disk) <==> forall|at: int|
            0 <= at && at + 16 <= dll.len() && at + 16 <= 4096 ==> #[trigger] dll.subrange(
                at,
                at + 16,
            ) != seq![
                0x57u8, 0x69u8, 0x6eu8, 0x65u8, 0x20u8, 0x62u8, 0x75u8, 0x69u8, 0x6cu8, 0x74u8,
                0x69u8, 0x6eu8, 0x20u8, 0x44u8, 0x4cu8, 0x4cu8,
            ]),
{
    assert(builtin_mark() =~= seq![
        0x57u8, 0x69u8, 0x6eu8, 0x65u8, 0x20u8, 0x62u8, 0x75u8, 0x69u8, 0x6cu8, 0x74u8, 0x69u8,
        0x6eu8, 0x20u8, 0x44u8, 0x4cu8, 0x4cu8,
    ]);
    if disk.content(compiler_file(paths)) == Some(dll) {
        if !wine_builtin(dll) {
            assert forall|at: int| 0 <= at && at + 16 <= dll.len() && at + 16 <= 4096 implies
                #[trigger] dll.subrange(at, at + 16) != builtin_mark() by {
                assert(!marked_at(dll, at));
            }
        } else {
            let at = choose|at: int| marked_at(dll, at);
            assert(dll.subrange(at, at + 16) == builtin_mark());
        }
    }
}

/// Where the compiler is there, nothing is to be done; else the first thing that is missing is told:
/// the prefix, winetricks, Proton.
pub proof fn the_first_thing_missing_is_told(
    paths: Paths,
    config: ConfigView,
    path: Option<Seq<char>>,
    disk: Disk,
)
    ensures
        ({
            let told = wanted(paths, config, path, disk);
            let tool = winetricks_at(path, disk);
            &&& native(paths, disk) <==> told == Ok::<_, Seq<CauseView>>(None::<CommandView>)
            &&& !native(paths, disk) && !disk.directory(
                joined(joined(paths.data@, "prefix"@), "pfx"@),
            ) ==> told == Err::<Option<CommandView>, _>(
                failure(
                    "the wine prefix does not exist yet, start Vortex once and then turn this on"@,
                ),
            )
            &&& !native(paths, disk) && disk.directory(
                joined(joined(paths.data@, "prefix"@), "pfx"@),
            ) ==> {
                &&& tool is None ==> told == Err::<Option<CommandView>, _>(
                    failure("winetricks is not installed, install it and try again"@),
                )
                &&& tool is Some && config.proton is None ==> told == Err::<Option<CommandView>, _>(
                    failure("Proton is not installed yet"@),
                )
                &&& tool is Some && config.proton is Some ==> (told matches Ok(Some(command))
                    && command.program == tool->0)
            }
        }),
{
}

/// What a step that may find nothing to do came to is what it found, or its failure.
pub proof fn a_step_comes_to_what_it_found(step: Result<Option<Command>, Error>)
    ensures
        match step {
            Ok(Some(command)) => found(step) == Ok::<_, Seq<CauseView>>(Some(command@)),
            Ok(None) => found(step) == Ok::<_, Seq<CauseView>>(None::<CommandView>),
            Err(error) => found(step) == Err::<Option<CommandView>, _>(error@),
        },
{
}

/// winetricks is the first that is on the search path.
pub proof fn winetricks_is_the_first_on_the_search_path(path: Seq<char>, disk: Disk, i: int)
    requires
        0 <= i < on_path(path, "winetricks"@).len(),
        disk.file(on_path(path, "winetricks"@)[i]),
        forall|j: int| 0 <= j < i ==> !disk.file(#[trigger] on_path(path, "winetricks"@)[j]),
    ensures
        winetricks_at(Some(path), disk) == Some(on_path(path, "winetricks"@)[i]),
        winetricks_at(None, disk) is None,
{
    the_first_file_is_taken(disk, on_path(path, "winetricks"@));
}

proof fn lemma_names()
    ensures
        "WINEPREFIX"@ != "WINESERVER"@,
        "WINEPREFIX"@ != "WINE"@,
        "WINESERVER"@ != "WINE"@,
{
    reveal_strlit("WINEPREFIX");
    reveal_strlit("WINESERVER");
    reveal_strlit("WINE");
    assert("WINEPREFIX"@[4] == 'P' && "WINESERVER"@[4] == 'S');
    assert("WINE"@.len() == 4 && "WINEPREFIX"@.len() == 10 && "WINESERVER"@.len() == 10);
}

/// winetricks works on the launcher's own prefix, without asking, on the one library; and it does so
/// with the wine of the Proton build and with the server beside it, where that wine is there.
pub proof fn winetricks_works_with_the_right_wine(
    paths: Paths,
    winetricks: Seq<char>,
    dir: Seq<char>,
    wine: Seq<char>,
)
    ensures
        ({
            let command = tricks(paths, winetricks, Some(wine));
            &&& command.program == winetricks
            &&& command.args == seq!["-q"@, "d3dcompiler_47"@]
            &&& says_once(
                command.env,
                "WINEPREFIX"@,
                joined(joined(paths.data@, "prefix"@), "pfx"@),
            )
            &&& says_once(command.env, "WINE"@, wine)
            &&& says_once(command.env, "WINESERVER"@, renamed(wine, "wineserver"@))
            &&& name_in(wine) is Some && parent_in(wine) == Some(dir) ==> renamed(
                wine,
                "wineserver"@,
            ) == joined(dir, "wineserver"@)
        }),
        ({
            let command = tricks(paths, winetricks, None);
            &&& command.program == winetricks
            &&& command.args == seq!["-q"@, "d3dcompiler_47"@]
            &&& says_once(
                command.env,
                "WINEPREFIX"@,
                joined(joined(paths.data@, "prefix"@), "pfx"@),
            )
            &&& says_nothing_of(command.env, "WINE"@)
            &&& says_nothing_of(command.env, "WINESERVER"@)
        }),
{
    lemma_names();
    let with = tricks(paths, winetricks, Some(wine)).env;
    assert(with[0] == ("WINEPREFIX"@, wine_prefix(paths)));
    assert(with[1] == ("WINESERVER"@, renamed(wine, "wineserver"@)));
    assert(with[2] == ("WINE"@, wine));
    let without = tricks(paths, winetricks, None).env;
    assert(without[0] == ("WINEPREFIX"@, wine_prefix(paths)));
}

/// The wine of a Proton build is looked for in its two places, in order.
pub proof fn the_wine_of_a_build_is_taken(
    paths: Paths,
    config: ConfigView,
    path: Option<Seq<char>>,
    disk: Disk,
)
    requires
        wanted(paths, config, path, disk) matches Ok(Some(_)),
    ensures
        ({
            let env = wanted(paths, config, path, disk)->Ok_0->0.env;
            let dir = config.proton->0.dir;
            if disk.file(joined(dir, "files/bin/wine"@)) {
                says_once(env, "WINE"@, joined(dir, "files/bin/wine"@))
            } else if disk.file(joined(dir, "dist/bin/wine"@)) {
                says_once(env, "WINE"@, joined(dir, "dist/bin/wine"@))
            } else {
                says_nothing_of(env, "WINE"@)
            }
        }),
{
    let dir = config.proton->0.dir;
    let places = wine_places(dir);
    assert(places[0] == joined(dir, "files/bin/wine"@));
    assert(places[1] == joined(dir, "dist/bin/wine"@));
    the_first_file_is_taken(disk, places);
    let tool = winetricks_at(path, disk)->0;
    winetricks_works_with_the_right_wine(paths, tool, seq![], places[0]);
    winetricks_works_with_the_right_wine(paths, tool, seq![], places[1]);
}

proof fn lemma_last_telling(lines: Seq<Seq<char>>, n: int)
    requires
        0 <= n <= lines.len(),
    ensures
        match last_telling(lines, n) {
            Some(line) => exists|i: int|
                0 <= i < n && #[trigger] lines[i] == line && telling(line) && forall|j: int|
                    i < j < n ==> !telling(#[trigger] lines[j]),
            None => forall|j: int| 0 <= j < n ==> !telling(#[trigger] lines[j]),
        },
    decreases n,
{
    if n > 0 && !telling(lines[n - 1]) {
        lemma_last_telling(lines, n - 1);
    }
}

/// A run of winetricks succeeded exactly if it says so and the compiler is there. One that did not is
/// told with the last of its lines that says anything.
pub proof fn a_run_is_judged_by_what_it_left(
    paths: Paths,
    tool: Seq<char>,
    output: Output,
    reason: Error,
    disk: Disk,
    i: int,
)
    ensures
        outcome(paths, tool, Ok(output), disk) is Ok <==> output.success && native(paths, disk),
        output.success && !native(paths, disk) ==> outcome(paths, tool, Ok(output), disk)->Err_0
            == failure("winetricks finished but d3dcompiler_47.dll is not in the prefix"@),
        !output.success && 0 <= i < lines_in(output.stderr@, 0).len() && telling(
            lines_in(output.stderr@, 0)[i],
        ) && (forall|j: int|
            i < j < lines_in(output.stderr@, 0).len() ==> !telling(
                #[trigger] lines_in(output.stderr@, 0)[j],
            )) ==> outcome(paths, tool, Ok(output), disk)->Err_0 == failure(
            "winetricks could not install d3dcompiler_47: "@ + lines_in(output.stderr@, 0)[i],
        ),
        !output.success && (forall|j: int|
            0 <= j < lines_in(output.stderr@, 0).len() ==> !telling(
                #[trigger] lines_in(output.stderr@, 0)[j],
            )) ==> outcome(paths, tool, Ok(output), disk)->Err_0 == failure(
            "winetricks could not install d3dcompiler_47"@,
        ),
        outcome(paths, tool, Err(reason), disk) == Err::<(), _>(
            failure("cannot run "@ + legible(tool)) + reason@,
        ),
{
    let all = lines_in(output.stderr@, 0);
    lemma_last_telling(all, all.len() as int);
}

}
