//! What holds of every program that is started.
use vstd::prelude::*;
use vstd::utf8::encode_utf8;

use crate::auth::launchable;
use crate::config::ConfigView;
use crate::disk::laws::the_first_file_is_taken;
use crate::disk::{on_path, Disk};
use crate::error::failure;
use crate::launch::{
    ended, merged, preparation, running, start, Command, Exit, Prepared, PreparedView, Target,
};
use crate::net::laws::{says_nothing_of, says_once};
use crate::paths::{joined, parent_in, Paths};
use crate::spelling::{legible, named, ordinary, plain_text_comes_through, unspelled};
use crate::state::{SharedView, StatusView};
use crate::text::laws::{all_in, trimming_may_leave_nothing};
use crate::text::{
    byte_len, decimal, end_without, lemma_end_without, lemma_next_not_in, next_not_in, trimmed,
    white_space, Class,
};

verus! {

broadcast use vstd::string::group_string_axioms;

/// A command does what its fields say.
pub proof fn a_command_is_what_its_fields_say(command: Command)
    ensures
        command@.program == command.program@,
        command@.args.len() == command.args@.len(),
        forall|i: int|
            0 <= i < command.args@.len() ==> #[trigger] command@.args[i] == command.args@[i]@,
        command@.env.len() == command.env@.len(),
        forall|i: int|
            0 <= i < command.env@.len() ==> #[trigger] command@.env[i] == (
                command.env@[i].0@,
                command.env@[i].1@,
            ),
        command@.dir is Some <==> command.dir is Some,
        command.dir matches Some(dir) ==> command@.dir == Some(dir@),
{
}

/// What is prepared is what the fields say.
pub proof fn what_is_prepared_is_what_the_fields_say(prepared: Prepared)
    ensures
        prepared@.target == prepared.target,
        prepared@.python == prepared.python@,
        prepared@.script == prepared.script@,
        prepared@.exe == prepared.exe@,
        prepared@.dir == prepared.dir@,
        prepared@.log == prepared.log@,
        prepared@.proton == prepared.proton@,
{
}

/// The two programs, their names, their links, and the files that their output goes to.
pub proof fn the_programs_are_told_apart(config: ConfigView)
    ensures
        Target::Game.called() == "Vortex"@,
        Target::Studio.called() == "Vortex Studio"@,
        Target::Game.log_name() == "game.log"@,
        Target::Studio.log_name() == "studio.log"@,
        Target::Game.scheme() == "vortex://"@,
        Target::Studio.scheme() == "vortex-studio://"@,
        Target::Game.program(config) == config.game,
        Target::Studio.program(config) == config.studio,
{
}

/// A link that may be handed over begins with its scheme, is at most 4096 bytes long, and holds
/// neither white space nor a zero character; every such link may be.
pub proof fn what_may_be_handed_over(scheme: Seq<char>, rest: Seq<char>)
    ensures
        launchable(scheme + rest, scheme) <==> byte_len(scheme + rest) <= 4096 && forall|i: int|
            0 <= i < (scheme + rest).len() ==> !white_space(#[trigger] (scheme + rest)[i]) && (scheme
                + rest)[i] != '\0',
        forall|uri: Seq<char>| #[trigger]
            launchable(uri, scheme) ==> uri.len() >= scheme.len() && uri.take(scheme.len() as int)
                == scheme,
{
    assert((scheme + rest).subrange(0, scheme.len() as int) =~= scheme);
    assert forall|uri: Seq<char>| #[trigger] launchable(uri, scheme) implies uri.len()
        >= scheme.len() && uri.take(scheme.len() as int) == scheme by {
        assert(uri.take(scheme.len() as int) =~= uri.subrange(0, scheme.len() as int));
    }
}

/// Whether a variable holds nothing that counts.
pub open spec fn holds_nothing(existing: Option<Seq<char>>) -> bool {
    match existing {
        Some(existing) => all_in(existing, Class::Space),
        None => true,
    }
}

/// What a variable holds is kept in front of the override, which comes last; a variable that holds
/// nothing gets the override alone.
pub proof fn the_override_comes_last(existing: Option<Seq<char>>)
    ensures
        holds_nothing(existing) ==> merged(existing) == "d3dcompiler_47=n,b"@,
        !holds_nothing(existing) ==> merged(existing) == existing->0 + ";"@
            + "d3dcompiler_47=n,b"@,
{
    if let Some(text) = existing {
        if all_in(text, Class::Space) {
            trimming_may_leave_nothing(text, Class::Space);
        } else {
            let lo = next_not_in(text, Class::Space, 0);
            lemma_next_not_in(text, Class::Space, 0);
            lemma_end_without(text, Class::Space, lo, text.len() as int);
            assert(!Class::Space.has(text[lo]));
            let hi = end_without(text, Class::Space, lo, text.len() as int);
            assert(trimmed(text, Class::Space) == text.subrange(lo, hi));
            if hi <= lo {
                assert(Class::Space.has(text[lo]));
            }
        }
    }
}

proof fn lemma_variable_names()
    ensures
        "STEAM_COMPAT_DATA_PATH"@ != "STEAM_COMPAT_CLIENT_INSTALL_PATH"@,
        "STEAM_COMPAT_DATA_PATH"@ != "VORTEX_NO_UPDATE"@,
        "STEAM_COMPAT_DATA_PATH"@ != "PROTON_DLL_OVERRIDES"@,
        "STEAM_COMPAT_DATA_PATH"@ != "WINEDLLOVERRIDES"@,
        "STEAM_COMPAT_CLIENT_INSTALL_PATH"@ != "VORTEX_NO_UPDATE"@,
        "STEAM_COMPAT_CLIENT_INSTALL_PATH"@ != "PROTON_DLL_OVERRIDES"@,
        "STEAM_COMPAT_CLIENT_INSTALL_PATH"@ != "WINEDLLOVERRIDES"@,
        "VORTEX_NO_UPDATE"@ != "PROTON_DLL_OVERRIDES"@,
        "VORTEX_NO_UPDATE"@ != "WINEDLLOVERRIDES"@,
        "PROTON_DLL_OVERRIDES"@ != "WINEDLLOVERRIDES"@,
{
    reveal_strlit("VORTEX_NO_UPDATE");
    reveal_strlit("STEAM_COMPAT_DATA_PATH");
    reveal_strlit("STEAM_COMPAT_CLIENT_INSTALL_PATH");
    reveal_strlit("PROTON_DLL_OVERRIDES");
    reveal_strlit("WINEDLLOVERRIDES");
    assert("VORTEX_NO_UPDATE"@.len() == 16);
    assert("STEAM_COMPAT_DATA_PATH"@.len() == 22);
    assert("STEAM_COMPAT_CLIENT_INSTALL_PATH"@.len() == 32);
    assert("PROTON_DLL_OVERRIDES"@.len() == 20);
    assert("WINEDLLOVERRIDES"@.len() == 16 && "WINEDLLOVERRIDES"@[0] == 'W');
    assert("VORTEX_NO_UPDATE"@[0] == 'V');
}

/// Whether `name` stands in an environment exactly once, and with a value that ends in the override
/// behind what `existing` holds.
pub open spec fn overrides(
    env: Seq<(Seq<char>, Seq<char>)>,
    name: Seq<char>,
    existing: Option<Seq<char>>,
) -> bool {
    exists|value: Seq<char>|
        #![trigger says_once(env, name, value)]
        says_once(env, name, value) && unspelled(value) == encode_utf8(
            if holds_nothing(existing) {
                "d3dcompiler_47=n,b"@
            } else {
                existing->0 + ";"@ + "d3dcompiler_47=n,b"@
            },
        )
}

/// Whatever is started, with or without a link: the two variables that hand the override to Wine are
/// set, each ending in the override, if and only if the native shader compiler is on.
pub proof fn the_native_compiler_is_used_if_it_is_on(
    paths: Paths,
    config: ConfigView,
    prepared: PreparedView,
    uri: Option<Seq<char>>,
    proton_overrides: Option<Seq<char>>,
    wine_overrides: Option<Seq<char>>,
)
    ensures
        start(paths, config, prepared, uri, proton_overrides, wine_overrides) matches Ok(command)
            ==> if config.native_shader_compiler {
            &&& overrides(command.env, "PROTON_DLL_OVERRIDES"@, proton_overrides)
            &&& overrides(command.env, "WINEDLLOVERRIDES"@, wine_overrides)
        } else {
            &&& says_nothing_of(command.env, "PROTON_DLL_OVERRIDES"@)
            &&& says_nothing_of(command.env, "WINEDLLOVERRIDES"@)
        },
{
    lemma_variable_names();
    the_override_comes_last(proton_overrides);
    the_override_comes_last(wine_overrides);
    plain_text_comes_through(merged(proton_overrides));
    plain_text_comes_through(merged(wine_overrides));
    let begun = start(paths, config, prepared, uri, proton_overrides, wine_overrides);
    if let Ok(command) = begun {
        let k: int = if config.allow_self_update {
            2
        } else {
            3
        };
        if config.native_shader_compiler {
            assert(command.env[k] == ("PROTON_DLL_OVERRIDES"@, named(merged(proton_overrides))));
            assert(command.env[k + 1] == ("WINEDLLOVERRIDES"@, named(merged(wine_overrides))));
            assert(says_once(
                command.env,
                "PROTON_DLL_OVERRIDES"@,
                named(merged(proton_overrides)),
            ));
            assert(says_once(command.env, "WINEDLLOVERRIDES"@, named(merged(wine_overrides))));
        }
    }
}

/// Whatever is started runs in its own directory, in the launcher's own wine prefix, and under the
/// Proton build that was prepared: the interpreter runs the script, which runs the program, with the
/// link last where there is one.
pub proof fn a_program_runs_under_proton(
    paths: Paths,
    config: ConfigView,
    prepared: PreparedView,
    uri: Option<Seq<char>>,
    proton_overrides: Option<Seq<char>>,
    wine_overrides: Option<Seq<char>>,
)
    ensures
        start(paths, config, prepared, uri, proton_overrides, wine_overrides) matches Ok(command)
            ==> {
            &&& command.program == prepared.python
            &&& command.args.take(3) == seq![prepared.script, "run"@, prepared.exe]
            &&& command.args.len() == (if uri is Some {
                4int
            } else {
                3int
            })
            &&& uri matches Some(uri) ==> unspelled(command.args[3]) == encode_utf8(uri) && (
            ordinary(uri) ==> command.args[3] == uri)
            &&& command.dir == Some(prepared.dir)
            &&& says_once(
                command.env,
                "STEAM_COMPAT_DATA_PATH"@,
                joined(paths.data@, "prefix"@),
            )
            &&& says_once(
                command.env,
                "STEAM_COMPAT_CLIENT_INSTALL_PATH"@,
                joined(paths.data@, "compat-client"@),
            )
            &&& if config.allow_self_update {
                says_nothing_of(command.env, "VORTEX_NO_UPDATE"@)
            } else {
                says_once(command.env, "VORTEX_NO_UPDATE"@, "1"@)
            }
        },
        start(paths, config, prepared, uri, proton_overrides, wine_overrides) is Err <==> (uri
            is Some && !launchable(
            uri->0,
            match prepared.target {
                Target::Game => "vortex://"@,
                Target::Studio => "vortex-studio://"@,
            },
        )),
{
    lemma_variable_names();
    let begun = start(paths, config, prepared, uri, proton_overrides, wine_overrides);
    if let Ok(command) = begun {
        assert(command.args.take(3) =~= seq![prepared.script, "run"@, prepared.exe]);
        assert(command.env[0] == ("STEAM_COMPAT_DATA_PATH"@, joined(paths.data@, "prefix"@)));
        assert(command.env[1] == (
            "STEAM_COMPAT_CLIENT_INSTALL_PATH"@,
            joined(paths.data@, "compat-client"@),
        ));
        if !config.allow_self_update {
            assert(command.env[2] == ("VORTEX_NO_UPDATE"@, "1"@));
        }
        if let Some(uri) = uri {
            plain_text_comes_through(uri);
            assert(command.args[3] == named(uri));
        }
    }
}

/// What is prepared is what was asked for, with the interpreter that comes first on the search path,
/// the script of the configured Proton build, and the directory that the program lies in; and nothing
/// is prepared unless all of it is there.
pub proof fn only_what_is_there_is_prepared(
    paths: Paths,
    config: ConfigView,
    target: Target,
    path: Option<Seq<char>>,
    disk: Disk,
)
    ensures
        preparation(paths, config, target, path, disk) matches Ok(prepared) ==> {
            let installed = match target {
                Target::Game => config.game,
                Target::Studio => config.studio,
            };
            &&& prepared.target == target
            &&& installed is Some && prepared.exe == installed->0.exe && disk.file(prepared.exe)
            &&& config.proton is Some && prepared.proton == config.proton->0.name
            &&& prepared.script == joined(config.proton->0.dir, "proton"@) && disk.file(
                prepared.script,
            )
            &&& path is Some && disk.file(prepared.python)
            &&& exists|i: int|
                0 <= i < on_path(path->0, "python3"@).len() && #[trigger] on_path(
                    path->0,
                    "python3"@,
                )[i] == prepared.python && forall|j: int|
                    0 <= j < i ==> !disk.file(#[trigger] on_path(path->0, "python3"@)[j])
            &&& parent_in(prepared.exe) is Some ==> prepared.dir == parent_in(prepared.exe)->0
            &&& prepared.log == joined(
                joined(paths.data@, "logs"@),
                match target {
                    Target::Game => "game.log"@,
                    Target::Studio => "studio.log"@,
                },
            )
        },
{
    if path is Some {
        let places = on_path(path->0, "python3"@);
        the_first_file_is_taken(disk, places);
        if preparation(paths, config, target, path, disk) is Ok {
            assert(exists|i: int| 0 <= i < places.len() && disk.file(#[trigger] places[i]));
            let i = lemma_first(disk, places, 0);
            assert(places[i] == crate::disk::first_file(disk, places, 0)->0);
        }
    }
}

proof fn lemma_first(disk: Disk, places: Seq<Seq<char>>, i: int) -> (j: int)
    requires
        0 <= i < places.len(),
        exists|j: int| i <= j < places.len() && disk.file(#[trigger] places[j]),
    ensures
        i <= j < places.len(),
        disk.file(places[j]),
        forall|k: int| i <= k < j ==> !disk.file(#[trigger] places[k]),
    decreases places.len() - i,
{
    if disk.file(places[i]) {
        i
    } else {
        lemma_first(disk, places, i + 1)
    }
}

/// Where something is missing, the first thing that is missing is named: the program, then Proton,
/// then the file of either, then the search path, then the interpreter.
pub proof fn the_first_thing_missing_is_named(
    paths: Paths,
    config: ConfigView,
    target: Target,
    path: Option<Seq<char>>,
    disk: Disk,
)
    ensures
        ({
            let name = match target {
                Target::Game => "Vortex"@,
                Target::Studio => "Vortex Studio"@,
            };
            let installed = match target {
                Target::Game => config.game,
                Target::Studio => config.studio,
            };
            let told = preparation(paths, config, target, path, disk);
            let script = joined(config.proton->0.dir, "proton"@);
            &&& installed is None ==> told == Err::<PreparedView, _>(
                failure(name + " is not installed yet"@),
            )
            &&& installed is Some && config.proton is None ==> told == Err::<PreparedView, _>(
                failure("Proton is not installed yet"@),
            )
            &&& installed is Some && config.proton is Some ==> {
                &&& !disk.file(installed->0.exe) ==> told == Err::<PreparedView, _>(
                    failure(legible(installed->0.exe) + " is missing, reinstall "@ + name),
                )
                &&& disk.file(installed->0.exe) && !disk.file(script) ==> told == Err::<
                    PreparedView,
                    _,
                >(failure(legible(script) + " is missing, reinstall Proton"@))
                &&& disk.file(installed->0.exe) && disk.file(script) ==> {
                    &&& path is None ==> told == Err::<PreparedView, _>(
                        failure("PATH is not set"@),
                    )
                    &&& path is Some ==> ((forall|i: int|
                        0 <= i < on_path(path->0, "python3"@).len() ==> !disk.file(
                            #[trigger] on_path(path->0, "python3"@)[i],
                        )) <==> told == Err::<PreparedView, _>(failure("python3 was not found."@)))
                    &&& path is Some && told is Err ==> told == Err::<PreparedView, _>(
                        failure("python3 was not found."@),
                    )
                }
            }
        }),
{
    if path is Some {
        let places = on_path(path->0, "python3"@);
        the_first_file_is_taken(disk, places);
        if exists|i: int| 0 <= i < places.len() && disk.file(#[trigger] places[i]) {
            let i = lemma_first(disk, places, 0);
        }
    }
}

/// Only the program that started or ended is shown as running or as not running. Of the rest of what
/// is shown, at most the error changes, and that only for a failure within twenty seconds; one line is
/// logged.
pub proof fn only_the_program_that_ended_is_shown_as_ended(
    shared: SharedView,
    target: Target,
    log: Seq<char>,
    exit: Exit,
    elapsed: u64,
)
    ensures
        ({
            let after = ended(shared, target, log, exit, elapsed).status;
            &&& target is Game ==> !after.game_running && after.studio_running
                == shared.status.studio_running
            &&& target is Studio ==> !after.studio_running && after.game_running
                == shared.status.game_running
            &&& after.error == if exit is Failed && elapsed < 20000 {
                Some(
                    (if target is Game {
                        "Vortex"@
                    } else {
                        "Vortex Studio"@
                    }) + " closed immediately (exit "@ + (match exit->code {
                        Some(code) => if code < 0 {
                            "-"@ + decimal((-code) as nat)
                        } else {
                            decimal(code as nat)
                        },
                        None => "a signal"@,
                    }) + "). Full output in "@ + legible(log),
                )
            } else {
                shared.status.error
            }
            &&& after == (StatusView {
                error: after.error,
                game_running: after.game_running,
                studio_running: after.studio_running,
                ..shared.status
            })
        }),
        ({
            let name = if target is Game {
                "Vortex"@
            } else {
                "Vortex Studio"@
            };
            ended(shared, target, log, exit, elapsed).lines == shared.lines.push(
                match exit {
                    Exit::Success => name + " exited"@,
                    Exit::Failed { status, .. } => name + " exited with "@ + status@,
                    Exit::Lost(reason) => "lost track of "@ + name + ": "@ + reason@,
                },
            )
        }),
        running(shared, Target::Game, true).status.game_running,
        running(shared, Target::Game, true).status.studio_running == shared.status.studio_running,
        running(shared, Target::Studio, true).status.studio_running,
        running(shared, Target::Studio, true).status.game_running == shared.status.game_running,
{
}

}
