//! Optional native d3dcompiler_47.
//!
//! Vortex compiles its shaders at run time. Under Proton that goes through vkd3d-shader, which on
//! some GPUs rejects shaders that the real compiler accepts; the game then presents images it never
//! drew, which reads as a black screen with working audio. Microsoft's compiler in the prefix fixes
//! it. The library is not shipped with the launcher: winetricks fetches it.
use vstd::prelude::*;

pub mod laws;

use crate::config::{Config, ConfigView};
use crate::disk::{find_first_file, first_file, on_path, path_candidates, Disk};
use crate::error::{failure, settled, CauseView, Error};
use crate::launch::{Command, CommandView};
use crate::paths::{join, joined, renamed, with_file_name, Paths};
use crate::spelling::{legible, shown};
use crate::state::Shared;
use crate::text::{borrowed, lines, lines_in, text_in, texts};

verus! {

broadcast use vstd::string::group_string_axioms;

/// Native first, but builtin as a fallback, so that a half-finished install still starts.
pub const OVERRIDE: &'static str = "d3dcompiler_47=n,b";

/// Where Proton puts the wine prefix.
pub open spec fn wine_prefix(paths: Paths) -> Seq<char> {
    joined(joined(paths.data@, "prefix"@), "pfx"@)
}

/// Where Proton puts the wine prefix.
pub fn prefix(paths: &Paths) -> (dir: String)
    ensures
        dir@ == wine_prefix(*paths),
{
    join(paths.prefix().as_str(), "pfx")
}

/// What wine stamps into the libraries it ships itself.
pub open spec fn builtin_mark() -> Seq<u8> {
    seq![
        0x57, 0x69, 0x6e, 0x65, 0x20, 0x62, 0x75, 0x69, 0x6c, 0x74, 0x69, 0x6e, 0x20, 0x44, 0x4c,
        0x4c,
    ]
}

/// Whether the mark stands at `at`, inside the first block.
pub open spec fn marked_at(dll: Seq<u8>, at: int) -> bool {
    0 <= at && at + 16 <= dll.len() && at + 16 <= 4096 && dll.subrange(at, at + 16)
        == builtin_mark()
}

/// Whether a library is wine's own: the mark stands somewhere inside its first block.
pub open spec fn wine_builtin(dll: Seq<u8>) -> bool {
    exists|at: int| marked_at(dll, at)
}

/// Whether a library is wine's own.
pub fn is_wine_builtin(dll: &Vec<u8>) -> (b: bool)
    ensures
        b == wine_builtin(dll@),
{
    let mark: [u8; 16] = [
        0x57, 0x69, 0x6e, 0x65, 0x20, 0x62, 0x75, 0x69, 0x6c, 0x74, 0x69, 0x6e, 0x20, 0x44, 0x4c,
        0x4c,
    ];
    assert(mark@ =~= builtin_mark());
    let end: usize = if dll.len() < 4096 {
        dll.len()
    } else {
        4096
    };
    let mut at: usize = 0;
    while at < end && end - at >= 16
        invariant
            at <= end <= dll.len(),
            end <= 4096,
            dll.len() < 4096 ==> end == dll.len(),
            dll.len() >= 4096 ==> end == 4096,
            mark@ == builtin_mark(),
            forall|k: int| 0 <= k < at ==> !marked_at(dll@, k),
        decreases end - at,
    {
        let mut i: usize = 0;
        while i < 16 && dll[at + i] == mark[i as usize]
            invariant
                i <= 16,
                at + 16 <= end <= dll.len(),
                mark@.len() == 16,
                forall|k: int| 0 <= k < i ==> dll@[at + k] == mark@[k],
            decreases 16 - i,
        {
            i += 1;
        }
        if i == 16 {
            assert(dll@.subrange(at as int, at + 16) =~= builtin_mark());
            assert(marked_at(dll@, at as int));
            return true;
        }
        assert(!marked_at(dll@, at as int)) by {
            assert(dll@.subrange(at as int, at + 16)[i as int] == dll@[at + i]);
        }
        at += 1;
    }
    false
}

/// Where the compiler is in the prefix.
pub open spec fn compiler_file(paths: Paths) -> Seq<char> {
    joined(joined(wine_prefix(paths), "drive_c/windows/system32"@), "d3dcompiler_47.dll"@)
}

/// Where the compiler is in the prefix.
pub fn compiler(paths: &Paths) -> (file: String)
    ensures
        file@ == compiler_file(*paths),
{
    join(
        join(prefix(paths).as_str(), "drive_c/windows/system32").as_str(),
        "d3dcompiler_47.dll",
    )
}

/// Whether Microsoft's compiler is in the prefix. The file is always there, so that it exists is
/// not enough: it must not be wine's own.
pub open spec fn native(paths: Paths, disk: Disk) -> bool {
    disk.content(compiler_file(paths)) matches Some(dll) && !wine_builtin(dll)
}

/// Whether Microsoft's compiler is in the prefix.
pub fn is_installed(paths: &Paths, disk: &Disk) -> (b: bool)
    ensures
        b == native(*paths, *disk),
{
    match disk.read(compiler(paths).as_str()) {
        Some(dll) => !is_wine_builtin(dll),
        None => false,
    }
}

/// The wine programs that may belong to a Proton build.
pub open spec fn wine_places(proton: Seq<char>) -> Seq<Seq<char>> {
    seq![joined(proton, "files/bin/wine"@), joined(proton, "dist/bin/wine"@)]
}

/// The wine programs that may belong to a Proton build.
pub fn wine_candidates(proton: &str) -> (places: Vec<String>)
    ensures
        texts(places@) == wine_places(proton@),
{
    let mut places: Vec<String> = Vec::new();
    places.push(join(proton, "files/bin/wine"));
    places.push(join(proton, "dist/bin/wine"));
    assert(texts(places@) =~= wine_places(proton@));
    places
}

/// The wine program that belongs to a Proton build, so that no other version of wine touches the
/// prefix.
pub fn wine(proton: &str, disk: &Disk) -> (wine: Option<String>)
    ensures
        text_in(wine) == first_file(*disk, wine_places(proton@), 0),
{
    find_first_file(disk, &wine_candidates(proton))
}

/// Where winetricks is, going by the search path.
pub open spec fn winetricks_at(path: Option<Seq<char>>, disk: Disk) -> Option<Seq<char>> {
    match path {
        Some(path) => first_file(disk, on_path(path, "winetricks"@), 0),
        None => None,
    }
}

/// Where winetricks is, going by the search path.
pub fn winetricks(path: Option<&str>, disk: &Disk) -> (winetricks: Option<String>)
    ensures
        text_in(winetricks) == winetricks_at(borrowed(path), *disk),
{
    match path {
        Some(path) => find_first_file(disk, &path_candidates(path, "winetricks")),
        None => None,
    }
}

/// The command that installs the compiler with `winetricks`, by the wine program that is named.
pub open spec fn tricks(
    paths: Paths,
    winetricks: Seq<char>,
    wine: Option<Seq<char>>,
) -> CommandView {
    CommandView {
        program: winetricks,
        args: seq!["-q"@, "d3dcompiler_47"@],
        env: seq![("WINEPREFIX"@, wine_prefix(paths))] + match wine {
            Some(wine) => seq![
                ("WINESERVER"@, renamed(wine, "wineserver"@)),
                ("WINE"@, wine),
            ],
            None => seq![],
        },
        dir: None,
    }
}

/// What installing the compiler takes: nothing where it is there, else a command, or the first
/// thing that is missing.
pub open spec fn wanted(
    paths: Paths,
    config: ConfigView,
    path: Option<Seq<char>>,
    disk: Disk,
) -> Result<Option<CommandView>, Seq<CauseView>> {
    if native(paths, disk) {
        Ok(None)
    } else if !disk.directory(wine_prefix(paths)) {
        Err(
            failure(
                "the wine prefix does not exist yet, start Vortex once and then turn this on"@,
            ),
        )
    } else {
        match (winetricks_at(path, disk), config.proton) {
            (None, _) => Err(
                failure("winetricks is not installed, install it and try again"@),
            ),
            (Some(_), None) => Err(failure("Proton is not installed yet"@)),
            (Some(winetricks), Some(proton)) => Ok(
                Some(tricks(paths, winetricks, first_file(disk, wine_places(proton.dir), 0))),
            ),
        }
    }
}

/// What came of a step that may find nothing to do.
pub open spec fn found<T: View>(r: Result<Option<T>, Error>) -> Result<
    Option<T::V>,
    Seq<CauseView>,
> {
    match r {
        Ok(Some(t)) => Ok(Some(t@)),
        Ok(None) => Ok(None),
        Err(e) => Err(e@),
    }
}

/// What installing the compiler takes: nothing where it is there, else a command that is to be run,
/// or the first thing that is missing.
pub fn install(
    paths: &Paths,
    config: &Config,
    path: Option<&str>,
    disk: &Disk,
    shared: &mut Shared,
) -> (command: Result<Option<Command>, Error>)
    ensures
        found(command) == wanted(*paths, config@, borrowed(path), *disk),
        final(shared)@ == if command matches Ok(Some(_)) {
            old(shared)@.logged("installing native d3dcompiler_47 via winetricks"@)
        } else {
            old(shared)@
        },
{
    if is_installed(paths, disk) {
        return Ok(None);
    }
    let dir = prefix(paths);
    if !disk.is_dir(dir.as_str()) {
        return Err(
            Error::says(
                "the wine prefix does not exist yet, start Vortex once and then turn this on",
            ),
        );
    }
    let tool = match winetricks(path, disk) {
        Some(tool) => tool,
        None => {
            return Err(Error::says("winetricks is not installed, install it and try again"));
        },
    };
    let proton = match &config.proton {
        Some(proton) => proton,
        None => {
            return Err(Error::says("Proton is not installed yet"));
        },
    };
    shared.log("installing native d3dcompiler_47 via winetricks".to_owned());
    let own_wine = wine(proton.dir.as_str(), disk);
    let ghost expected = tricks(*paths, tool@, text_in(own_wine));
    let mut command = Command::new(tool);
    command.arg("-q");
    command.arg("d3dcompiler_47");
    command.env("WINEPREFIX", dir);
    if let Some(wine) = own_wine {
        command.env("WINESERVER", with_file_name(wine.as_str(), "wineserver"));
        command.env("WINE", wine);
    }
    assert(command@.args =~= expected.args);
    assert(command@.env =~= expected.env);
    Ok(Some(command))
}

/// Whether `char::is_alphanumeric` holds of a character.
pub uninterp spec fn alphanumeric(c: char) -> bool;

/// `char::is_alphanumeric`: it depends on the character alone. Which characters they are is
/// Unicode's to say.
#[verifier::external_body]
fn is_alphanumeric(c: char) -> (b: bool)
    ensures
        b == alphanumeric(c),
{
    c.is_alphanumeric()
}

/// Whether a line says anything.
pub open spec fn telling(line: Seq<char>) -> bool {
    exists|i: int| 0 <= i < line.len() && #[trigger] alphanumeric(line[i])
}

fn is_telling(line: &str) -> (b: bool)
    ensures
        b == telling(line@),
{
    let v = crate::text::chars_of(line);
    let mut i: usize = 0;
    while i < v.len()
        invariant
            i <= v.len(),
            v@ == line@,
            forall|k: int| 0 <= k < i ==> !#[trigger] alphanumeric(line@[k]),
        decreases v.len() - i,
    {
        if is_alphanumeric(v[i]) {
            assert(alphanumeric(line@[i as int]));
            return true;
        }
        i += 1;
    }
    false
}

/// The last of the first `n` lines that says anything.
pub open spec fn last_telling(lines: Seq<Seq<char>>, n: int) -> Option<Seq<char>>
    decreases n,
{
    if n <= 0 {
        None
    } else if telling(lines[n - 1]) {
        Some(lines[n - 1])
    } else {
        last_telling(lines, n - 1)
    }
}

/// The last line that says anything.
fn find_reason(stderr: &str) -> (reason: Option<String>)
    ensures
        text_in(reason) == last_telling(lines_in(stderr@, 0), lines_in(stderr@, 0).len() as int),
{
    let list = lines(stderr);
    let ghost all = texts(list@);
    let mut n: usize = list.len();
    while n > 0
        invariant
            n <= list.len(),
            all == texts(list@),
            all == lines_in(stderr@, 0),
            last_telling(all, all.len() as int) == last_telling(all, n as int),
        decreases n,
    {
        n -= 1;
        assert(all[n as int] == list@[n as int]@);
        if is_telling(list[n].as_str()) {
            return Some(list[n].clone());
        }
    }
    None
}

/// What winetricks left behind.
#[derive(Debug)]
pub struct Output {
    pub success: bool,
    pub stderr: String,
}

/// What a run of winetricks comes to, where `reason` is the last thing it said that says anything,
/// and `there` whether the compiler is in the prefix now.
pub open spec fn verdict(success: bool, reason: Option<Seq<char>>, there: bool) -> Result<
    (),
    Seq<CauseView>,
> {
    if !success {
        Err(
            failure(
                match reason {
                    Some(line) => "winetricks could not install d3dcompiler_47: "@ + line,
                    None => "winetricks could not install d3dcompiler_47"@,
                },
            ),
        )
    } else if !there {
        Err(failure("winetricks finished but d3dcompiler_47.dll is not in the prefix"@))
    } else {
        Ok(())
    }
}

/// Judges a run of winetricks, where `reason` is the last thing it said that says anything, and
/// `there` whether the compiler is in the prefix now.
pub fn judge(success: bool, reason: Option<String>, there: bool) -> (judged: Result<(), Error>)
    ensures
        settled(judged) == verdict(success, text_in(reason), there),
{
    if !success {
        let text = match reason {
            Some(line) => "winetricks could not install d3dcompiler_47: ".to_owned().concat(
                line.as_str(),
            ),
            None => "winetricks could not install d3dcompiler_47".to_owned(),
        };
        return Err(Error::new(text));
    }
    if !there {
        return Err(
            Error::says("winetricks finished but d3dcompiler_47.dll is not in the prefix"),
        );
    }
    Ok(())
}

/// What running winetricks, which is at `tool`, comes to.
pub open spec fn outcome(paths: Paths, tool: Seq<char>, ran: Result<Output, Error>, disk: Disk) -> Result<
    (),
    Seq<CauseView>,
> {
    match ran {
        Err(reason) => Err(failure("cannot run "@ + legible(tool)) + reason@),
        Ok(output) => {
            let all = lines_in(output.stderr@, 0);
            verdict(output.success, last_telling(all, all.len() as int), native(paths, disk))
        },
    }
}

/// Judges a run of winetricks, which is at `tool`, by what it left behind and what is on disk now.
pub fn installed(
    paths: &Paths,
    tool: &str,
    ran: Result<Output, Error>,
    disk: &Disk,
    shared: &mut Shared,
) -> (judged: Result<(), Error>)
    ensures
        settled(judged) == outcome(*paths, tool@, ran, *disk),
        final(shared)@ == if judged is Ok {
            old(shared)@.logged("native d3dcompiler_47 is in place"@)
        } else {
            old(shared)@
        },
{
    let output = match ran {
        Ok(output) => output,
        Err(reason) => {
            return Err(reason.context("cannot run ".to_owned().concat(shown(tool).as_str())));
        },
    };
    let judged = judge(
        output.success,
        find_reason(output.stderr.as_str()),
        is_installed(paths, disk),
    );
    if judged.is_ok() {
        shared.log("native d3dcompiler_47 is in place".to_owned());
    }
    judged
}

/// The compiler counts as installed only if a file is there that wine did not put there itself.
pub proof fn wine_own_library_does_not_count(paths: Paths, disk: Disk, at: int)
    requires
        disk.content(compiler_file(paths)) matches Some(dll) && marked_at(dll, at),
    ensures
        !native(paths, disk),
{
    assert(wine_builtin(disk.content(compiler_file(paths))->0));
}

/// A run of winetricks counts as a success only if the compiler is in the prefix afterwards.
pub proof fn success_means_the_compiler_is_there(
    paths: Paths,
    tool: Seq<char>,
    ran: Result<Output, Error>,
    disk: Disk,
)
    ensures
        outcome(paths, tool, ran, disk) is Ok ==> native(paths, disk),
{
}

}
