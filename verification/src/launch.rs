//! Starting Vortex.exe under Proton, without Steam.
use vstd::prelude::*;
use vstd::utf8::encode_utf8;

pub mod laws;

use crate::auth::{is_launch_uri, is_studio_uri, launchable};
use crate::config::{Config, ConfigView, GameInstallView};
use crate::disk::{find_first_file, first_file, on_path, path_candidates, Disk};
use crate::error::{failure, said, CauseView, Error};
use crate::net::pairs;
use crate::paths::{join, joined, parent, parent_in, Paths};
use crate::shaders::OVERRIDE;
use crate::spelling::{
    as_name, legible, named, plain_text_comes_through, shown, unspelled,
};
use crate::state::{Shared, SharedView, StatusView};
use crate::text::{
    borrowed, decimal, decimal_text, text_in, texts, trim, trimmed, Class,
};

verus! {

broadcast use vstd::string::group_string_axioms;

/// A program to run: its arguments, what its environment has besides the launcher's own, and the
/// directory it runs in, where that matters. All are spelled as [`crate::spelling`] says.
#[derive(Debug)]
pub struct Command {
    pub program: String,
    pub args: Vec<String>,
    pub env: Vec<(String, String)>,
    pub dir: Option<String>,
}

/// What a [`Command`] says.
#[verifier::ext_equal]
pub struct CommandView {
    pub program: Seq<char>,
    pub args: Seq<Seq<char>>,
    pub env: Seq<(Seq<char>, Seq<char>)>,
    pub dir: Option<Seq<char>>,
}

impl View for Command {
    type V = CommandView;

    open spec fn view(&self) -> CommandView {
        CommandView {
            program: self.program@,
            args: texts(self.args@),
            env: pairs(self.env@),
            dir: text_in(self.dir),
        }
    }
}

impl Command {
    /// Runs `program`, with nothing else said.
    pub fn new(program: String) -> (command: Command)
        ensures
            command@ == (CommandView { program: program@, args: seq![], env: seq![], dir: None }),
    {
        let command = Command { program, args: Vec::new(), env: Vec::new(), dir: None };
        assert(command@.args =~= seq![]);
        assert(command@.env =~= seq![]);
        command
    }

    /// With one more argument.
    pub fn arg(&mut self, arg: &str)
        ensures
            final(self)@ == (CommandView { args: old(self)@.args.push(arg@), ..old(self)@ }),
    {
        self.args.push(arg.to_owned());
        assert(texts(self.args@) =~= texts(old(self).args@).push(arg@));
    }

    /// With one more variable in its environment.
    pub fn env(&mut self, name: &str, value: String)
        ensures
            final(self)@ == (CommandView {
                env: old(self)@.env.push((name@, value@)),
                ..old(self)@
            }),
    {
        self.env.push((name.to_owned(), value));
        assert(pairs(self.env@) =~= pairs(old(self).env@).push((name@, value@)));
    }
}

/// The interpreter that the proton script needs, going by the search path.
pub open spec fn interpreter(path: Option<Seq<char>>, disk: Disk) -> Result<
    Seq<char>,
    Seq<CauseView>,
> {
    match path {
        None => Err(failure("PATH is not set"@)),
        Some(path) => match first_file(disk, on_path(path, "python3"@), 0) {
            Some(python) => Ok(python),
            None => Err(failure("python3 was not found."@)),
        },
    }
}

/// The interpreter that the proton script needs, going by the search path.
pub fn python(path: Option<&str>, disk: &Disk) -> (python: Result<String, Error>)
    ensures
        said(python) == interpreter(borrowed(path), *disk),
{
    match path {
        None => Err(Error::says("PATH is not set")),
        Some(path) => match find_first_file(disk, &path_candidates(path, "python3")) {
            Some(python) => Ok(python),
            None => Err(Error::says("python3 was not found.")),
        },
    }
}

/// What can be started.
#[derive(Clone, Copy, Debug, PartialEq, Eq, Structural)]
pub enum Target {
    Game,
    Studio,
}

impl Target {
    /// What it is called.
    pub open spec fn called(self) -> Seq<char> {
        match self {
            Target::Game => "Vortex"@,
            Target::Studio => "Vortex Studio"@,
        }
    }

    /// What it is called.
    pub fn name(self) -> (name: &'static str)
        ensures
            name@ == self.called(),
    {
        match self {
            Target::Game => "Vortex",
            Target::Studio => "Vortex Studio",
        }
    }

    /// The file that its output goes to.
    pub open spec fn log_name(self) -> Seq<char> {
        match self {
            Target::Game => "game.log"@,
            Target::Studio => "studio.log"@,
        }
    }

    /// The file that its output goes to.
    pub fn log_file(self) -> (file: &'static str)
        ensures
            file@ == self.log_name(),
    {
        match self {
            Target::Game => "game.log",
            Target::Studio => "studio.log",
        }
    }

    /// What its links begin with.
    pub open spec fn scheme(self) -> Seq<char> {
        match self {
            Target::Game => "vortex://"@,
            Target::Studio => "vortex-studio://"@,
        }
    }

    /// Whether `uri` is a link that starts it.
    pub fn accepts(self, uri: &str) -> (b: bool)
        ensures
            b == launchable(uri@, self.scheme()),
    {
        match self {
            Target::Game => is_launch_uri(uri),
            Target::Studio => is_studio_uri(uri),
        }
    }

    /// Where it is installed.
    pub open spec fn program(self, config: ConfigView) -> Option<GameInstallView> {
        match self {
            Target::Game => config.game,
            Target::Studio => config.studio,
        }
    }
}

/// All that is needed to start a program is there.
#[derive(Debug)]
pub struct Prepared {
    pub target: Target,
    pub python: String,
    pub script: String,
    pub exe: String,
    pub dir: String,
    /// where its output goes
    pub log: String,
    pub proton: String,
}

/// What a [`Prepared`] says.
pub struct PreparedView {
    pub target: Target,
    pub python: Seq<char>,
    pub script: Seq<char>,
    pub exe: Seq<char>,
    pub dir: Seq<char>,
    pub log: Seq<char>,
    pub proton: Seq<char>,
}

impl View for Prepared {
    type V = PreparedView;

    open spec fn view(&self) -> PreparedView {
        PreparedView {
            target: self.target,
            python: self.python@,
            script: self.script@,
            exe: self.exe@,
            dir: self.dir@,
            log: self.log@,
            proton: self.proton@,
        }
    }
}

/// What starting a program takes, or the first thing that is missing.
pub open spec fn preparation(
    paths: Paths,
    config: ConfigView,
    target: Target,
    path: Option<Seq<char>>,
    disk: Disk,
) -> Result<PreparedView, Seq<CauseView>> {
    match (target.program(config), config.proton) {
        (None, _) => Err(failure(target.called() + " is not installed yet"@)),
        (Some(_), None) => Err(failure("Proton is not installed yet"@)),
        (Some(program), Some(proton)) => {
            let script = joined(proton.dir, "proton"@);
            if !disk.file(program.exe) {
                Err(failure(legible(program.exe) + " is missing, reinstall "@ + target.called()))
            } else if !disk.file(script) {
                Err(failure(legible(script) + " is missing, reinstall Proton"@))
            } else {
                match interpreter(path, disk) {
                    Err(reason) => Err(reason),
                    Ok(python) => Ok(
                        PreparedView {
                            target,
                            python,
                            script,
                            exe: program.exe,
                            dir: match parent_in(program.exe) {
                                Some(dir) => dir,
                                None => joined(paths.data@, "game"@),
                            },
                            log: joined(joined(paths.data@, "logs"@), target.log_name()),
                            proton: proton.name,
                        },
                    ),
                }
            }
        },
    }
}

/// What starting a program takes, or the first thing that is missing.
pub fn launch_target(
    paths: &Paths,
    config: &Config,
    target: Target,
    path: Option<&str>,
    disk: &Disk,
) -> (prepared: Result<Prepared, Error>)
    ensures
        said(prepared) == preparation(*paths, config@, target, borrowed(path), *disk),
{
    let installed = match target {
        Target::Game => &config.game,
        Target::Studio => &config.studio,
    };
    let program = match installed {
        Some(program) => program,
        None => {
            return Err(Error::new(target.name().to_owned().concat(" is not installed yet")));
        },
    };
    let proton = match &config.proton {
        Some(proton) => proton,
        None => {
            return Err(Error::says("Proton is not installed yet"));
        },
    };
    if !disk.is_file(program.exe.as_str()) {
        return Err(
            Error::new(
                shown(program.exe.as_str()).concat(" is missing, reinstall ").concat(
                    target.name(),
                ),
            ),
        );
    }
    let script = join(proton.dir.as_str(), "proton");
    if !disk.is_file(script.as_str()) {
        return Err(Error::new(shown(script.as_str()).concat(" is missing, reinstall Proton")));
    }
    let python = match python(path, disk) {
        Ok(python) => python,
        Err(reason) => {
            return Err(reason);
        },
    };
    let dir = match parent(program.exe.as_str()) {
        Some(dir) => dir,
        None => paths.game(),
    };
    Ok(
        Prepared {
            target,
            python,
            script,
            exe: program.exe.clone(),
            dir,
            log: join(paths.logs().as_str(), target.log_file()),
            proton: proton.name.clone(),
        },
    )
}

/// What starting the game takes, or the first thing that is missing.
pub fn launch(paths: &Paths, config: &Config, path: Option<&str>, disk: &Disk) -> (prepared: Result<
    Prepared,
    Error,
>)
    ensures
        said(prepared) == preparation(*paths, config@, Target::Game, borrowed(path), *disk),
{
    launch_target(paths, config, Target::Game, path, disk)
}

/// The launcher's override behind what a variable already holds, the last so that it wins.
pub open spec fn merged(existing: Option<Seq<char>>) -> Seq<char> {
    match existing {
        Some(existing) => if trimmed(existing, Class::Space).len() > 0 {
            existing + ";"@ + OVERRIDE@
        } else {
            OVERRIDE@
        },
        None => OVERRIDE@,
    }
}

/// The launcher's override behind what a variable already holds, the last so that it wins.
pub fn merge_overrides(existing: Option<&str>) -> (value: String)
    ensures
        value@ == merged(borrowed(existing)),
{
    match existing {
        Some(existing) => {
            let rest = trim(existing, Class::Space);
            if !crate::text::same_text(rest.as_str(), "") {
                proof {
                    reveal_strlit("");
                    assert(rest@.len() == 0 ==> rest@ =~= ""@);
                }
                existing.to_owned().concat(";").concat(OVERRIDE)
            } else {
                proof {
                    reveal_strlit("");
                }
                OVERRIDE.to_owned()
            }
        },
        None => OVERRIDE.to_owned(),
    }
}

/// The command that starts a prepared program with a link, where one is given and fits.
pub open spec fn start(
    paths: Paths,
    config: ConfigView,
    prepared: PreparedView,
    uri: Option<Seq<char>>,
    proton_overrides: Option<Seq<char>>,
    wine_overrides: Option<Seq<char>>,
) -> Result<CommandView, Seq<CauseView>> {
    if uri matches Some(uri) && !launchable(uri, prepared.target.scheme()) {
        Err(failure("that is not a launch link for "@ + prepared.target.called()))
    } else {
        Ok(
            CommandView {
                program: prepared.python,
                args: seq![prepared.script, "run"@, prepared.exe] + match uri {
                    Some(uri) => seq![named(uri)],
                    None => seq![],
                },
                env: seq![
                    ("STEAM_COMPAT_DATA_PATH"@, joined(paths.data@, "prefix"@)),
                    ("STEAM_COMPAT_CLIENT_INSTALL_PATH"@, joined(paths.data@, "compat-client"@)),
                ] + (if config.allow_self_update {
                    seq![]
                } else {
                    seq![("VORTEX_NO_UPDATE"@, "1"@)]
                }) + (if config.native_shader_compiler {
                    seq![
                        ("PROTON_DLL_OVERRIDES"@, named(merged(proton_overrides))),
                        ("WINEDLLOVERRIDES"@, named(merged(wine_overrides))),
                    ]
                } else {
                    seq![]
                }),
                dir: Some(prepared.dir),
            },
        )
    }
}

impl Prepared {
    /// The command that starts this program with a link, where one is given and fits. Proton
    /// rebuilds WINEDLLOVERRIDES and merges PROTON_DLL_OVERRIDES into it, so both are set, and what
    /// they hold is kept.
    pub fn command(
        &self,
        paths: &Paths,
        config: &Config,
        uri: Option<&str>,
        proton_overrides: Option<&str>,
        wine_overrides: Option<&str>,
    ) -> (command: Result<Command, Error>)
        ensures
            said(command) == start(
                *paths,
                config@,
                self@,
                borrowed(uri),
                borrowed(proton_overrides),
                borrowed(wine_overrides),
            ),
    {
        let mut command = Command::new(self.python.clone());
        command.arg(self.script.as_str());
        command.arg("run");
        command.arg(self.exe.as_str());
        if let Some(uri) = uri {
            if !self.target.accepts(uri) {
                return Err(
                    Error::new(
                        "that is not a launch link for ".to_owned().concat(self.target.name()),
                    ),
                );
            }
            command.arg(as_name(uri).as_str());
        }
        command.env("STEAM_COMPAT_DATA_PATH", paths.prefix());
        command.env("STEAM_COMPAT_CLIENT_INSTALL_PATH", paths.compat_client());
        if !config.allow_self_update {
            command.env("VORTEX_NO_UPDATE", "1".to_owned());
        }
        if config.native_shader_compiler {
            command.env(
                "PROTON_DLL_OVERRIDES",
                as_name(merge_overrides(proton_overrides).as_str()),
            );
            command.env(
                "WINEDLLOVERRIDES",
                as_name(merge_overrides(wine_overrides).as_str()),
            );
        }
        command.dir = Some(self.dir.clone());
        proof {
            let wanted = start(
                *paths,
                config@,
                self@,
                borrowed(uri),
                borrowed(proton_overrides),
                borrowed(wine_overrides),
            )->Ok_0;
            assert(command@.args =~= wanted.args);
            assert(command@.env =~= wanted.env);
        }
        Ok(command)
    }
}

/// With `target` shown as running, or as not running.
pub open spec fn running(shared: SharedView, target: Target, yes: bool) -> SharedView {
    shared.with(
        match target {
            Target::Game => StatusView { game_running: yes, ..shared.status },
            Target::Studio => StatusView { studio_running: yes, ..shared.status },
        },
    )
}

fn set_running(shared: &mut Shared, target: Target, yes: bool)
    ensures
        final(shared)@ == running(old(shared)@, target, yes),
{
    match target {
        Target::Game => {
            shared.status.game_running = yes;
        },
        Target::Studio => {
            shared.status.studio_running = yes;
        },
    }
}

/// Takes note that a prepared program runs.
pub fn launched(shared: &mut Shared, prepared: &Prepared)
    ensures
        final(shared)@ == running(
            old(shared)@.logged(
                "running "@ + prepared@.target.called() + " via "@ + prepared@.proton,
            ),
            prepared@.target,
            true,
        ),
{
    shared.log(
        "running ".to_owned().concat(prepared.target.name()).concat(" via ").concat(
            prepared.proton.as_str(),
        ),
    );
    set_running(shared, prepared.target, true);
}

/// How a program came to its end.
#[derive(Debug)]
pub enum Exit {
    Success,
    /// what the system says of it, and its exit code, where it was not a signal
    Failed { status: String, code: Option<i32> },
    /// it could not be waited for, for this reason
    Lost(String),
}

/// `n` in decimal.
pub open spec fn signed(n: i32) -> Seq<char> {
    if n < 0 {
        "-"@ + decimal((-n) as nat)
    } else {
        decimal(n as nat)
    }
}

fn signed_text(n: i32) -> (text: String)
    ensures
        text@ == signed(n),
{
    if n < 0 {
        let size: u64 = (-(n as i64)) as u64;
        "-".to_owned().concat(decimal_text(size).as_str())
    } else {
        decimal_text(n as u64)
    }
}

/// What is shown of a program that closed right after it started.
pub open spec fn closed_early(target: Target, code: Option<i32>, log: Seq<char>) -> Seq<char> {
    target.called() + " closed immediately (exit "@ + (match code {
        Some(code) => signed(code),
        None => "a signal"@,
    }) + "). Full output in "@ + legible(log)
}

/// What is shown and logged once a program came to its end `elapsed` milliseconds after its start.
/// Failing within twenty seconds means that it never opened.
pub open spec fn ended(
    shared: SharedView,
    target: Target,
    log: Seq<char>,
    exit: Exit,
    elapsed: u64,
) -> SharedView {
    let name = target.called();
    let told = match exit {
        Exit::Success => shared.logged(name + " exited"@),
        Exit::Failed { status, code } => {
            let logged = shared.logged(name + " exited with "@ + status@);
            if elapsed < 20000 {
                logged.with(
                    StatusView {
                        error: Some(closed_early(target, code, log)),
                        ..logged.status
                    },
                )
            } else {
                logged
            }
        },
        Exit::Lost(reason) => shared.logged("lost track of "@ + name + ": "@ + reason@),
    };
    running(told, target, false)
}

/// Takes note of how a program came to its end, `elapsed` milliseconds after its start.
pub fn exited(shared: &mut Shared, target: Target, log: &str, exit: Exit, elapsed: u64)
    ensures
        final(shared)@ == ended(old(shared)@, target, log@, exit, elapsed),
{
    match exit {
        Exit::Success => {
            shared.log(target.name().to_owned().concat(" exited"));
        },
        Exit::Failed { status, code } => {
            shared.log(
                target.name().to_owned().concat(" exited with ").concat(status.as_str()),
            );
            if elapsed < 20000 {
                let code = match code {
                    Some(code) => signed_text(code),
                    None => "a signal".to_owned(),
                };
                shared.status.error = Some(
                    target.name().to_owned().concat(" closed immediately (exit ").concat(
                        code.as_str(),
                    ).concat("). Full output in ").concat(shown(log).as_str()),
                );
            }
        },
        Exit::Lost(reason) => {
            shared.log(
                "lost track of ".to_owned().concat(target.name()).concat(": ").concat(
                    reason.as_str(),
                ),
            );
        },
    }
    set_running(shared, target, false);
}

/// Nothing but a link of its own scheme is ever handed to a program, and that as its last argument.
pub proof fn only_a_launch_link_is_handed_over(
    paths: Paths,
    config: ConfigView,
    prepared: PreparedView,
    uri: Option<Seq<char>>,
    proton_overrides: Option<Seq<char>>,
    wine_overrides: Option<Seq<char>>,
)
    requires
        start(paths, config, prepared, uri, proton_overrides, wine_overrides) is Ok,
    ensures
        ({
            let args = start(
                paths,
                config,
                prepared,
                uri,
                proton_overrides,
                wine_overrides,
            )->Ok_0.args;
            match uri {
                Some(uri) => launchable(uri, prepared.target.scheme()) && args.len() == 4
                    && args.last() == named(uri) && unspelled(args.last()) == encode_utf8(uri),
                None => args.len() == 3,
            }
        }),
{
    if let Some(uri) = uri {
        plain_text_comes_through(uri);
    }
}

/// The program is kept from updating itself if and only if the user turned that off.
pub proof fn updating_is_only_held_back_on_request(
    paths: Paths,
    config: ConfigView,
    prepared: PreparedView,
    uri: Option<Seq<char>>,
    proton_overrides: Option<Seq<char>>,
    wine_overrides: Option<Seq<char>>,
)
    requires
        start(paths, config, prepared, uri, proton_overrides, wine_overrides) is Ok,
    ensures
        start(
            paths,
            config,
            prepared,
            uri,
            proton_overrides,
            wine_overrides,
        )->Ok_0.env.contains(("VORTEX_NO_UPDATE"@, "1"@)) <==> !config.allow_self_update,
{
    reveal_strlit("VORTEX_NO_UPDATE");
    reveal_strlit("STEAM_COMPAT_DATA_PATH");
    reveal_strlit("STEAM_COMPAT_CLIENT_INSTALL_PATH");
    reveal_strlit("PROTON_DLL_OVERRIDES");
    reveal_strlit("WINEDLLOVERRIDES");
    let env = start(
        paths,
        config,
        prepared,
        uri,
        proton_overrides,
        wine_overrides,
    )->Ok_0.env;
    assert("VORTEX_NO_UPDATE"@.len() == 16);
    assert("WINEDLLOVERRIDES"@.len() == 16 && "WINEDLLOVERRIDES"@[0] == 'W');
    assert("VORTEX_NO_UPDATE"@[0] == 'V');
    if !config.allow_self_update {
        assert(env[2] == ("VORTEX_NO_UPDATE"@, "1"@));
    }
}

/// A program that failed only later than twenty seconds after its start, or that did not fail, leaves
/// the shown error as it is; whatever its end, it is no longer shown as running.
pub proof fn only_an_early_failure_is_shown(
    shared: SharedView,
    target: Target,
    log: Seq<char>,
    exit: Exit,
    elapsed: u64,
)
    ensures
        elapsed >= 20000 || !(exit is Failed) ==> ended(
            shared,
            target,
            log,
            exit,
            elapsed,
        ).status.error == shared.status.error,
        elapsed < 20000 && exit is Failed ==> ended(
            shared,
            target,
            log,
            exit,
            elapsed,
        ).status.error is Some,
        match target {
            Target::Game => !ended(shared, target, log, exit, elapsed).status.game_running,
            Target::Studio => !ended(shared, target, log, exit, elapsed).status.studio_running,
        },
{
}

}
