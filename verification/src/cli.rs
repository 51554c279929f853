//! The launcher without a window: what it is told on the command line, and what it prints.
use vstd::prelude::*;

pub mod laws;
pub mod opening;
pub mod picking;
pub mod signing;

use crate::auth::{is_launch_uri, is_studio_uri, launchable, Account, Game, GameView, Login};
use crate::config::{Config, ConfigView};
use crate::error::{failure, said, settled, CauseView, Error};
use crate::launch::Target;
use crate::paths::{same_path, same_place};
use crate::proton::{Build, BuildView};
use crate::session::Session;
use crate::sort::views;
use crate::spelling::{legible, shown};
use crate::text::{
    borrowed, decimal, decimal_text, lowered, parsed, same_ignoring_case, same_text, texts, trim,
    trim_end, trimmed, end_trimmed, Class,
};
use crate::worker::{describe, described};

verus! {

broadcast use vstd::string::group_string_axioms;

/// What the program says of itself.
pub const HELP: &'static str = "vortex-launcher-cli — headless Vortex launcher

USAGE:
    vortex-launcher-cli              start Vortex.exe (no game is joined)
    vortex-launcher-cli login        sign in to playvortex.io and store the session
    vortex-launcher-cli logout       forget the stored session
    vortex-launcher-cli whoami       show the signed-in account
    vortex-launcher-cli games        list games and player counts
    vortex-launcher-cli play <id>    launch straight into a game
    vortex-launcher-cli studio       install (first time) and open Vortex Studio
    vortex-launcher-cli proton       list Proton builds, installed and downloadable
    vortex-launcher-cli proton <name>  use that build, downloading it if needed
    vortex-launcher-cli vortex://…   open a link from the browser (no GUI)
    vortex-launcher-cli help         show this help

Installing Vortex and Proton still happens in the GUI (vortex-launcher).";

/// What the user wants.
#[derive(Debug)]
pub enum Order {
    /// start the game, without joining one
    Start,
    Login,
    Logout,
    Whoami,
    Games,
    Studio,
    ListProton,
    PickProton(String),
    Play(u64),
    Help,
    /// open a link in a running launcher, or else here
    Open(Target, String),
}

/// What an [`Order`] says.
pub enum OrderView {
    Start,
    Login,
    Logout,
    Whoami,
    Games,
    Studio,
    ListProton,
    PickProton(Seq<char>),
    Play(u64),
    Help,
    Open(Target, Seq<char>),
}

impl View for Order {
    type V = OrderView;

    open spec fn view(&self) -> OrderView {
        match self {
            Order::Start => OrderView::Start,
            Order::Login => OrderView::Login,
            Order::Logout => OrderView::Logout,
            Order::Whoami => OrderView::Whoami,
            Order::Games => OrderView::Games,
            Order::Studio => OrderView::Studio,
            Order::ListProton => OrderView::ListProton,
            Order::PickProton(name) => OrderView::PickProton(name@),
            Order::Play(id) => OrderView::Play(*id),
            Order::Help => OrderView::Help,
            Order::Open(target, uri) => OrderView::Open(*target, uri@),
        }
    }
}

/// What `str::parse` says of a text that is no number.
pub uninterp spec fn parse_complaint(text: Seq<char>) -> Seq<char>;

/// `str::parse::<u64>`: the number that an optional plus and digits write, where it fits; what its
/// error says of any other text depends on the text alone.
#[verifier::external_body]
fn parse_id(text: &str) -> (id: Result<u64, String>)
    ensures
        match id {
            Ok(id) => parsed(text@, u64::MAX as nat) == Some(id as nat),
            Err(complaint) => parsed(text@, u64::MAX as nat) is None && complaint@
                == parse_complaint(text@),
        },
{
    text.parse::<u64>().map_err(|e| e.to_string())
}

/// What a game id asks for, or what is said where it is none.
pub open spec fn play_order(id: Result<u64, Seq<char>>) -> Result<OrderView, Seq<CauseView>> {
    match id {
        Ok(id) => Ok(OrderView::Play(id)),
        Err(complaint) => Err(
            failure("the game id must be a number (see `games`)"@) + failure(complaint),
        ),
    }
}

/// What a game id asks for, or what is said where it is none.
pub fn order_play(id: Result<u64, String>) -> (order: Result<Order, Error>)
    ensures
        said(order) == play_order(
            match id {
                Ok(id) => Ok(id),
                Err(complaint) => Err(complaint@),
            },
        ),
{
    match id {
        Ok(id) => Ok(Order::Play(id)),
        Err(complaint) => Err(
            Error::new(complaint).context("the game id must be a number (see `games`)".to_owned()),
        ),
    }
}

/// What the words on the command line ask for.
pub open spec fn order_in(args: Seq<Seq<char>>) -> Result<OrderView, Seq<CauseView>> {
    if args.len() == 0 {
        Ok(OrderView::Start)
    } else {
        let first = args[0];
        if first == "login"@ {
            Ok(OrderView::Login)
        } else if first == "logout"@ {
            Ok(OrderView::Logout)
        } else if first == "whoami"@ {
            Ok(OrderView::Whoami)
        } else if first == "games"@ {
            Ok(OrderView::Games)
        } else if first == "studio"@ {
            Ok(OrderView::Studio)
        } else if first == "proton"@ {
            if args.len() == 1 {
                Ok(OrderView::ListProton)
            } else {
                Ok(OrderView::PickProton(args[1]))
            }
        } else if first == "play"@ {
            if args.len() == 1 {
                Err(failure("usage: vortex-launcher-cli play <game-id>"@))
            } else {
                play_order(
                    match parsed(args[1], u64::MAX as nat) {
                        Some(id) => Ok(id as u64),
                        None => Err(parse_complaint(args[1])),
                    },
                )
            }
        } else if first == "help"@ || first == "--help"@ || first == "-h"@ {
            Ok(OrderView::Help)
        } else if launchable(first, "vortex://"@) {
            Ok(OrderView::Open(Target::Game, first))
        } else if launchable(first, "vortex-studio://"@) {
            Ok(OrderView::Open(Target::Studio, first))
        } else {
            Err(failure("unknown command `"@ + first + "`\n\n"@ + HELP@))
        }
    }
}

/// What the words on the command line ask for.
pub fn run(args: &Vec<String>) -> (order: Result<Order, Error>)
    ensures
        said(order) == order_in(texts(args@)),
{
    let ghost all = texts(args@);
    assert(all.len() == args@.len());
    if args.len() == 0 {
        return Ok(Order::Start);
    }
    assert(all[0] == args@[0]@);
    let first = args[0].as_str();
    if same_text(first, "login") {
        Ok(Order::Login)
    } else if same_text(first, "logout") {
        Ok(Order::Logout)
    } else if same_text(first, "whoami") {
        Ok(Order::Whoami)
    } else if same_text(first, "games") {
        Ok(Order::Games)
    } else if same_text(first, "studio") {
        Ok(Order::Studio)
    } else if same_text(first, "proton") {
        if args.len() == 1 {
            Ok(Order::ListProton)
        } else {
            assert(all[1] == args@[1]@);
            Ok(Order::PickProton(args[1].clone()))
        }
    } else if same_text(first, "play") {
        if args.len() == 1 {
            Err(Error::says("usage: vortex-launcher-cli play <game-id>"))
        } else {
            assert(all[1] == args@[1]@);
            order_play(parse_id(args[1].as_str()))
        }
    } else if same_text(first, "help") || same_text(first, "--help") || same_text(first, "-h") {
        Ok(Order::Help)
    } else if is_launch_uri(first) {
        Ok(Order::Open(Target::Game, first.to_owned()))
    } else if is_studio_uri(first) {
        Ok(Order::Open(Target::Studio, first.to_owned()))
    } else {
        Err(
            Error::new(
                "unknown command `".to_owned().concat(first).concat("`\n\n").concat(HELP),
            ),
        )
    }
}

/// As many spaces.
pub open spec fn spaces(n: int) -> Seq<char> {
    Seq::new(
        if n > 0 {
            n as nat
        } else {
            0
        },
        |i: int| ' ',
    )
}

/// `s` with spaces behind it, at least `n` characters.
pub open spec fn padded(s: Seq<char>, n: int) -> Seq<char> {
    s + spaces(n - s.len())
}

/// `s` with spaces before it, at least `n` characters.
pub open spec fn indented(s: Seq<char>, n: int) -> Seq<char> {
    spaces(n - s.len()) + s
}

fn blanks(s: &str, n: usize) -> (blanks: String)
    ensures
        blanks@ == spaces(n - s@.len()),
{
    let v = crate::text::chars_of(s);
    let mut blanks = String::new();
    let mut i: usize = v.len();
    assert(blanks@ =~= spaces(0));
    while i < n
        invariant
            v@ == s@,
            v.len() <= i,
            i <= n || i == v.len(),
            blanks@ == spaces(i - s@.len()),
        decreases n - i,
    {
        blanks.push(' ');
        i += 1;
        assert(blanks@ =~= spaces(i - s@.len()));
    }
    assert(blanks@ =~= spaces(n - s@.len()));
    blanks
}

fn pad(s: &str, n: usize) -> (t: String)
    ensures
        t@ == padded(s@, n as int),
{
    s.to_owned().concat(blanks(s, n).as_str())
}

fn indent(s: &str, n: usize) -> (t: String)
    ensures
        t@ == indented(s@, n as int),
{
    blanks(s, n).concat(s)
}

/// A version as it is printed.
pub open spec fn version(v: (u32, u32)) -> Seq<char> {
    decimal(v.0 as nat) + "."@ + decimal(v.1 as nat)
}

fn version_text(v: (u32, u32)) -> (text: String)
    ensures
        text@ == version(v),
{
    decimal_text(v.0 as u64).concat(".").concat(decimal_text(v.1 as u64).as_str())
}

/// The line about the host.
pub open spec fn host_line(host: Option<(u32, u32)>) -> Seq<char> {
    match host {
        Some(v) => "system glibc "@ + version(v) + "\n"@,
        None => "cannot tell which glibc this system has\n"@,
    }
}

/// The line about a build: the one in use is marked, and one that cannot be loaded is told apart.
pub open spec fn build_line(build: BuildView, current: Option<Seq<char>>, host: Option<(u32, u32)>) -> Seq<
    char,
> {
    let mark = if current matches Some(dir) && same_place(dir, build.dir) {
        "*"@
    } else {
        " "@
    };
    let source = match build.source {
        crate::config::ProtonSource::System => "steam"@,
        crate::config::ProtonSource::Managed => "launcher"@,
    };
    let note = match (build.runs(host), build.needs_glibc) {
        (false, Some(v)) => "  needs glibc "@ + version(v) + ", too new for this system"@,
        _ => ""@,
    };
    mark + " "@ + padded(build.name, 24) + " "@ + source + note
}

fn build_text(build: &Build, current: Option<&str>, host: Option<(u32, u32)>) -> (line: String)
    ensures
        line@ == build_line(build@, borrowed(current), host),
{
    let in_use = match current {
        Some(dir) => same_path(dir, build.dir.as_str()),
        None => false,
    };
    let mark = if in_use {
        "*"
    } else {
        " "
    };
    let source = match build.source {
        crate::config::ProtonSource::System => "steam",
        crate::config::ProtonSource::Managed => "launcher",
    };
    let note = match (build.runs_here(host), build.needs_glibc) {
        (false, Some(v)) => "  needs glibc ".to_owned().concat(version_text(v).as_str()).concat(
            ", too new for this system",
        ),
        _ => "".to_owned(),
    };
    mark.to_owned().concat(" ").concat(pad(build.name.as_str(), 24).as_str()).concat(" ").concat(
        source,
    ).concat(note.as_str())
}

/// Whether a build is called `name`.
pub open spec fn is_there(builds: Seq<BuildView>, name: Seq<char>) -> bool {
    exists|i: int| 0 <= i < builds.len() && (#[trigger] builds[i]).name == name
}

fn has_build(builds: &Vec<Build>, name: &str) -> (b: bool)
    ensures
        b == is_there(views(builds@), name@),
{
    let ghost all = views(builds@);
    let mut i: usize = 0;
    while i < builds.len()
        invariant
            i <= builds.len(),
            all == views(builds@),
            forall|k: int| 0 <= k < i ==> (#[trigger] all[k]).name != name@,
        decreases builds.len() - i,
    {
        assert(all[i as int] == builds@[i as int]@);
        if same_text(builds[i].name.as_str(), name) {
            return true;
        }
        i += 1;
    }
    false
}

/// The lines about the releases, from the `i`th on, that are not there.
pub open spec fn missing_lines(tags: Seq<Seq<char>>, builds: Seq<BuildView>, i: int) -> Seq<Seq<char>>
    decreases tags.len() - i,
{
    if i >= tags.len() {
        seq![]
    } else if is_there(builds, tags[i]) {
        missing_lines(tags, builds, i + 1)
    } else {
        seq!["  "@ + tags[i]] + missing_lines(tags, builds, i + 1)
    }
}

/// What is printed about the releases that can be had. That the network fails is not fatal.
pub open spec fn release_lines(
    tags: Result<Seq<Seq<char>>, Seq<CauseView>>,
    builds: Seq<BuildView>,
) -> Seq<Seq<char>> {
    match tags {
        Ok(tags) => {
            let missing = missing_lines(tags, builds, 0);
            if missing.len() > 0 {
                seq!["\nnot downloaded:"@] + missing
            } else {
                seq![]
            }
        },
        Err(causes) => seq![
            "\ncannot reach GitHub for the release list: "@ + described(causes),
        ],
    }
}

/// What is printed about the Proton builds.
pub open spec fn proton_lines(
    builds: Seq<BuildView>,
    current: Option<Seq<char>>,
    host: Option<(u32, u32)>,
    tags: Result<Seq<Seq<char>>, Seq<CauseView>>,
) -> Seq<Seq<char>> {
    seq![host_line(host)] + builds.map_values(|build: BuildView| build_line(build, current, host))
        + release_lines(tags, builds) + seq![
        "\n* is the one in use. pick another with: vortex-launcher-cli proton <name>"@,
    ]
}

/// What is printed about the Proton builds: those that are there, and the releases that are not.
pub fn list_proton(
    builds: &Vec<Build>,
    current: Option<&str>,
    host: Option<(u32, u32)>,
    tags: Result<Vec<String>, Error>,
) -> (lines: Vec<String>)
    ensures
        texts(lines@) == proton_lines(
            views(builds@),
            borrowed(current),
            host,
            crate::proton::release::listed(tags),
        ),
{
    let ghost all = views(builds@);
    let ghost f = |build: BuildView| build_line(build, borrowed(current), host);
    let mut lines: Vec<String> = Vec::new();
    lines.push(
        match host {
            Some(v) => "system glibc ".to_owned().concat(version_text(v).as_str()).concat("\n"),
            None => "cannot tell which glibc this system has\n".to_owned(),
        },
    );
    let ghost first = seq![host_line(host)];
    assert(texts(lines@) =~= first + all.take(0).map_values(f));
    let mut i: usize = 0;
    while i < builds.len()
        invariant
            i <= builds.len(),
            all == views(builds@),
            f == |build: BuildView| build_line(build, borrowed(current), host),
            texts(lines@) == first + all.take(i as int).map_values(f),
        decreases builds.len() - i,
    {
        let ghost before = texts(lines@);
        assert(all[i as int] == builds@[i as int]@);
        lines.push(build_text(&builds[i], current, host));
        assert(texts(lines@) =~= before.push(f(all[i as int])));
        assert(all.take(i + 1).map_values(f) =~= all.take(i as int).map_values(f).push(
            f(all[i as int]),
        ));
        i += 1;
        assert(texts(lines@) =~= first + all.take(i as int).map_values(f));
    }
    assert(all.take(i as int) =~= all);
    let ghost second = texts(lines@);
    match &tags {
        Ok(tags) => {
            let mut missing = find_missing(tags, builds);
            if missing.len() > 0 {
                lines.push("\nnot downloaded:".to_owned());
                let ghost rest = texts(missing@);
                lines.append(&mut missing);
                assert(texts(lines@) =~= second + (seq!["\nnot downloaded:"@] + rest));
            } else {
                assert(texts(lines@) =~= second + seq![]);
            }
        },
        Err(err) => {
            lines.push(
                "\ncannot reach GitHub for the release list: ".to_owned().concat(
                    describe(err).as_str(),
                ),
            );
            assert(texts(lines@) =~= second + seq![
                "\ncannot reach GitHub for the release list: "@ + described(err@),
            ]);
        },
    }
    let ghost third = texts(lines@);
    lines.push(
        "\n* is the one in use. pick another with: vortex-launcher-cli proton <name>".to_owned(),
    );
    assert(texts(lines@) =~= third + seq![
        "\n* is the one in use. pick another with: vortex-launcher-cli proton <name>"@,
    ]);
    lines
}

fn find_missing(tags: &Vec<String>, builds: &Vec<Build>) -> (lines: Vec<String>)
    ensures
        texts(lines@) == missing_lines(texts(tags@), views(builds@), 0),
{
    let ghost all = texts(tags@);
    let ghost there = views(builds@);
    let mut lines: Vec<String> = Vec::new();
    let mut i: usize = 0;
    assert(texts(lines@) + missing_lines(all, there, 0) =~= missing_lines(all, there, 0));
    while i < tags.len()
        invariant
            i <= tags.len(),
            all == texts(tags@),
            there == views(builds@),
            texts(lines@) + missing_lines(all, there, i as int) == missing_lines(all, there, 0),
        decreases tags.len() - i,
    {
        let ghost before = texts(lines@);
        assert(all[i as int] == tags@[i as int]@);
        if !has_build(builds, tags[i].as_str()) {
            lines.push("  ".to_owned().concat(tags[i].as_str()));
            let ghost line = "  "@ + all[i as int];
            assert(texts(lines@) =~= before.push(line));
            assert(before.push(line) + missing_lines(all, there, i + 1) =~= before + (seq![line]
                + missing_lines(all, there, i + 1)));
        }
        i += 1;
    }
    assert(texts(lines@) + missing_lines(all, there, i as int) =~= texts(lines@));
    lines
}

/// The first build from the `i`th on that is called `name`.
pub open spec fn exactly(builds: Seq<BuildView>, name: Seq<char>, i: int) -> Option<BuildView>
    decreases builds.len() - i,
{
    if i >= builds.len() {
        None
    } else if builds[i].name == name {
        Some(builds[i])
    } else {
        exactly(builds, name, i + 1)
    }
}

/// The first build from the `i`th on that is called `name` but for the case of letters.
pub open spec fn loosely(builds: Seq<BuildView>, name: Seq<char>, i: int) -> Option<BuildView>
    decreases builds.len() - i,
{
    if i >= builds.len() {
        None
    } else if lowered(builds[i].name) == lowered(name) {
        Some(builds[i])
    } else {
        loosely(builds, name, i + 1)
    }
}

/// The build that `name` means: the one that is called so, or else one that is but for the case of
/// letters.
pub open spec fn meant(builds: Seq<BuildView>, name: Seq<char>) -> Option<BuildView> {
    match exactly(builds, name, 0) {
        Some(build) => Some(build),
        None => loosely(builds, name, 0),
    }
}

/// What is in an optional build.
pub open spec fn build_in(build: Option<Build>) -> Option<BuildView> {
    match build {
        Some(build) => Some(build@),
        None => None,
    }
}

/// The build that `name` means; where there is none, it is taken for a release to be downloaded.
pub fn pick_proton(builds: &Vec<Build>, name: &str) -> (build: Option<Build>)
    ensures
        build_in(build) == meant(views(builds@), name@),
{
    let ghost all = views(builds@);
    let mut i: usize = 0;
    while i < builds.len()
        invariant
            i <= builds.len(),
            all == views(builds@),
            exactly(all, name@, 0) == exactly(all, name@, i as int),
        decreases builds.len() - i,
    {
        assert(all[i as int] == builds@[i as int]@);
        if same_text(builds[i].name.as_str(), name) {
            return Some(builds[i].clone());
        }
        i += 1;
    }
    let mut i: usize = 0;
    while i < builds.len()
        invariant
            i <= builds.len(),
            all == views(builds@),
            loosely(all, name@, 0) == loosely(all, name@, i as int),
            exactly(all, name@, 0) is None,
        decreases builds.len() - i,
    {
        assert(all[i as int] == builds@[i as int]@);
        if same_ignoring_case(builds[i].name.as_str(), name) {
            return Some(builds[i].clone());
        }
        i += 1;
    }
    None
}

/// The first build from the `i`th on that is in `dir`.
pub open spec fn placed_in(builds: Seq<BuildView>, dir: Seq<char>, i: int) -> Option<BuildView>
    decreases builds.len() - i,
{
    if i >= builds.len() {
        None
    } else if same_place(builds[i].dir, dir) {
        Some(builds[i])
    } else {
        placed_in(builds, dir, i + 1)
    }
}

fn find_placed(builds: &Vec<Build>, dir: &str) -> (build: Option<Build>)
    ensures
        build_in(build) == placed_in(views(builds@), dir@, 0),
{
    let ghost all = views(builds@);
    let mut i: usize = 0;
    while i < builds.len()
        invariant
            i <= builds.len(),
            all == views(builds@),
            placed_in(all, dir@, 0) == placed_in(all, dir@, i as int),
        decreases builds.len() - i,
    {
        assert(all[i as int] == builds@[i as int]@);
        if same_path(builds[i].dir.as_str(), dir) {
            return Some(builds[i].clone());
        }
        i += 1;
    }
    None
}

/// What is said where a build is neither there nor can be downloaded.
pub(crate) fn unknown_build(name: &str, reason: Error) -> (error: Error)
    ensures
        error@ == failure("no Proton called `"@ + name@ + "` (see `vortex-launcher-cli proton`)"@)
            + reason@,
{
    reason.context(
        "no Proton called `".to_owned().concat(name).concat("` (see `vortex-launcher-cli proton`)"),
    )
}

/// The build that was just downloaded as `name` and lies in `dir`, or why there is none.
pub fn downloaded(builds: &Vec<Build>, name: &str, dir: Result<&str, Error>) -> (build: Result<
    Build,
    Error,
>)
    ensures
        said(build) == (match dir {
            Err(reason) => Err(
                failure(
                    "no Proton called `"@ + name@ + "` (see `vortex-launcher-cli proton`)"@,
                ) + reason@,
            ),
            Ok(dir) => match placed_in(views(builds@), dir@, 0) {
                Some(build) => Ok(build),
                None => Err(failure("the build vanished right after being installed"@)),
            },
        }),
{
    match dir {
        Ok(dir) => match find_placed(builds, dir) {
            Some(build) => Ok(build),
            None => Err(Error::says("the build vanished right after being installed")),
        },
        Err(reason) => Err(unknown_build(name, reason)),
    }
}

/// What is printed once a build is in use.
pub open spec fn picked_lines(build: BuildView, host: Option<(u32, u32)>) -> Seq<Seq<char>> {
    seq!["now using "@ + build.name] + match (build.runs(host), build.needs_glibc) {
        (false, Some(v)) => seq![
            "warning: it needs glibc "@ + version(v)
                + ", newer than this system, the game will not start"@,
        ],
        _ => seq![],
    }
}

/// Puts a build to use in the configuration; what is printed of it.
pub fn use_build(config: &mut Config, build: &Build, host: Option<(u32, u32)>) -> (lines: Vec<
    String,
>)
    ensures
        final(config)@ == (ConfigView {
            proton: Some(build@.installed()),
            proton_wanted: None,
            ..old(config)@
        }),
        texts(lines@) == picked_lines(build@, host),
{
    config.proton_wanted = None;
    config.proton = Some(build.install());
    let mut lines: Vec<String> = Vec::new();
    lines.push("now using ".to_owned().concat(build.name.as_str()));
    match (build.runs_here(host), build.needs_glibc) {
        (false, Some(v)) => {
            lines.push(
                "warning: it needs glibc ".to_owned().concat(version_text(v).as_str()).concat(
                    ", newer than this system, the game will not start",
                ),
            );
        },
        _ => {},
    }
    assert(texts(lines@) =~= picked_lines(build@, host));
    lines
}

/// The token that the second step of a login gave: no third step is taken.
pub fn login(second: Login) -> (token: Result<String, Error>)
    ensures
        match second {
            Login::Done(done) => token matches Ok(token) && token@ == done@,
            Login::Needs2fa(_) => token matches Err(e) && e@ == failure(
                "the server asked for 2FA twice, try again"@,
            ),
        },
{
    match second {
        Login::Done(token) => Ok(token),
        Login::Needs2fa(_) => Err(Error::says("the server asked for 2FA twice, try again")),
    }
}

/// The session of an account, and what is printed once it is stored.
pub fn signed_in(token: String, account: Account) -> (signed: (Session, String))
    ensures
        signed.0.token@ == token@,
        signed.0.username@ == account.username@,
        signed.0.user_id == account.id,
        signed.1@ == "signed in as "@ + account.username@,
{
    let line = "signed in as ".to_owned().concat(account.username.as_str());
    (Session { token, username: account.username, user_id: account.id }, line)
}

/// The stored session, where there is one.
pub fn stored(session: Option<Session>) -> (session_or: Result<Session, Error>)
    ensures
        match session {
            Some(session) => session_or == Ok::<_, Error>(session),
            None => session_or matches Err(e) && e@ == failure("not signed in, run `login`"@),
        },
{
    match session {
        Some(session) => Ok(session),
        None => Err(Error::says("not signed in, run `login`")),
    }
}

/// What is printed about the account of a stored session, which was looked up with this result.
pub fn whoami(session: &Session, account: Result<Account, Error>) -> (line: Result<String, Error>)
    ensures
        said(line) == (match account {
            Ok(account) => Ok(
                account.username@ + " (id "@ + decimal(account.id as nat) + ")"@,
            ),
            Err(reason) => Err(
                failure(
                    "stored session for "@ + session.username@ + " no longer works: "@ + described(
                        reason@,
                    ),
                ),
            ),
        }),
{
    match account {
        Ok(account) => Ok(
            account.username.concat(" (id ").concat(decimal_text(account.id).as_str()).concat(")"),
        ),
        Err(reason) => Err(
            Error::new(
                "stored session for ".to_owned().concat(session.username.as_str()).concat(
                    " no longer works: ",
                ).concat(describe(&reason).as_str()),
            ),
        ),
    }
}

/// The line about a game.
pub open spec fn game_line(game: GameView) -> Seq<char> {
    indented(decimal(game.id as nat), 6) + "  "@ + padded(game.name, 30) + " "@ + decimal(
        game.players as nat,
    ) + " playing"@
}

/// What is printed about the games.
pub fn games(list: &Vec<Game>) -> (lines: Vec<String>)
    ensures
        texts(lines@) == (if list@.len() == 0 {
            seq!["no games listed right now"@]
        } else {
            views(list@).map_values(|game: GameView| game_line(game))
        }),
{
    let mut lines: Vec<String> = Vec::new();
    if list.len() == 0 {
        lines.push("no games listed right now".to_owned());
        assert(texts(lines@) =~= seq!["no games listed right now"@]);
        return lines;
    }
    let mut i: usize = 0;
    while i < list.len()
        invariant
            i <= list.len(),
            lines@.len() == i,
            forall|j: int| 0 <= j < i ==> #[trigger] lines@[j]@ == game_line(list@[j]@),
        decreases list.len() - i,
    {
        let game = &list[i];
        lines.push(
            indent(decimal_text(game.id).as_str(), 6).concat("  ").concat(
                pad(game.name.as_str(), 30).as_str(),
            ).concat(" ").concat(decimal_text(game.players).as_str()).concat(" playing"),
        );
        i += 1;
    }
    assert(texts(lines@) =~= views(list@).map_values(|game: GameView| game_line(game)));
    lines
}

/// Whether a program can be started from here, or what is to be done before.
pub open spec fn startable(config: ConfigView, target: Target) -> Result<(), Seq<CauseView>> {
    if config.proton is None {
        Err(
            failure(
                "Proton is not installed yet, run the GUI (vortex-launcher) once to install"@,
            ),
        )
    } else {
        match target {
            Target::Game => if config.game is None {
                Err(
                    failure(
                        "Vortex is not installed yet, run the GUI (vortex-launcher) once to install"@,
                    ),
                )
            } else {
                Ok(())
            },
            Target::Studio => if config.studio is None {
                Err(
                    failure(
                        "Vortex Studio is not installed yet, run `vortex-launcher-cli studio` first"@,
                    ),
                )
            } else {
                Ok(())
            },
        }
    }
}

/// Whether a program can be started from here, or what is to be done before.
pub fn launch_program(config: &Config, target: Target) -> (startable_or: Result<(), Error>)
    ensures
        settled(startable_or) == startable(config@, target),
{
    if config.proton.is_none() {
        return Err(
            Error::says(
                "Proton is not installed yet, run the GUI (vortex-launcher) once to install",
            ),
        );
    }
    match target {
        Target::Game => if config.game.is_none() {
            return Err(
                Error::says(
                    "Vortex is not installed yet, run the GUI (vortex-launcher) once to install",
                ),
            );
        },
        Target::Studio => if config.studio.is_none() {
            return Err(
                Error::says(
                    "Vortex Studio is not installed yet, run `vortex-launcher-cli studio` first",
                ),
            );
        },
    }
    Ok(())
}

/// Whether the studio can be opened, for which Proton has to be there.
pub fn open_studio(config: &Config) -> (openable: Result<(), Error>)
    ensures
        settled(openable) == (if config@.proton is None {
            Err(
                failure(
                    "Proton is not installed yet, run the GUI (vortex-launcher) once to install"@,
                ),
            )
        } else {
            Ok(())
        }),
{
    if config.proton.is_none() {
        Err(
            Error::says(
                "Proton is not installed yet, run the GUI (vortex-launcher) once to install",
            ),
        )
    } else {
        Ok(())
    }
}

/// What a program is called in what is printed.
pub open spec fn plainly(target: Target) -> Seq<char> {
    match target {
        Target::Game => "vortex"@,
        Target::Studio => "vortex studio"@,
    }
}

fn plain_name(target: Target) -> (name: &'static str)
    ensures
        name@ == plainly(target),
{
    match target {
        Target::Game => "vortex",
        Target::Studio => "vortex studio",
    }
}

/// What is printed once a program runs whose output goes to `log`.
pub fn running_line(target: Target, log: &str) -> (line: String)
    ensures
        line@ == plainly(target) + " is running (output in "@ + legible(log@) + ")"@,
{
    plain_name(target).to_owned().concat(" is running (output in ").concat(
        shown(log).as_str(),
    ).concat(")")
}

/// How a program that was started from here goes on.
#[derive(Debug)]
pub enum Watch {
    /// it still runs
    On,
    /// it came to its end, and this is printed
    Exited(String),
    Failed(Error),
}

/// How a program goes on, going by whether it is shown as running, and by the error that is shown.
pub fn launch_with(target: Target, running: bool, error: Option<String>) -> (watch: Watch)
    ensures
        match error {
            Some(error) => watch matches Watch::Failed(e) && e@ == failure(error@),
            None => if running {
                watch is On
            } else {
                watch matches Watch::Exited(line) && line@ == plainly(target) + " exited"@
            },
        },
{
    match error {
        Some(error) => Watch::Failed(Error::new(error)),
        None => if running {
            Watch::On
        } else {
            Watch::Exited(plain_name(target).to_owned().concat(" exited"))
        },
    }
}

fn entered(value: String) -> (entry: Result<String, Error>)
    ensures
        said(entry) == (if value@.len() == 0 {
            Err(failure("nothing entered"@))
        } else {
            Ok(value@)
        }),
{
    proof {
        reveal_strlit("");
        assert(value@.len() == 0 ==> value@ =~= ""@);
    }
    if same_text(value.as_str(), "") {
        Err(Error::says("nothing entered"))
    } else {
        Ok(value)
    }
}

/// What the user entered, without the white space around it.
pub fn prompt(line: &str) -> (entry: Result<String, Error>)
    ensures
        said(entry) == (if trimmed(line@, Class::Space).len() == 0 {
            Err(failure("nothing entered"@))
        } else {
            Ok(trimmed(line@, Class::Space))
        }),
{
    entered(trim(line, Class::Space))
}

/// The secret that the user entered: all of the line but its end, since white space may be part of
/// a password.
pub fn prompt_hidden(line: &str) -> (entry: Result<String, Error>)
    ensures
        said(entry) == (if end_trimmed(line@, Class::LineEnd).len() == 0 {
            Err(failure("nothing entered"@))
        } else {
            Ok(end_trimmed(line@, Class::LineEnd))
        }),
{
    entered(trim_end(line, Class::LineEnd))
}

/// A build that is called exactly as the user says is preferred to one that is only alike.
pub proof fn the_exact_name_is_preferred(builds: Seq<BuildView>, name: Seq<char>)
    ensures
        (exists|k: int| 0 <= k < builds.len() && (#[trigger] builds[k]).name == name) ==> (meant(
            builds,
            name,
        ) matches Some(build) && build.name == name && builds.contains(build)),
{
    lemma_exactly(builds, name, 0);
}

proof fn lemma_exactly(builds: Seq<BuildView>, name: Seq<char>, i: int)
    requires
        0 <= i <= builds.len(),
    ensures
        (exists|k: int| i <= k < builds.len() && (#[trigger] builds[k]).name == name) ==> exactly(
            builds,
            name,
            i,
        ) is Some,
        exactly(builds, name, i) matches Some(build) ==> build.name == name && builds.contains(
            build,
        ),
    decreases builds.len() - i,
{
    if i < builds.len() {
        lemma_exactly(builds, name, i + 1);
        assert(builds[i] == builds[i]);
    }
}

proof fn lemma_loosely(builds: Seq<BuildView>, name: Seq<char>, i: int)
    requires
        0 <= i <= builds.len(),
    ensures
        loosely(builds, name, i) matches Some(build) ==> builds.contains(build),
    decreases builds.len() - i,
{
    if i < builds.len() {
        lemma_loosely(builds, name, i + 1);
        assert(builds[i] == builds[i]);
    }
}

/// The build that a name means is one of them.
pub(crate) proof fn lemma_meant(builds: Seq<BuildView>, name: Seq<char>)
    ensures
        meant(builds, name) matches Some(build) ==> builds.contains(build),
{
    lemma_exactly(builds, name, 0);
    lemma_loosely(builds, name, 0);
}

/// The build that is in a directory is one of them.
pub(crate) proof fn lemma_placed_in(builds: Seq<BuildView>, dir: Seq<char>, i: int)
    requires
        0 <= i <= builds.len(),
    ensures
        placed_in(builds, dir, i) matches Some(build) ==> builds.contains(build),
    decreases builds.len() - i,
{
    if i < builds.len() {
        lemma_placed_in(builds, dir, i + 1);
        assert(builds[i] == builds[i]);
    }
}

}
