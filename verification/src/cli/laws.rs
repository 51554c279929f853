//! What holds of every command line, and of all that is printed and asked for in the terminal.
use vstd::prelude::*;

use crate::auth::laws::{
    a_session_speaks_for_itself, gives, signing_in_gives_the_name_and_the_password,
    the_code_goes_with_its_login,
};
use crate::auth::{a_link_has_one_target, account_reply, launchable, login_reply, GameView, LoginView};
use crate::cli::opening::{self, OpeningView};
use crate::cli::picking::{self, StageView};
use crate::cli::signing::{self, SigningInView};
use crate::cli::{
    build_in, build_line, exactly, game_line, host_line, indented, is_there, loosely, meant, missing_lines,
    order_in, padded, parse_complaint, picked_lines, placed_in, plainly, proton_lines,
    release_lines, startable, version, Order, OrderView, HELP,
};
use crate::config::{Config, ConfigView, GameInstall, ProtonInstall};
use crate::error::{failure, CauseView, Error};
use crate::launch::Target;
use crate::net::laws::{speaks_for, speaks_for_nobody};
use crate::net::Reply;
use crate::paths::same_place;
use crate::proton::{Build, BuildView};
use crate::sort::views;
use crate::text::laws::{all_in, bare, trimming_drops_what_stands_around, trimming_may_leave_nothing};
use crate::text::{decimal, end_trimmed, end_without, lemma_end_without, lowered, parsed, Class};

verus! {

broadcast use vstd::string::group_string_axioms;

/// What the user wants, and the build that a name means, is what the fields say.
pub proof fn an_order_is_what_its_fields_say(order: Order, build: Build)
    ensures
        build_in(Some(build)) == Some(build@),
        build_in(None) is None,
        order matches Order::PickProton(name) ==> order@ == OrderView::PickProton(name@),
        order matches Order::Play(id) ==> order@ == OrderView::Play(id),
        order matches Order::Open(target, uri) ==> order@ == OrderView::Open(target, uri@),
        order is Start <==> order@ is Start,
        order is Login <==> order@ is Login,
        order is Logout <==> order@ is Logout,
        order is Whoami <==> order@ is Whoami,
        order is Games <==> order@ is Games,
        order is Studio <==> order@ is Studio,
        order is ListProton <==> order@ is ListProton,
        order is Help <==> order@ is Help,
{
}

/// What is waited for and what is done in the terminal is what the fields say.
pub proof fn what_is_done_in_the_terminal_is_what_the_fields_say(
    stage: signing::SigningIn,
    action: signing::Action,
    picking_stage: picking::Stage,
    picking_action: picking::Action,
    opening: opening::Opening,
    opening_action: opening::Action,
)
    ensures
        stage matches signing::SigningIn::Password(name) ==> stage@ == SigningInView::Password(name@),
        stage matches signing::SigningIn::Code(pending) ==> stage@ == SigningInView::Code(pending@),
        stage matches signing::SigningIn::Account(token) ==> stage@ == SigningInView::Account(token@),
        stage matches signing::SigningIn::Keeping(line) ==> stage@ == SigningInView::Keeping(line@),
        action matches signing::Action::Ask(label) ==> action@ == signing::ActionView::Ask(label@),
        action matches signing::Action::AskHidden(label) ==> action@
            == signing::ActionView::AskHidden(label@),
        action matches signing::Action::Fetch(request) ==> action@ == signing::ActionView::Fetch(
            request@,
        ),
        action matches signing::Action::Keep(session) ==> action@ == signing::ActionView::Keep(
            session@,
        ),
        action matches signing::Action::Done(line) ==> action@ == signing::ActionView::Done(line@),
        action matches signing::Action::Fail(error) ==> action@ == signing::ActionView::Fail(error@),
        picking_stage matches picking::Stage::Relisting(dir) ==> picking_stage@
            == StageView::Relisting(dir@),
        picking_stage matches picking::Stage::Loading(build) ==> picking_stage@
            == StageView::Loading(build@),
        picking_action matches picking::Action::Install { line, tag } ==> picking_action@ == (
        picking::ActionView::Install { line: line@, tag: tag@ }),
        picking_action matches picking::Action::Save(config) ==> picking_action@
            == picking::ActionView::Save(config@),
        picking_action matches picking::Action::Fail(error) ==> picking_action@
            == picking::ActionView::Fail(error@),
        opening@.session == opening.session@,
        opening@.config == opening.config@,
        opening@.stage == opening.stage,
        opening_action matches opening::Action::Install { line, token } ==> opening_action@ == (
        opening::ActionView::Install { line: line@, token: token@ }),
        opening_action matches opening::Action::Link { line: Some(line), token } ==> opening_action@
            == (opening::ActionView::Link { line: Some(line@), token: token@ }),
        opening_action matches opening::Action::Launch(uri) ==> opening_action@
            == opening::ActionView::Launch(uri@),
        opening_action matches opening::Action::Fail(error) ==> opening_action@
            == opening::ActionView::Fail(error@),
{
}

/// Whether a word is one of the commands.
pub open spec fn is_command(word: Seq<char>) -> bool {
    ||| word == "login"@
    ||| word == "logout"@
    ||| word == "whoami"@
    ||| word == "games"@
    ||| word == "studio"@
    ||| word == "proton"@
    ||| word == "play"@
    ||| word == "help"@
    ||| word == "--help"@
    ||| word == "-h"@
}

proof fn lemma_words()
    ensures
        forall|word: Seq<char>| #[trigger] is_command(word) ==> word.len() < 9,
        "login"@ != "games"@,
        "logout"@ != "whoami"@ && "logout"@ != "studio"@ && "logout"@ != "proton"@ && "logout"@
            != "--help"@,
        "whoami"@ != "studio"@ && "whoami"@ != "proton"@ && "whoami"@ != "--help"@,
        "studio"@ != "proton"@ && "studio"@ != "--help"@ && "proton"@ != "--help"@,
        "play"@ != "help"@,
        "login"@.len() == 5 && "games"@.len() == 5,
        "logout"@.len() == 6 && "whoami"@.len() == 6 && "studio"@.len() == 6 && "proton"@.len() == 6,
        "--help"@.len() == 6 && "play"@.len() == 4 && "help"@.len() == 4 && "-h"@.len() == 2,
        "vortex://"@.len() == 9 && "vortex-studio://"@.len() == 16,
{
    reveal_strlit("login");
    reveal_strlit("logout");
    reveal_strlit("whoami");
    reveal_strlit("games");
    reveal_strlit("studio");
    reveal_strlit("proton");
    reveal_strlit("play");
    reveal_strlit("help");
    reveal_strlit("--help");
    reveal_strlit("-h");
    reveal_strlit("vortex://");
    reveal_strlit("vortex-studio://");
    assert("login"@[0] == 'l' && "games"@[0] == 'g');
    assert("logout"@[0] == 'l' && "whoami"@[0] == 'w' && "studio"@[0] == 's' && "proton"@[0] == 'p');
    assert("--help"@[0] == '-' && "play"@[0] == 'p' && "help"@[0] == 'h');
}

/// Each command asks for what it says, and no words at all start the game.
pub proof fn a_command_asks_for_what_it_says(args: Seq<Seq<char>>)
    ensures
        args.len() == 0 ==> order_in(args) == Ok::<_, Seq<CauseView>>(OrderView::Start),
        args.len() > 0 ==> {
            &&& args[0] == "login"@ ==> order_in(args) == Ok::<_, Seq<CauseView>>(OrderView::Login)
            &&& args[0] == "logout"@ ==> order_in(args) == Ok::<_, Seq<CauseView>>(
                OrderView::Logout,
            )
            &&& args[0] == "whoami"@ ==> order_in(args) == Ok::<_, Seq<CauseView>>(
                OrderView::Whoami,
            )
            &&& args[0] == "games"@ ==> order_in(args) == Ok::<_, Seq<CauseView>>(OrderView::Games)
            &&& args[0] == "studio"@ ==> order_in(args) == Ok::<_, Seq<CauseView>>(
                OrderView::Studio,
            )
            &&& args[0] == "help"@ || args[0] == "--help"@ || args[0] == "-h"@ ==> order_in(args)
                == Ok::<_, Seq<CauseView>>(OrderView::Help)
            &&& args[0] == "proton"@ && args.len() == 1 ==> order_in(args) == Ok::<
                _,
                Seq<CauseView>,
            >(OrderView::ListProton)
            &&& args[0] == "proton"@ && args.len() > 1 ==> order_in(args) == Ok::<_, Seq<CauseView>>(
                OrderView::PickProton(args[1]),
            )
            &&& args[0] == "play"@ && args.len() == 1 ==> order_in(args) == Err::<OrderView, _>(
                failure("usage: vortex-launcher-cli play <game-id>"@),
            )
        },
{
    lemma_words();
}

/// The game that is played is the one whose number is given, and anything but a number is refused.
pub proof fn the_game_that_is_named_is_played(args: Seq<Seq<char>>, id: u64)
    requires
        args.len() > 1,
        args[0] == "play"@,
    ensures
        args[1] == decimal(id as nat) ==> order_in(args) == Ok::<_, Seq<CauseView>>(
            OrderView::Play(id),
        ),
        parsed(args[1], 0xffff_ffff_ffff_ffff) is None ==> order_in(args) == Err::<OrderView, _>(
            failure("the game id must be a number (see `games`)"@) + failure(
                parse_complaint(args[1]),
            ),
        ),
{
    lemma_words();
    crate::text::decimal_reads_back(id as nat, u64::MAX as nat);
}

/// A link is opened with the program it is for, as it is; anything else that is no command is
/// answered with the help.
pub proof fn a_link_is_opened_and_the_rest_is_unknown(args: Seq<Seq<char>>)
    requires
        args.len() > 0,
    ensures
        launchable(args[0], "vortex://"@) ==> order_in(args) == Ok::<_, Seq<CauseView>>(
            OrderView::Open(Target::Game, args[0]),
        ),
        launchable(args[0], "vortex-studio://"@) ==> order_in(args) == Ok::<_, Seq<CauseView>>(
            OrderView::Open(Target::Studio, args[0]),
        ),
        !is_command(args[0]) && !launchable(args[0], "vortex://"@) && !launchable(
            args[0],
            "vortex-studio://"@,
        ) ==> order_in(args) == Err::<OrderView, _>(
            failure("unknown command `"@ + args[0] + "`\n\n"@ + HELP@),
        ),
{
    lemma_words();
    a_link_has_one_target(args[0]);
    assert(!is_command(args[0]) || args[0].len() < 9);
}

/// What is filled up with spaces keeps what it says and takes at least so much room, and no more than
/// it needs.
pub proof fn filling_up_keeps_what_is_said(s: Seq<char>, n: int)
    requires
        0 <= n,
    ensures
        padded(s, n).len() == (if s.len() < n {
            n
        } else {
            s.len() as int
        }),
        padded(s, n).take(s.len() as int) == s,
        forall|i: int| s.len() <= i < n ==> #[trigger] padded(s, n)[i] == ' ',
        indented(s, n).len() == padded(s, n).len(),
        indented(s, n).skip(indented(s, n).len() - s.len()) == s,
        forall|i: int| 0 <= i < n - s.len() ==> #[trigger] indented(s, n)[i] == ' ',
{
    assert(padded(s, n).take(s.len() as int) =~= s);
    assert(indented(s, n).skip(indented(s, n).len() - s.len()) =~= s);
}

/// The line about a game tells its number, its name and its players.
pub proof fn a_game_is_told_with_its_players(game: GameView)
    ensures
        game_line(game) == indented(decimal(game.id as nat), 6) + "  "@ + padded(game.name, 30)
            + " "@ + decimal(game.players as nat) + " playing"@,
{
}

/// The line about a build marks the one in use, and only that, tells where the build comes from, and
/// says what a build needs that this host cannot load.
pub proof fn the_build_in_use_is_marked(
    build: BuildView,
    current: Option<Seq<char>>,
    host: Option<(u32, u32)>,
    major: u32,
    minor: u32,
)
    ensures
        ({
            let line = build_line(build, current, host);
            let told = " "@ + padded(build.name, 24) + " "@ + (if build.source is System {
                "steam"@
            } else {
                "launcher"@
            });
            let mark = if current is Some && same_place(current->0, build.dir) {
                "*"@
            } else {
                " "@
            };
            &&& build.runs(host) ==> line == mark + told
            &&& !build.runs(host) && build.needs_glibc == Some((major, minor)) ==> line == mark
                + told + "  needs glibc "@ + decimal(major as nat) + "."@ + decimal(minor as nat)
                + ", too new for this system"@
        }),
        host_line(None) == "cannot tell which glibc this system has\n"@,
        host_line(Some((major, minor))) == "system glibc "@ + decimal(major as nat) + "."@ + decimal(
            minor as nat,
        ) + "\n"@,
{
    reveal_strlit("");
    let line = build_line(build, current, host);
    let told = " "@ + padded(build.name, 24) + " "@ + (if build.source is System {
        "steam"@
    } else {
        "launcher"@
    });
    let mark = if current is Some && same_place(current->0, build.dir) {
        "*"@
    } else {
        " "@
    };
    if build.runs(host) {
        assert(line =~= mark + told);
    } else if build.needs_glibc == Some((major, minor)) {
        assert(line =~= mark + told + "  needs glibc "@ + decimal(major as nat) + "."@ + decimal(
            minor as nat,
        ) + ", too new for this system"@);
    }
    assert(host_line(Some((major, minor))) =~= "system glibc "@ + decimal(major as nat) + "."@
        + decimal(minor as nat) + "\n"@);
}

proof fn lemma_missing(tags: Seq<Seq<char>>, builds: Seq<BuildView>, i: int, tag: Seq<char>)
    requires
        0 <= i,
    ensures
        missing_lines(tags, builds, i).contains("  "@ + tag) <==> (exists|j: int|
            i <= j < tags.len() && #[trigger] tags[j] == tag) && !is_there(builds, tag),
    decreases tags.len() - i,
{
    if i < tags.len() {
        lemma_missing(tags, builds, i + 1, tag);
        let rest = missing_lines(tags, builds, i + 1);
        let all = missing_lines(tags, builds, i);
        reveal_strlit("  ");
        if !is_there(builds, tags[i]) {
            assert(all =~= seq!["  "@ + tags[i]] + rest);
            if tags[i] == tag {
                assert(all[0] == "  "@ + tag);
            }
            if all.contains("  "@ + tag) {
                let k = choose|k: int| 0 <= k < all.len() && all[k] == "  "@ + tag;
                if k > 0 {
                    assert(rest[k - 1] == "  "@ + tag);
                } else {
                    assert(("  "@ + tags[i]).skip(2) =~= tags[i]);
                    assert(("  "@ + tag).skip(2) =~= tag);
                    assert(tags[i] == tag);
                }
            }
            if rest.contains("  "@ + tag) {
                let k = choose|k: int| 0 <= k < rest.len() && rest[k] == "  "@ + tag;
                assert(all[k + 1] == "  "@ + tag);
            }
        } else {
            assert(all == rest);
            if tags[i] == tag {
                assert(!all.contains("  "@ + tag));
            }
        }
    }
}

/// A release is listed as one that can be had exactly if it is on offer and no build of its name is
/// there; that the offers could not be had is told.
pub proof fn what_can_be_had_is_listed(
    tags: Seq<Seq<char>>,
    builds: Seq<BuildView>,
    tag: Seq<char>,
    causes: Seq<CauseView>,
)
    ensures
        release_lines(Ok(tags), builds).contains("  "@ + tag) <==> tags.contains(tag) && forall|
            i: int,
        |
            0 <= i < builds.len() ==> (#[trigger] builds[i]).name != tag,
        release_lines(Err(causes), builds) == seq![
            "\ncannot reach GitHub for the release list: "@ + crate::worker::described(causes),
        ],
{
    lemma_missing(tags, builds, 0, tag);
    let missing = missing_lines(tags, builds, 0);
    reveal_strlit("  ");
    reveal_strlit("\nnot downloaded:");
    if missing.len() > 0 {
        let all = release_lines(Ok(tags), builds);
        assert(all =~= seq!["\nnot downloaded:"@] + missing);
        assert(("  "@ + tag)[0] == ' ' && "\nnot downloaded:"@[0] == '\n');
        if all.contains("  "@ + tag) {
            let k = choose|k: int| 0 <= k < all.len() && all[k] == "  "@ + tag;
            assert(k > 0);
            assert(missing[k - 1] == "  "@ + tag);
        }
        if missing.contains("  "@ + tag) {
            let k = choose|k: int| 0 <= k < missing.len() && missing[k] == "  "@ + tag;
            assert(all[k + 1] == "  "@ + tag);
        }
    }
}

/// The list of the builds begins with the host, tells of each build in turn, then of what can be had,
/// and ends with how to pick one.
pub proof fn every_build_has_its_line(
    builds: Seq<BuildView>,
    current: Option<Seq<char>>,
    host: Option<(u32, u32)>,
    tags: Result<Seq<Seq<char>>, Seq<CauseView>>,
    i: int,
)
    requires
        0 <= i < builds.len(),
    ensures
        proton_lines(builds, current, host, tags)[0] == host_line(host),
        proton_lines(builds, current, host, tags)[i + 1] == build_line(builds[i], current, host),
        proton_lines(builds, current, host, tags).last()
            == "\n* is the one in use. pick another with: vortex-launcher-cli proton <name>"@,
        proton_lines(builds, current, host, tags).len() == builds.len() + release_lines(
            tags,
            builds,
        ).len() + 2,
{
}

proof fn lemma_exactly(builds: Seq<BuildView>, name: Seq<char>, i: int)
    requires
        0 <= i,
    ensures
        match exactly(builds, name, i) {
            Some(build) => exists|j: int|
                i <= j < builds.len() && #[trigger] builds[j] == build && build.name == name
                    && forall|k: int| i <= k < j ==> (#[trigger] builds[k]).name != name,
            None => forall|j: int| i <= j < builds.len() ==> (#[trigger] builds[j]).name != name,
        },
    decreases builds.len() - i,
{
    if i < builds.len() && builds[i].name != name {
        lemma_exactly(builds, name, i + 1);
    }
}

proof fn lemma_loosely(builds: Seq<BuildView>, name: Seq<char>, i: int)
    requires
        0 <= i,
    ensures
        match loosely(builds, name, i) {
            Some(build) => exists|j: int|
                i <= j < builds.len() && #[trigger] builds[j] == build && lowered(build.name)
                    == lowered(name) && forall|k: int|
                    i <= k < j ==> lowered((#[trigger] builds[k]).name) != lowered(name),
            None => forall|j: int|
                i <= j < builds.len() ==> lowered((#[trigger] builds[j]).name) != lowered(name),
        },
    decreases builds.len() - i,
{
    if i < builds.len() && lowered(builds[i].name) != lowered(name) {
        lemma_loosely(builds, name, i + 1);
    }
}

proof fn lemma_placed(builds: Seq<BuildView>, dir: Seq<char>, i: int)
    requires
        0 <= i,
    ensures
        match placed_in(builds, dir, i) {
            Some(build) => exists|j: int|
                i <= j < builds.len() && #[trigger] builds[j] == build && same_place(build.dir, dir)
                    && forall|k: int|
                    i <= k < j ==> !same_place((#[trigger] builds[k]).dir, dir),
            None => forall|j: int|
                i <= j < builds.len() ==> !same_place((#[trigger] builds[j]).dir, dir),
        },
    decreases builds.len() - i,
{
    if i < builds.len() && !same_place(builds[i].dir, dir) {
        lemma_placed(builds, dir, i + 1);
    }
}

/// A name means the first build that is called so; only where none is, the first that is but for the
/// case of letters; and none where there is none of those either.
pub proof fn a_name_means_the_build_that_is_called_so(
    builds: Seq<BuildView>,
    name: Seq<char>,
    i: int,
)
    ensures
        0 <= i < builds.len() && builds[i].name == name && (forall|j: int|
            0 <= j < i ==> (#[trigger] builds[j]).name != name) ==> meant(builds, name) == Some(
            builds[i],
        ),
        (forall|j: int| 0 <= j < builds.len() ==> (#[trigger] builds[j]).name != name) && 0 <= i
            < builds.len() && lowered(builds[i].name) == lowered(name) && (forall|j: int|
            0 <= j < i ==> lowered((#[trigger] builds[j]).name) != lowered(name)) ==> meant(
            builds,
            name,
        ) == Some(builds[i]),
        (forall|j: int|
            0 <= j < builds.len() ==> lowered((#[trigger] builds[j]).name) != lowered(name))
            ==> meant(builds, name) is None,
{
    lemma_exactly(builds, name, 0);
    lemma_loosely(builds, name, 0);
}

/// What is printed of a build that is put to use names it, and warns where this host cannot load it.
pub proof fn a_build_that_will_not_start_is_warned_of(build: BuildView, host: Option<(u32, u32)>)
    ensures
        picked_lines(build, host)[0] == "now using "@ + build.name,
        build.runs(host) ==> picked_lines(build, host).len() == 1,
        !build.runs(host) ==> build.needs_glibc is Some && picked_lines(build, host) == seq![
            "now using "@ + build.name,
            "warning: it needs glibc "@ + version(build.needs_glibc->0)
                + ", newer than this system, the game will not start"@,
        ],
{
    if !build.runs(host) {
        assert(picked_lines(build, host) =~= seq![
            "now using "@ + build.name,
            "warning: it needs glibc "@ + version(build.needs_glibc->0)
                + ", newer than this system, the game will not start"@,
        ]);
    }
}

/// A program can be started from here exactly if Proton and just that program are configured.
pub proof fn a_program_can_be_started_if_it_is_configured(config: ConfigView)
    ensures
        startable(config, Target::Game) is Ok <==> config.proton is Some && config.game is Some,
        startable(config, Target::Studio) is Ok <==> config.proton is Some && config.studio is Some,
        config.proton is None ==> startable(config, Target::Game) == Err::<(), _>(
            failure("Proton is not installed yet, run the GUI (vortex-launcher) once to install"@),
        ),
        config.proton is Some && config.game is None ==> startable(config, Target::Game) == Err::<
            (),
            _,
        >(failure("Vortex is not installed yet, run the GUI (vortex-launcher) once to install"@)),
        config.proton is Some && config.studio is None ==> startable(config, Target::Studio)
            == Err::<(), _>(
            failure("Vortex Studio is not installed yet, run `vortex-launcher-cli studio` first"@),
        ),
        plainly(Target::Game) == "vortex"@,
        plainly(Target::Studio) == "vortex studio"@,
{
}

/// The name that is entered, without the white space around it, goes with the password that is
/// entered next, which keeps its white space: both are posted as what they are.
pub proof fn what_is_entered_is_posted_as_what_it_is(
    front: Seq<char>,
    name: Seq<char>,
    back: Seq<char>,
    typed: String,
    password: Seq<char>,
    end: Seq<char>,
    line: String,
)
    requires
        all_in(front, Class::Space) && all_in(back, Class::Space),
        bare(name, Class::Space),
        typed@ == front + name + back,
        password.len() > 0,
        !Class::LineEnd.has(password.last()),
        all_in(end, Class::LineEnd),
        line@ == password + end,
    ensures
        SigningInView::Name.after(signing::Event::Entered(Ok(typed))) == (
            SigningInView::Password(name),
            signing::ActionView::AskHidden("Password: "@),
        ),
        ({
            let turn = SigningInView::Password(name).after(signing::Event::Entered(Ok(line)));
            &&& turn.0 is First
            &&& turn.1 matches signing::ActionView::Fetch(request) && request.url
                == "https://playvortex.io/login"@ && gives(request, "username"@, name) && gives(
                request,
                "password"@,
                password,
            ) && speaks_for_nobody(request)
        }),
{
    trimming_drops_what_stands_around(front, name, back, Class::Space);
    let whole = password + end;
    let n = whole.len() as int;
    lemma_end_without(whole, Class::LineEnd, 0, n);
    let stop = end_without(whole, Class::LineEnd, 0, n);
    let size = password.len() as int;
    assert(whole[size - 1] == password.last());
    if stop > size {
        assert(whole[stop - 1] == end[stop - 1 - size]);
    }
    if stop < size {
        assert(Class::LineEnd.has(whole[size - 1]));
    }
    assert(end_trimmed(whole, Class::LineEnd) =~= password);
    signing_in_gives_the_name_and_the_password(name, password);
}

/// The code that is entered is posted with the token of the login that asked for it.
pub proof fn the_code_that_is_entered_goes_with_its_login(
    front: Seq<char>,
    code: Seq<char>,
    back: Seq<char>,
    typed: String,
    pending: Seq<char>,
)
    requires
        all_in(front, Class::Space) && all_in(back, Class::Space),
        bare(code, Class::Space),
        typed@ == front + code + back,
    ensures
        ({
            let turn = SigningInView::Code(pending).after(signing::Event::Entered(Ok(typed)));
            &&& turn.0 is Second
            &&& turn.1 matches signing::ActionView::Fetch(request) && request.url
                == "https://playvortex.io/login/2fa"@ && gives(request, "code"@, code) && gives(
                request,
                "pending_token"@,
                pending,
            ) && speaks_for_nobody(request)
        }),
{
    trimming_drops_what_stands_around(front, code, back, Class::Space);
    the_code_goes_with_its_login(pending, code);
}

/// Nothing entered is told, and so is a line that cannot be read; either ends the login.
pub proof fn an_empty_entry_ends_the_login(stage: SigningInView, typed: String, reason: Error)
    requires
        stage is Name || stage is Code,
        all_in(typed@, Class::Space),
    ensures
        stage.after(signing::Event::Entered(Ok(typed))) == (
            SigningInView::Over,
            signing::ActionView::Fail(failure("nothing entered"@)),
        ),
        stage.after(signing::Event::Entered(Err(reason))) == (
            SigningInView::Over,
            signing::ActionView::Fail(failure("cannot read from the terminal"@) + reason@),
        ),
{
    trimming_may_leave_nothing(typed@, Class::Space);
}

/// The token that a login is answered with is the one whose account is looked up and that is stored,
/// with the name and the number of its account.
pub proof fn the_token_of_the_login_is_stored(
    stage: SigningInView,
    reply: Result<Reply, Error>,
    token: Seq<char>,
    pending: Seq<char>,
)
    ensures
        ({
            let turn = stage.after(signing::Event::Replied(reply));
            let first = login_reply("https://playvortex.io/login"@, reply);
            let second = login_reply("https://playvortex.io/login/2fa"@, reply);
            &&& (stage is First && first == Ok::<_, Seq<CauseView>>(LoginView::Done(token))) || (
            stage is Second && second == Ok::<_, Seq<CauseView>>(LoginView::Done(token)))
                ==> turn.0 == SigningInView::Account(token) && (
            turn.1 matches signing::ActionView::Fetch(request) && request.url
                == "https://playvortex.io/api/users/me"@ && speaks_for(request, token))
            &&& stage is First && first == Ok::<_, Seq<CauseView>>(LoginView::Needs2fa(pending))
                ==> turn == (
                SigningInView::Code(pending),
                signing::ActionView::Ask("2FA code: "@),
            )
            &&& stage is Second && second == Ok::<_, Seq<CauseView>>(LoginView::Needs2fa(pending))
                ==> turn == (
                SigningInView::Over,
                signing::ActionView::Fail(failure("the server asked for 2FA twice, try again"@)),
            )
            &&& stage == SigningInView::Account(token) && account_reply(reply) is Ok ==> {
                let account = account_reply(reply)->Ok_0;
                &&& turn.0 == SigningInView::Keeping("signed in as "@ + account.username)
                &&& turn.1 matches signing::ActionView::Keep(session) && session.token == token
                    && session.username == account.username && session.user_id == account.id
            }
            &&& stage == SigningInView::Account(token) && account_reply(reply) is Err ==> turn == (
                SigningInView::Over,
                signing::ActionView::Fail(account_reply(reply)->Err_0),
            )
        }),
{
    a_session_speaks_for_itself("https://playvortex.io/api/users/me"@, token);
}

/// Once the session is stored the user is told who is signed in, and the failure to store it is told.
pub proof fn a_stored_session_is_announced(line: Seq<char>, reason: Error)
    ensures
        SigningInView::Keeping(line).after(signing::Event::Kept(Ok(()))) == (
            SigningInView::Over,
            signing::ActionView::Done(line),
        ),
        SigningInView::Keeping(line).after(signing::Event::Kept(Err(reason))) == (
            SigningInView::Over,
            signing::ActionView::Fail(reason@),
        ),
{
}

/// A build that is there is put to use; one that is not is downloaded under its name, and then the
/// build in the directory it was installed to is put to use. What is saved is the stored configuration
/// with just that build.
pub proof fn the_build_that_is_named_is_put_to_use(
    name: Seq<char>,
    host: Option<(u32, u32)>,
    builds: Vec<Build>,
    build: BuildView,
    dir: Seq<char>,
    config: Config,
)
    ensures
        picking::after(name, host, StageView::Listing, picking::Event::Listed(builds)) == (
        match meant(views(builds@), name) {
            Some(build) => (StageView::Loading(build), picking::ActionView::Load),
            None => (StageView::Preparing, picking::ActionView::Prepare),
        }),
        picking::after(name, host, StageView::Preparing, picking::Event::Prepared(Ok(()))) == (
            StageView::Installing,
            picking::ActionView::Install {
                line: "downloading "@ + name + ", this takes a while"@,
                tag: name,
            },
        ),
        ({
            let turn = picking::after(
                name,
                host,
                StageView::Loading(build),
                picking::Event::Loaded(config),
            );
            &&& turn.0 == StageView::Saving(picked_lines(build, host))
            &&& turn.1 matches picking::ActionView::Save(saved) && saved.proton is Some
                && saved.proton->0.name == build.name && saved.proton->0.dir == build.dir
                && saved.proton->0.source == build.source && saved.proton_wanted is None
                && saved.game == config@.game && saved.studio == config@.studio
                && saved.allow_self_update == config@.allow_self_update
                && saved.native_shader_compiler == config@.native_shader_compiler
        }),
{
}

/// The build that was installed is found again by its directory.
pub proof fn an_installed_build_is_found_by_its_directory(
    name: Seq<char>,
    host: Option<(u32, u32)>,
    install: ProtonInstall,
    builds: Vec<Build>,
    dir: Seq<char>,
    i: int,
)
    ensures
        picking::after(name, host, StageView::Installing, picking::Event::Installed(Ok(install)))
            == (StageView::Relisting(install.dir@), picking::ActionView::List),
        ({
            let all = views(builds@);
            let turn = picking::after(
                name,
                host,
                StageView::Relisting(dir),
                picking::Event::Listed(builds),
            );
            &&& 0 <= i < all.len() && same_place(all[i].dir, dir) && (forall|j: int|
                0 <= j < i ==> !same_place((#[trigger] all[j]).dir, dir)) ==> turn == (
                StageView::Loading(all[i]),
                picking::ActionView::Load,
            )
            &&& (forall|j: int| 0 <= j < all.len() ==> !same_place((#[trigger] all[j]).dir, dir))
                ==> turn == (
                StageView::Over,
                picking::ActionView::Fail(
                    failure("the build vanished right after being installed"@),
                ),
            )
        }),
{
    lemma_placed(views(builds@), dir, 0);
}

/// What goes wrong with picking a build is told; that a release could not be installed is told as
/// there being none.
pub proof fn picking_tells_what_goes_wrong(
    name: Seq<char>,
    host: Option<(u32, u32)>,
    lines: Seq<Seq<char>>,
    reason: Error,
)
    ensures
        picking::after(name, host, StageView::Installing, picking::Event::Installed(Err(reason)))
            == (
            StageView::Over,
            picking::ActionView::Fail(
                failure("no Proton called `"@ + name + "` (see `vortex-launcher-cli proton`)"@)
                    + reason@,
            ),
        ),
        picking::after(name, host, StageView::Preparing, picking::Event::Prepared(Err(reason))) == (
            StageView::Over,
            picking::ActionView::Fail(reason@),
        ),
        picking::after(name, host, StageView::Saving(lines), picking::Event::Saved(Ok(()))) == (
            StageView::Over,
            picking::ActionView::Done(lines),
        ),
        picking::after(name, host, StageView::Saving(lines), picking::Event::Saved(Err(reason))) == (
            StageView::Over,
            picking::ActionView::Fail(reason@),
        ),
{
}

/// The studio is installed and linked for the session that opens it; what is installed is what is
/// configured as the studio, and nothing else of the configuration changes; the link that came is the
/// one that is launched.
pub proof fn the_studio_is_opened_for_its_session(
    opening: OpeningView,
    studio: GameInstall,
    uri: String,
)
    ensures
        ({
            let turn = opening.after(opening::Event::Prepared(Ok(())));
            opening.stage is Preparing ==> turn.0 == (OpeningView {
                stage: opening::Stage::Installing,
                ..opening
            }) && (turn.1 matches opening::ActionView::Install { line, token } && token
                == opening.session.token && line == "downloading Vortex Studio..."@)
        }),
        ({
            let turn = opening.after(opening::Event::Installed(Ok(studio)));
            opening.stage is Installing ==> turn.1 is Save && turn.0 == (OpeningView {
                config: ConfigView { studio: Some(studio@), ..opening.config },
                stage: opening::Stage::Saving,
                ..opening
            })
        }),
        ({
            let turn = opening.after(opening::Event::Saved(Ok(())));
            opening.stage is Saving ==> turn.0 == (OpeningView {
                stage: opening::Stage::Linking,
                ..opening
            }) && (turn.1 matches opening::ActionView::Link { line, token } && token
                == opening.session.token && line == Some("studio installed"@))
        }),
        ({
            let turn = opening.after(opening::Event::Linked(Ok(uri)));
            opening.stage is Linking ==> turn.0 == (OpeningView {
                stage: opening::Stage::Over,
                ..opening
            }) && turn.1 == opening::ActionView::Launch(uri@)
        }),
{
}

/// What goes wrong with opening the studio is told, and ends it.
pub proof fn opening_tells_what_goes_wrong(opening: OpeningView, reason: Error)
    ensures
        ({
            let over = OpeningView { stage: opening::Stage::Over, ..opening };
            &&& opening.stage is Preparing ==> opening.after(opening::Event::Prepared(Err(reason)))
                == (over, opening::ActionView::Fail(reason@))
            &&& opening.stage is Installing ==> opening.after(
                opening::Event::Installed(Err(reason)),
            ) == (over, opening::ActionView::Fail(reason@))
            &&& opening.stage is Saving ==> opening.after(opening::Event::Saved(Err(reason))) == (
                over,
                opening::ActionView::Fail(reason@),
            )
            &&& opening.stage is Linking ==> opening.after(opening::Event::Linked(Err(reason))) == (
                over,
                opening::ActionView::Fail(reason@),
            )
        }),
{
}

}
