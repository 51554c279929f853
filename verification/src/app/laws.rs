//! What holds of all that the window shows.
use vstd::prelude::*;

use crate::app::{row, seen, Form, FormView, Row, Snapshot, SnapshotView};
use crate::state::laws::same;
use crate::state::{GameRowView, StatusView, Task};
use crate::text::laws::{all_in, trimming_may_leave_nothing};
use crate::text::{
    decimal, end_without, lemma_end_without, lemma_next_not_in, next_not_in, trimmed, Class,
};

verus! {

broadcast use vstd::string::group_string_axioms;

/// A copy of the status is what its fields say.
pub proof fn a_snapshot_is_what_its_fields_say(snapshot: Snapshot)
    ensures
        match snapshot.task {
            Some(task) => snapshot@.task == Some(task@),
            None => snapshot@.task is None,
        },
        snapshot@.detail == snapshot.detail@,
        snapshot@.progress == snapshot.progress,
        same(snapshot.error, snapshot@.error),
        snapshot@.game_ready == snapshot.game_ready,
        snapshot@.proton_ready == snapshot.proton_ready,
        same(snapshot.proton_name, snapshot@.proton_name),
        snapshot@.game_running == snapshot.game_running,
        snapshot@.allow_self_update == snapshot.allow_self_update,
        snapshot@.native_shader_compiler == snapshot.native_shader_compiler,
        same(snapshot.account, snapshot@.account),
        snapshot@.needs_2fa == snapshot.needs_2fa,
        same(snapshot.auth_error, snapshot@.auth_error),
        snapshot@.games.len() == snapshot.games@.len(),
        forall|i: int|
            0 <= i < snapshot.games@.len() ==> #[trigger] snapshot@.games[i]
                == snapshot.games@[i]@,
        snapshot@.selected_game == snapshot.selected_game,
{
}

/// A line of the list and a form are what their fields say.
pub proof fn a_line_and_a_form_are_what_their_fields_say(line: Row, form: Form)
    ensures
        line@.id == line.id,
        line@.label == line.label@,
        line@.selected == line.selected,
        form@.username == form.username@,
        form@.password == form.password@,
        form@.code == form.code@,
{
}

/// The window sees each part of the status as it is, and of a task what it is called.
pub proof fn the_window_sees_the_status(status: StatusView)
    ensures
        ({
            let copy = seen(status);
            &&& match status.task {
                Some(task) => copy.task == Some(task.called()),
                None => copy.task is None,
            }
            &&& copy.detail == status.detail && copy.progress == status.progress
            &&& copy.error == status.error
            &&& copy.game_ready == status.game_ready && copy.proton_ready == status.proton_ready
            &&& copy.proton_name == status.proton_name
            &&& copy.game_running == status.game_running
            &&& copy.allow_self_update == status.allow_self_update
            &&& copy.native_shader_compiler == status.native_shader_compiler
            &&& copy.account == status.account
            &&& copy.needs_2fa == status.needs_2fa && copy.auth_error == status.auth_error
            &&& copy.games == status.games && copy.selected_game == status.selected_game
        }),
{
}

/// What each task is called.
pub proof fn each_task_has_its_name()
    ensures
        Task::Detecting.called() == "Checking your installation"@,
        Task::InstallingGame.called() == "Downloading Vortex"@,
        Task::InstallingStudio.called() == "Downloading Vortex Studio"@,
        Task::InstallingProton.called() == "Downloading Proton"@,
        Task::CheckingUpdate.called() == "Checking for updates"@,
        Task::Launching.called() == "Starting Vortex"@,
        Task::LaunchingStudio.called() == "Starting Vortex Studio"@,
        Task::SigningIn.called() == "Signing in"@,
        Task::LoadingGames.called() == "Loading games"@,
        Task::InstallingCompiler.called() == "Installing the shader compiler"@,
{
}

/// The screen is that of the first thing that is missing before the user can play: that nothing is
/// under way, the installation, the account.
pub proof fn the_screen_asks_for_the_next_step(snapshot: SnapshotView)
    ensures
        snapshot.task is Some ==> snapshot.screen() is Busy,
        snapshot.task is None && !(snapshot.game_ready && snapshot.proton_ready)
            ==> snapshot.screen() is Install,
        snapshot.task is None && snapshot.game_ready && snapshot.proton_ready ==> {
            &&& snapshot.account is Some ==> snapshot.screen() is Play
            &&& snapshot.account is None && snapshot.needs_2fa ==> snapshot.screen() is Code
            &&& snapshot.account is None && !snapshot.needs_2fa ==> snapshot.screen() is SignIn
        },
{
}

/// The line at the bottom names the account and the Proton build, a build only where it can be used.
pub proof fn the_line_names_the_account_and_the_build(
    snapshot: SnapshotView,
    account: Seq<char>,
    build: Seq<char>,
)
    ensures
        snapshot.account == Some(account) && snapshot.proton_name == Some(build)
            && snapshot.proton_ready ==> snapshot.line() == account + " - "@ + build,
        snapshot.account is None && snapshot.proton_name == Some(build) && snapshot.proton_ready
            ==> snapshot.line() == "signed out"@ + " - "@ + build,
        snapshot.account == Some(account) && (snapshot.proton_name is None
            || !snapshot.proton_ready) ==> snapshot.line() == account + " - "@ + "Proton missing"@,
        snapshot.account is None && (snapshot.proton_name is None || !snapshot.proton_ready)
            ==> snapshot.line() == "signed out"@ + " - "@ + "Proton missing"@,
{
}

/// The line of a game tells its name and its players, stands for its number, and is marked exactly if
/// the game is the one that is selected.
pub proof fn the_selected_game_is_marked(game: GameRowView, selected: Option<u64>)
    ensures
        row(game, selected).id == game.id,
        row(game, selected).label == game.name + " - "@ + decimal(game.players as nat)
            + " playing"@,
        row(game, selected).selected <==> selected is Some && selected->0 == game.id,
{
}

/// The form can be sent exactly if the name says anything and there is a password, which may be white
/// space.
pub proof fn a_form_takes_a_name_and_a_password(form: FormView)
    ensures
        form.ready() <==> !all_in(form.username, Class::Space) && form.password.len() > 0,
{
    let name = form.username;
    if all_in(name, Class::Space) {
        trimming_may_leave_nothing(name, Class::Space);
    } else {
        let n = name.len() as int;
        lemma_next_not_in(name, Class::Space, 0);
        let lo = next_not_in(name, Class::Space, 0);
        lemma_end_without(name, Class::Space, lo, n);
        let hi = end_without(name, Class::Space, lo, n);
        assert(trimmed(name, Class::Space) == name.subrange(lo, hi));
        if hi <= lo {
            assert(Class::Space.has(name[lo]));
        }
    }
}

}
