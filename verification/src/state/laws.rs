//! What holds of everything that is shown and logged.
use vstd::prelude::*;

use crate::state::{
    nothing_known, Facts, GameRow, GameRowView, Part, Shared, SharedView, Status, StatusView, Task,
};

verus! {

broadcast use vstd::string::group_string_axioms;

/// Whether a text that may be missing is there as `seen`.
pub open spec fn same(text: Option<String>, seen: Option<Seq<char>>) -> bool {
    match text {
        Some(text) => seen == Some(text@),
        None => seen is None,
    }
}

/// What is shown is what the fields say.
pub proof fn a_status_is_what_its_fields_say(status: Status)
    ensures
        status@.task == status.task,
        status@.detail == status.detail@,
        status@.progress == status.progress,
        same(status.error, status@.error),
        status@.game_ready == status.game_ready,
        status@.studio_ready == status.studio_ready,
        status@.proton_ready == status.proton_ready,
        same(status.proton_name, status@.proton_name),
        status@.game_running == status.game_running,
        status@.studio_running == status.studio_running,
        status@.allow_self_update == status.allow_self_update,
        status@.native_shader_compiler == status.native_shader_compiler,
        status@.update_available == status.update_available,
        same(status.account, status@.account),
        status@.needs_2fa == status.needs_2fa,
        same(status.auth_error, status@.auth_error),
        status@.games.len() == status.games@.len(),
        forall|i: int|
            0 <= i < status.games@.len() ==> #[trigger] status@.games[i] == status.games@[i]@,
        status@.selected_game == status.selected_game,
{
}

/// A row is what its fields say.
pub proof fn a_row_is_what_its_fields_say(row: GameRow)
    ensures
        row@.id == row.id,
        row@.name == row.name@,
        row@.players == row.players,
{
}

/// What is shared is what the fields say.
pub proof fn what_is_shared_is_what_the_fields_say(shared: Shared)
    ensures
        shared@.status == shared.status@,
        shared@.cancel == shared.cancel,
        shared@.lines.len() == shared.lines@.len(),
        forall|i: int|
            0 <= i < shared.lines@.len() ==> #[trigger] shared@.lines[i] == shared.lines@[i]@,
{
}

/// At first nothing is installed, running, asked for, shown or selected, and nobody is signed in.
pub proof fn at_first_nothing_is_shown()
    ensures
        ({
            let status = nothing_known();
            &&& status.task is None && status.progress is None && status.error is None
            &&& status.detail.len() == 0 && status.games.len() == 0
            &&& !status.game_ready && !status.studio_ready && !status.proton_ready
            &&& !status.game_running && !status.studio_running
            &&& !status.allow_self_update && !status.native_shader_compiler
            &&& !status.update_available && !status.needs_2fa
            &&& status.proton_name is None && status.account is None && status.auth_error is None
            &&& status.selected_game is None
        }),
{
}

/// What is installed and who is signed in is shown as it is, and nothing else changes.
pub proof fn facts_are_shown_as_they_are(status: StatusView, facts: Facts)
    ensures
        ({
            let after = status.knowing(facts);
            &&& after.game_ready == facts.game_ready
            &&& after.studio_ready == facts.studio_ready
            &&& after.proton_ready == facts.proton_ready
            &&& same(facts.proton_name, after.proton_name)
            &&& after.allow_self_update == facts.allow_self_update
            &&& after.native_shader_compiler == facts.native_shader_compiler
            &&& same(facts.account, after.account)
            &&& after.task == status.task && after.detail == status.detail
            &&& after.progress == status.progress && after.error == status.error
            &&& after.game_running == status.game_running
            &&& after.studio_running == status.studio_running
            &&& after.update_available == status.update_available
            &&& after.needs_2fa == status.needs_2fa && after.auth_error == status.auth_error
            &&& after.games == status.games && after.selected_game == status.selected_game
        }),
{
}

/// The games that are listed are those that came, in their order. A selection stays; without one the
/// first game is selected, where there is one.
pub proof fn a_selection_outlives_a_new_list(status: StatusView, rows: Seq<GameRowView>)
    ensures
        status.listing(rows).games == rows,
        status.selected_game is Some ==> status.listing(rows).selected_game == status.selected_game,
        status.selected_game is None && rows.len() > 0 ==> status.listing(rows).selected_game
            == Some(rows[0].id),
        status.selected_game is None && rows.len() == 0 ==> status.listing(
            rows,
        ).selected_game is None,
        status.listing(rows) == (StatusView {
            games: rows,
            selected_game: status.listing(rows).selected_game,
            ..status
        }),
{
}

/// A new line comes behind those that are already there, and changes nothing else.
pub proof fn the_log_only_grows(shared: SharedView, line: Seq<char>)
    ensures
        shared.logged(line).lines.len() == shared.lines.len() + 1,
        shared.logged(line).lines.last() == line,
        forall|i: int|
            0 <= i < shared.lines.len() ==> #[trigger] shared.logged(line).lines[i]
                == shared.lines[i],
        shared.logged(line).status == shared.status,
        shared.logged(line).cancel == shared.cancel,
{
}

/// Beginning, finishing and failing change the task, the word on it, its progress and its error, and
/// nothing else of what is shown; only beginning takes back a wish to stop. A failure is shown and
/// logged.
pub proof fn a_task_changes_only_what_is_said_of_it(
    shared: SharedView,
    task: Task,
    message: Seq<char>,
)
    ensures
        ({
            let begun = shared.begun(task);
            &&& begun.status.task == Some(task) && begun.status.detail.len() == 0
            &&& begun.status.progress is None && begun.status.error is None
            &&& !begun.cancel && begun.lines == shared.lines
            &&& begun.status == (StatusView {
                task: begun.status.task,
                detail: begun.status.detail,
                progress: begun.status.progress,
                error: begun.status.error,
                ..shared.status
            })
        }),
        ({
            let done = shared.finished();
            &&& done.status.task is None && done.status.detail.len() == 0
            &&& done.status.progress is None && done.status.error == shared.status.error
            &&& done.cancel == shared.cancel && done.lines == shared.lines
            &&& done.status == (StatusView {
                task: done.status.task,
                detail: done.status.detail,
                progress: done.status.progress,
                ..shared.status
            })
        }),
        ({
            let failed = shared.failed(message);
            &&& failed.status.task is None && failed.status.detail.len() == 0
            &&& failed.status.progress is None && failed.status.error == Some(message)
            &&& failed.cancel == shared.cancel
            &&& failed.lines == shared.lines.push("error: "@ + message)
            &&& failed.status == (StatusView {
                task: failed.status.task,
                detail: failed.status.detail,
                progress: failed.status.progress,
                error: failed.status.error,
                ..shared.status
            })
        }),
{
}

/// A word on what is being done changes that word, and how far it is where that is said too.
pub proof fn a_word_changes_only_the_word(
    shared: SharedView,
    progress: Option<Part>,
    detail: Seq<char>,
)
    ensures
        shared.detailed(detail).status.detail == detail,
        shared.detailed(detail).status.progress == shared.status.progress,
        shared.advanced(progress, detail).status.detail == detail,
        shared.advanced(progress, detail).status.progress == progress,
        shared.detailed(detail) == (SharedView {
            status: shared.detailed(detail).status,
            ..shared
        }),
        shared.detailed(detail).status == (StatusView {
            detail: shared.detailed(detail).status.detail,
            ..shared.status
        }),
        shared.advanced(progress, detail) == (SharedView {
            status: shared.advanced(progress, detail).status,
            ..shared
        }),
        shared.advanced(progress, detail).status == (StatusView {
            detail: shared.advanced(progress, detail).status.detail,
            progress: shared.advanced(progress, detail).status.progress,
            ..shared.status
        }),
{
}

}
