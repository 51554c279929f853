//! Putting a file in the place of another, step by step.
use vstd::prelude::*;

use crate::paths::{a_file_is_replaced_from_beside, extended, joined, parent_in, Paths, Replacement};
use crate::session::MODE;

verus! {

broadcast use vstd::string::group_string_axioms;

/// One step in replacing a file. Each but the setting of permissions has to succeed for the next to
/// be taken.
#[derive(Debug)]
pub enum Storing {
    /// make a directory, and those above it
    MakeDir { dir: String },
    /// write the new content to a file, which is made with these permissions where it is not there
    Write { file: String, mode: Option<u32> },
    /// give a file these permissions: one that was already there kept its own
    SetMode { file: String, mode: u32 },
    /// put a file in the place of another
    Rename { from: String, to: String },
}

/// What a [`Storing`] says.
pub enum StoringView {
    MakeDir { dir: Seq<char> },
    Write { file: Seq<char>, mode: Option<u32> },
    SetMode { file: Seq<char>, mode: u32 },
    Rename { from: Seq<char>, to: Seq<char> },
}

impl View for Storing {
    type V = StoringView;

    open spec fn view(&self) -> StoringView {
        match self {
            Storing::MakeDir { dir } => StoringView::MakeDir { dir: dir@ },
            Storing::Write { file, mode } => StoringView::Write { file: file@, mode: *mode },
            Storing::SetMode { file, mode } => StoringView::SetMode { file: file@, mode: *mode },
            Storing::Rename { from, to } => StoringView::Rename { from: from@, to: to@ },
        }
    }
}

/// The steps in which the file at `path`, in the directory `dir`, is replaced from `tmp`.
pub open spec fn storing(
    path: Seq<char>,
    dir: Seq<char>,
    tmp: Seq<char>,
    mode: Option<u32>,
) -> Seq<StoringView> {
    seq![StoringView::MakeDir { dir }, StoringView::Write { file: tmp, mode }] + (match mode {
        Some(mode) => seq![StoringView::SetMode { file: tmp, mode }],
        None => seq![],
    }) + seq![StoringView::Rename { from: tmp, to: path }]
}

/// The steps in which the file at `path` is replaced.
pub fn steps(path: &str, plan: &Replacement) -> (steps: Vec<Storing>)
    ensures
        crate::sort::views(steps@) == storing(path@, plan.dir@, plan.tmp@, plan.mode),
{
    let mut steps: Vec<Storing> = Vec::new();
    steps.push(Storing::MakeDir { dir: plan.dir.clone() });
    steps.push(Storing::Write { file: plan.tmp.clone(), mode: plan.mode });
    if let Some(mode) = plan.mode {
        steps.push(Storing::SetMode { file: plan.tmp.clone(), mode });
    }
    steps.push(Storing::Rename { from: plan.tmp.clone(), to: path.to_owned() });
    assert(crate::sort::views(steps@) =~= storing(path@, plan.dir@, plan.tmp@, plan.mode));
    steps
}

/// A file: what it holds, and who may do what with it.
pub struct FileView {
    pub text: Seq<char>,
    pub mode: u32,
}

/// The files there are once a step was taken that writes `text`. A file that is made has the
/// permissions `made`, which the system may cut down from those that were asked for.
pub open spec fn taken(
    files: Map<Seq<char>, FileView>,
    step: StoringView,
    text: Seq<char>,
    made: u32,
) -> Map<Seq<char>, FileView> {
    match step {
        StoringView::MakeDir { .. } => files,
        StoringView::Write { file, .. } => files.insert(
            file,
            FileView {
                text,
                mode: if files.contains_key(file) {
                    files[file].mode
                } else {
                    made
                },
            },
        ),
        StoringView::SetMode { file, mode } => files.insert(
            file,
            FileView { mode, ..files[file] },
        ),
        StoringView::Rename { from, to } => files.remove(from).insert(to, files[from]),
    }
}

/// The files there are once the first `n` steps were taken.
pub open spec fn taken_all(
    files: Map<Seq<char>, FileView>,
    steps: Seq<StoringView>,
    n: int,
    text: Seq<char>,
    made: u32,
) -> Map<Seq<char>, FileView>
    decreases n,
{
    if n <= 0 {
        files
    } else {
        taken(taken_all(files, steps, n - 1, text, made), steps[n - 1], text, made)
    }
}

/// A file is replaced in one go: until the last step nothing but the file beside it has changed, so
/// that being stopped half-way costs nothing, and after it the new content is in its place, with
/// the permissions that were asked for, whatever files were there before.
pub proof fn a_file_is_replaced_in_one_go(
    path: Seq<char>,
    dir: Seq<char>,
    tmp: Seq<char>,
    mode: Option<u32>,
    files: Map<Seq<char>, FileView>,
    text: Seq<char>,
    made: u32,
)
    requires
        tmp != path,
    ensures
        ({
            let steps = storing(path, dir, tmp, mode);
            let last = taken_all(files, steps, steps.len() as int, text, made);
            &&& forall|n: int|
                0 <= n < steps.len() ==> (#[trigger] taken_all(files, steps, n, text, made)).remove(
                    tmp,
                ) == files.remove(tmp)
            &&& last.contains_key(path)
            &&& last[path].text == text
            &&& mode matches Some(mode) ==> last[path].mode == mode
            &&& !last.contains_key(tmp)
            &&& last.remove(path) == files.remove(path).remove(tmp)
        }),
{
    let steps = storing(path, dir, tmp, mode);
    assert(steps[0] == (StoringView::MakeDir { dir }));
    assert(steps[1] == (StoringView::Write { file: tmp, mode }));
    let t0 = taken_all(files, steps, 0, text, made);
    let t1 = taken_all(files, steps, 1, text, made);
    let t2 = taken_all(files, steps, 2, text, made);
    let t3 = taken_all(files, steps, 3, text, made);
    assert(t1 == files);
    assert(t2.remove(tmp) =~= files.remove(tmp));
    match mode {
        Some(mode) => {
            assert(steps.len() == 4);
            assert(steps[2] == (StoringView::SetMode { file: tmp, mode }));
            assert(steps[3] == (StoringView::Rename { from: tmp, to: path }));
            assert(t3.remove(tmp) =~= files.remove(tmp));
            let last = taken_all(files, steps, 4, text, made);
            assert(last.remove(path) =~= files.remove(path).remove(tmp));
        },
        None => {
            assert(steps.len() == 3);
            assert(steps[2] == (StoringView::Rename { from: tmp, to: path }));
            assert(t3.remove(path) =~= files.remove(path).remove(tmp));
        },
    }
}

/// A file is replaced step by step: its directory is made, the new content is written beside it and
/// kept from others from the start where that is asked for, and only then it is put in its place.
pub proof fn a_file_is_written_before_it_is_put_in_place(
    path: Seq<char>,
    dir: Seq<char>,
    tmp: Seq<char>,
    mode: Option<u32>,
)
    ensures
        ({
            let steps = storing(path, dir, tmp, mode);
            &&& steps[0] == (StoringView::MakeDir { dir })
            &&& steps[1] == (StoringView::Write { file: tmp, mode })
            &&& steps.last() == (StoringView::Rename { from: tmp, to: path })
            &&& mode matches Some(mode) ==> steps.len() == 4 && steps[2] == (StoringView::SetMode {
                file: tmp,
                mode,
            })
            &&& mode is None ==> steps.len() == 3
        }),
{
}

/// What a step says is what its fields say.
pub proof fn a_step_is_what_its_fields_say(step: Storing)
    ensures
        step matches Storing::MakeDir { dir } ==> step@ == (StoringView::MakeDir { dir: dir@ }),
        step matches Storing::Write { file, mode } ==> step@ == (StoringView::Write {
            file: file@,
            mode,
        }),
        step matches Storing::SetMode { file, mode } ==> step@ == (StoringView::SetMode {
            file: file@,
            mode,
        }),
        step matches Storing::Rename { from, to } ==> step@ == (StoringView::Rename {
            from: from@,
            to: to@,
        }),
{
}

/// Once the session was stored, the file holds all that was written, nobody but the user may read
/// it, and the file beside it is gone, whatever files were there before and with whatever
/// permissions.
pub proof fn a_stored_session_is_whole_and_private(
    paths: Paths,
    files: Map<Seq<char>, FileView>,
    text: Seq<char>,
    made: u32,
)
    ensures
        ({
            let path = joined(paths.data@, "session.json"@);
            let tmp = extended(path, "json.tmp"@);
            let steps = storing(path, parent_in(path)->0, tmp, Some(MODE));
            let last = taken_all(files, steps, steps.len() as int, text, made);
            &&& last.contains_key(path)
            &&& last[path] == (FileView { text, mode: 0o600 })
            &&& !last.contains_key(tmp)
        }),
{
    let path = joined(paths.data@, "session.json"@);
    let tmp = extended(path, "json.tmp"@);
    a_file_is_replaced_from_beside(paths);
    reveal_strlit("session.json");
    reveal_strlit("session.json.tmp");
    assert(tmp.len() == path.len() + 4);
    a_file_is_replaced_in_one_go(path, parent_in(path)->0, tmp, Some(MODE), files, text, made);
}

}
