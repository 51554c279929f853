//! The desktop entries that make this launcher the vortex:// handler.
use vstd::prelude::*;

pub mod laws;

use crate::disk::Disk;
use crate::error::{failure, Error};
use crate::launch::{Command, CommandView};
use crate::paths::{data_dir, join, joined, parent, parent_in, renamed, with_file_name};
use crate::spelling::{as_name, legible, named, shown};
use crate::text::{borrowed, same_text, text_in};
use crate::worker::{describe, described};

verus! {

broadcast use vstd::string::group_string_axioms;

/// The program that opens links: the one without a window where it is installed next to this one,
/// else this one. Both are plain text, as they go into the entries.
pub open spec fn opener(exe: Seq<char>, disk: Disk) -> Seq<char> {
    let cli = renamed(exe, "vortex-launcher-cli"@);
    if disk.file(named(cli)) {
        cli
    } else {
        exe
    }
}

/// The program that opens links.
pub fn handler_exe(exe: &str, disk: &Disk) -> (handler: String)
    ensures
        handler@ == opener(exe@, *disk),
{
    let cli = with_file_name(exe, "vortex-launcher-cli");
    if disk.is_file(as_name(cli.as_str()).as_str()) {
        cli
    } else {
        exe.to_owned()
    }
}

/// The entry in the menu, which does not claim the scheme.
pub open spec fn menu_entry(exe: Seq<char>) -> Seq<char> {
    "[Desktop Entry]\nType=Application\nName=Vortex Launcher\nComment=Unofficial Linux launcher for Vortex\nExec="@
        + exe
        + " %u\nIcon=vortex-launcher\nTerminal=false\nCategories=Game;\nKeywords=vortex;\nStartupWMClass=vortex-launcher\n"@
}

/// The entry in the menu, which does not claim the scheme.
pub fn entry(exe: &str) -> (text: String)
    ensures
        text@ == menu_entry(exe@),
{
    "[Desktop Entry]\nType=Application\nName=Vortex Launcher\nComment=Unofficial Linux launcher for Vortex\nExec=".to_owned().concat(
    exe).concat(
        " %u\nIcon=vortex-launcher\nTerminal=false\nCategories=Game;\nKeywords=vortex;\nStartupWMClass=vortex-launcher\n",
    )
}

/// The entry that claims the scheme, which is not in the menu.
pub open spec fn link_entry(handler: Seq<char>) -> Seq<char> {
    "[Desktop Entry]\nType=Application\nName=Vortex Launcher (link handler)\nComment=Opens vortex:// links without a window\nExec="@
        + handler
        + " %u\nIcon=vortex-launcher\nTerminal=false\nNoDisplay=true\nCategories=Game;\nMimeType=x-scheme-handler/vortex;\n"@
}

/// The entry that claims the scheme, which is not in the menu.
pub fn handler_entry(exe: &str, disk: &Disk) -> (text: String)
    ensures
        text@ == link_entry(opener(exe@, *disk)),
{
    "[Desktop Entry]\nType=Application\nName=Vortex Launcher (link handler)\nComment=Opens vortex:// links without a window\nExec=".to_owned().concat(
    handler_exe(exe, disk).as_str()).concat(
        " %u\nIcon=vortex-launcher\nTerminal=false\nNoDisplay=true\nCategories=Game;\nMimeType=x-scheme-handler/vortex;\n",
    )
}

/// Where the entries go.
pub open spec fn entries_below(data: Seq<char>) -> Seq<char> {
    joined(data, "applications"@)
}

/// Where the icon goes, so that it resolves by name.
pub open spec fn icons_below(data: Seq<char>) -> Seq<char> {
    joined(data, "icons/hicolor/256x256/apps"@)
}

/// The directory of the entries below a data directory, where there is one.
pub fn applications_below(data: Option<&str>) -> (dir: Option<String>)
    ensures
        match data {
            Some(data) => dir matches Some(dir) && dir@ == entries_below(data@),
            None => dir is None,
        },
{
    match data {
        Some(data) => Some(join(data, "applications")),
        None => None,
    }
}

/// The directory of the entries, below the user's data directory.
pub fn applications_dir() -> (dir: Option<String>)
    ensures
        dir matches Some(dir) ==> exists|data: Seq<char>| dir@ == #[trigger] entries_below(data),
{
    let data = data_dir();
    applications_below(
        match &data {
            Some(data) => Some(data.as_str()),
            None => None,
        },
    )
}

/// A file to write.
#[derive(Debug)]
pub struct Writing {
    pub path: String,
    pub text: String,
}

/// Whether `writing` puts `text` into the file at `path`.
pub open spec fn writes(writing: Writing, path: Seq<char>, text: Seq<char>) -> bool {
    writing.path@ == path && writing.text@ == text
}

/// What is to be done about the entries.
#[derive(Debug)]
pub struct Plan {
    /// the files that are missing or out of date
    pub files: Vec<Writing>,
    /// what is to be run afterwards
    pub commands: Vec<Command>,
}

/// The command that makes the entries known.
pub open spec fn updating(dir: Seq<char>) -> CommandView {
    CommandView {
        program: "update-desktop-database"@,
        args: seq![named(legible(dir))],
        env: seq![],
        dir: None,
    }
}

/// The command that claims the scheme.
pub open spec fn claiming() -> CommandView {
    CommandView {
        program: "xdg-mime"@,
        args: seq!["default"@, "vortex-launcher-uri.desktop"@, "x-scheme-handler/vortex"@],
        env: seq![],
        dir: None,
    }
}

/// What is to be done about the entries in `dir` for the launcher at `exe`, where `menu` and `link`
/// are what the two files hold now. Only what changed is written, and only then anything is run.
pub fn install(dir: &str, exe: &str, menu: Option<&str>, link: Option<&str>, disk: &Disk) -> (plan:
    Plan)
    ensures
        ({
            let menu_path = joined(dir@, "vortex-launcher.desktop"@);
            let link_path = joined(dir@, "vortex-launcher-uri.desktop"@);
            let menu_text = menu_entry(exe@);
            let link_text = link_entry(opener(exe@, *disk));
            match (borrowed(menu) == Some(menu_text), borrowed(link) == Some(link_text)) {
                (true, true) => plan.files@.len() == 0,
                (false, true) => plan.files@.len() == 1 && writes(
                    plan.files@[0],
                    menu_path,
                    menu_text,
                ),
                (true, false) => plan.files@.len() == 1 && writes(
                    plan.files@[0],
                    link_path,
                    link_text,
                ),
                (false, false) => plan.files@.len() == 2 && writes(
                    plan.files@[0],
                    menu_path,
                    menu_text,
                ) && writes(plan.files@[1], link_path, link_text),
            }
        }),
        if plan.files@.len() == 0 {
            plan.commands@.len() == 0
        } else {
            plan.commands@.len() == 2 && plan.commands@[0]@ == updating(dir@)
                && plan.commands@[1]@ == claiming()
        },
{
    let mut files: Vec<Writing> = Vec::new();
    let text = entry(exe);
    let current = match menu {
        Some(found) => same_text(found, text.as_str()),
        None => false,
    };
    if !current {
        files.push(Writing { path: join(dir, "vortex-launcher.desktop"), text });
    }
    let text = handler_entry(exe, disk);
    let current = match link {
        Some(found) => same_text(found, text.as_str()),
        None => false,
    };
    if !current {
        files.push(Writing { path: join(dir, "vortex-launcher-uri.desktop"), text });
    }
    let mut commands: Vec<Command> = Vec::new();
    if files.len() > 0 {
        let mut update = Command::new("update-desktop-database".to_owned());
        update.arg(as_name(shown(dir).as_str()).as_str());
        assert(update@.args =~= updating(dir@).args);
        commands.push(update);
        let mut claim = Command::new("xdg-mime".to_owned());
        claim.arg("default");
        claim.arg("vortex-launcher-uri.desktop");
        claim.arg("x-scheme-handler/vortex");
        assert(claim@.args =~= claiming().args);
        commands.push(claim);
    }
    Plan { files, commands }
}

/// What is to be done about the icon.
#[derive(Debug)]
pub struct Icon {
    pub file: String,
    /// what is to be run once it is written
    pub refresh: Option<Command>,
}

/// The directory of the theme that `dir` belongs to, two levels up.
pub open spec fn theme_of(dir: Seq<char>) -> Option<Seq<char>> {
    match parent_in(dir) {
        Some(up) => parent_in(up),
        None => None,
    }
}

fn theme(dir: &str) -> (theme: Option<String>)
    ensures
        text_in(theme) == theme_of(dir@),
{
    match parent(dir) {
        Some(up) => parent(up.as_str()),
        None => None,
    }
}

fn same_bytes(a: &Vec<u8>, b: &[u8]) -> (same: bool)
    ensures
        same == (a@ == b@),
{
    if a.len() != b.len() {
        return false;
    }
    let mut i: usize = 0;
    while i < a.len()
        invariant
            i <= a.len(),
            a@.len() == b@.len(),
            forall|k: int| 0 <= k < i ==> a@[k] == b@[k],
        decreases a.len() - i,
    {
        if a[i] != b[i] {
            return false;
        }
        i += 1;
    }
    assert(a@ =~= b@);
    true
}

/// The directory of the icon below a data directory, where there is one.
pub fn icons_dir_below(data: Option<&str>) -> (dir: Result<String, Error>)
    ensures
        match data {
            Some(data) => dir matches Ok(dir) && dir@ == icons_below(data@),
            None => dir matches Err(e) && e@ == failure("no XDG data directory"@),
        },
{
    match data {
        Some(data) => Ok(join(data, "icons/hicolor/256x256/apps")),
        None => Err(Error::says("no XDG data directory")),
    }
}

/// The directory of the icon, below the user's data directory.
pub fn icons_dir() -> (dir: Result<String, Error>)
    ensures
        match dir {
            Ok(dir) => exists|data: Seq<char>| dir@ == #[trigger] icons_below(data),
            Err(e) => e@ == failure("no XDG data directory"@),
        },
{
    let data = data_dir();
    icons_dir_below(
        match &data {
            Some(data) => Some(data.as_str()),
            None => None,
        },
    )
}

/// What is to be done about the icon in `dir`: nothing where it is `wanted` already, else it is
/// written, and the theme's cache is refreshed.
pub fn install_icon(dir: &str, wanted: &[u8], disk: &Disk) -> (icon: Option<Icon>)
    ensures
        if disk.content(joined(dir@, "vortex-launcher.png"@)) == Some(wanted@) {
            icon is None
        } else {
            &&& icon matches Some(icon)
            &&& icon.file@ == joined(dir@, "vortex-launcher.png"@)
            &&& match theme_of(dir@) {
                Some(theme) => icon.refresh matches Some(command) && command@ == (CommandView {
                    program: "gtk-update-icon-cache"@,
                    args: seq!["-t"@, "-q"@, named(legible(theme))],
                    env: seq![],
                    dir: None,
                }),
                None => icon.refresh is None,
            }
        },
{
    let file = join(dir, "vortex-launcher.png");
    if let Some(found) = disk.read(file.as_str()) {
        if same_bytes(found, wanted) {
            return None;
        }
    }
    let refresh = match theme(dir) {
        Some(theme) => {
            let mut command = Command::new("gtk-update-icon-cache".to_owned());
            command.arg("-t");
            command.arg("-q");
            command.arg(as_name(shown(theme.as_str()).as_str()).as_str());
            assert(command@.args =~= seq!["-t"@, "-q"@, named(legible(theme@))]);
            Some(command)
        },
        None => None,
    };
    Some(Icon { file, refresh })
}

/// What is logged of the entries, where anything is.
pub fn note(installed: Result<bool, Error>) -> (line: Option<String>)
    ensures
        text_in(line) == (match installed {
            Ok(true) => Some("registered as the vortex:// handler"@),
            Ok(false) => None,
            Err(e) => Some("desktop entry failed: "@ + described(e@)),
        }),
{
    match installed {
        Ok(true) => Some("registered as the vortex:// handler".to_owned()),
        Ok(false) => None,
        Err(e) => Some("desktop entry failed: ".to_owned().concat(describe(&e).as_str())),
    }
}

/// The program that opens links is this one, or one that is there.
pub proof fn links_go_to_a_program_that_is_there(exe: Seq<char>, disk: Disk)
    ensures
        opener(exe, disk) == exe || disk.file(named(opener(exe, disk))),
{
}

}
