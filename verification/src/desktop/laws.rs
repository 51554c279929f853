//! What holds of the desktop entries.
use vstd::prelude::*;

use crate::desktop::{
    claiming, entries_below, icons_below, link_entry, menu_entry, opener, theme_of, updating,
};
use crate::disk::Disk;
use crate::paths::{joined, joined_path_has_its_name_and_parent, parent_in, plain, tidy};
use crate::spelling::{legible, named};
use crate::text::{ends, holds, occurs};

verus! {

broadcast use vstd::string::group_string_axioms;

/// Links go to the program without a window exactly if it is there beside this one.
pub proof fn links_go_to_the_program_without_a_window(
    dir: Seq<char>,
    name: Seq<char>,
    disk: Disk,
)
    requires
        plain(name),
        tidy(dir),
    ensures
        ({
            let exe = joined(dir, name);
            let beside = joined(dir, "vortex-launcher-cli"@);
            opener(exe, disk) == if disk.file(named(beside)) {
                beside
            } else {
                exe
            }
        }),
{
    joined_path_has_its_name_and_parent(dir, name);
}

/// Both entries run the program they are for, with the link as its argument.
pub proof fn an_entry_runs_its_program(exe: Seq<char>)
    ensures
        holds(menu_entry(exe), "Exec="@ + exe + " %u\n"@),
        holds(link_entry(exe), "Exec="@ + exe + " %u\n"@),
{
    reveal_strlit(
        "[Desktop Entry]\nType=Application\nName=Vortex Launcher\nComment=Unofficial Linux launcher for Vortex\nExec=",
    );
    reveal_strlit(
        " %u\nIcon=vortex-launcher\nTerminal=false\nCategories=Game;\nKeywords=vortex;\nStartupWMClass=vortex-launcher\n",
    );
    reveal_strlit(
        "[Desktop Entry]\nType=Application\nName=Vortex Launcher (link handler)\nComment=Opens vortex:// links without a window\nExec=",
    );
    reveal_strlit(
        " %u\nIcon=vortex-launcher\nTerminal=false\nNoDisplay=true\nCategories=Game;\nMimeType=x-scheme-handler/vortex;\n",
    );
    reveal_strlit("Exec=");
    reveal_strlit(" %u\n");
    let wanted = "Exec="@ + exe + " %u\n"@;
    let menu = menu_entry(exe);
    let menu_front =
        "[Desktop Entry]\nType=Application\nName=Vortex Launcher\nComment=Unofficial Linux launcher for Vortex\nExec="@;
    let at = menu_front.len() - 5;
    assert(menu.subrange(at, at + wanted.len()) =~= wanted);
    assert(occurs(menu, wanted, at));
    let link = link_entry(exe);
    let link_front =
        "[Desktop Entry]\nType=Application\nName=Vortex Launcher (link handler)\nComment=Opens vortex:// links without a window\nExec="@;
    let at = link_front.len() - 5;
    assert(link.subrange(at, at + wanted.len()) =~= wanted);
    assert(occurs(link, wanted, at));
}

/// The entry for links claims the scheme and stays out of the menu.
pub proof fn the_entry_for_links_claims_the_scheme(exe: Seq<char>)
    ensures
        ends(
            link_entry(exe),
            "NoDisplay=true\nCategories=Game;\nMimeType=x-scheme-handler/vortex;\n"@,
        ),
        ends(menu_entry(exe), "Keywords=vortex;\nStartupWMClass=vortex-launcher\n"@),
{
    reveal_strlit("NoDisplay=true\nCategories=Game;\nMimeType=x-scheme-handler/vortex;\n");
    reveal_strlit("Keywords=vortex;\nStartupWMClass=vortex-launcher\n");
    reveal_strlit(
        " %u\nIcon=vortex-launcher\nTerminal=false\nCategories=Game;\nKeywords=vortex;\nStartupWMClass=vortex-launcher\n",
    );
    reveal_strlit(
        " %u\nIcon=vortex-launcher\nTerminal=false\nNoDisplay=true\nCategories=Game;\nMimeType=x-scheme-handler/vortex;\n",
    );
    let link = link_entry(exe);
    let link_end = "NoDisplay=true\nCategories=Game;\nMimeType=x-scheme-handler/vortex;\n"@;
    assert(link.subrange(link.len() - link_end.len(), link.len() as int) =~= link_end);
    let menu = menu_entry(exe);
    let menu_end = "Keywords=vortex;\nStartupWMClass=vortex-launcher\n"@;
    assert(menu.subrange(menu.len() - menu_end.len(), menu.len() as int) =~= menu_end);
}

/// The entries and the icon lie below the data directory, where desktops look for them.
pub proof fn the_entries_lie_where_desktops_look(data: Seq<char>, dir: Seq<char>)
    ensures
        entries_below(data) == joined(data, "applications"@),
        icons_below(data) == joined(data, "icons/hicolor/256x256/apps"@),
        updating(dir).program == "update-desktop-database"@,
        updating(dir).args == seq![named(legible(dir))],
        updating(dir).env.len() == 0 && updating(dir).dir is None,
        claiming().program == "xdg-mime"@,
        claiming().args == seq![
            "default"@,
            "vortex-launcher-uri.desktop"@,
            "x-scheme-handler/vortex"@,
        ],
        claiming().env.len() == 0 && claiming().dir is None,
        theme_of(dir) == (match parent_in(dir) {
            Some(up) => parent_in(up),
            None => None,
        }),
{
}

}
