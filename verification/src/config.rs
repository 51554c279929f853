//! The launcher's state between runs. Written by the launcher, never meant to be edited by hand.
use vstd::prelude::*;

pub mod laws;

use crate::disk::Disk;
use crate::error::{failure, Error};
use crate::paths::{extended, parent_in, replacement, Replacement};
use crate::proton::{is_usable, usable};
use crate::text::text_in;

verus! {

/// What is installed and how it is to be run.
#[derive(Debug)]
pub struct Config {
    pub game: Option<GameInstall>,
    pub studio: Option<GameInstall>,
    pub proton: Option<ProtonInstall>,
    /// a build the user picked from the release list, downloaded on the next install
    pub proton_wanted: Option<String>,
    /// on by default, a pinned old client cannot join a patched server
    pub allow_self_update: bool,
    /// off by default: it only helps the GPUs where vkd3d-shader miscompiles, and turning it on
    /// for everyone would change a rendering path that works
    pub native_shader_compiler: bool,
}

/// An installed program, and what the server said of the archive it came from.
#[derive(Debug)]
pub struct GameInstall {
    pub exe: String,
    pub etag: Option<String>,
    pub last_modified: Option<String>,
    pub size: u64,
}

/// A Proton build in use.
#[derive(Debug)]
pub struct ProtonInstall {
    pub name: String,
    /// the directory that holds the proton script
    pub dir: String,
    pub source: ProtonSource,
}

/// Where a Proton build comes from. Ordered: a managed build is preferred over one borrowed from
/// Steam.
#[derive(Clone, Copy, Debug, PartialEq, Eq, PartialOrd, Ord, Structural)]
pub enum ProtonSource {
    Managed,
    System,
}

/// What a [`GameInstall`] says.
pub struct GameInstallView {
    pub exe: Seq<char>,
    pub etag: Option<Seq<char>>,
    pub last_modified: Option<Seq<char>>,
    pub size: u64,
}

/// What a [`ProtonInstall`] says.
pub struct ProtonInstallView {
    pub name: Seq<char>,
    pub dir: Seq<char>,
    pub source: ProtonSource,
}

/// What a [`Config`] says.
pub struct ConfigView {
    pub game: Option<GameInstallView>,
    pub studio: Option<GameInstallView>,
    pub proton: Option<ProtonInstallView>,
    pub proton_wanted: Option<Seq<char>>,
    pub allow_self_update: bool,
    pub native_shader_compiler: bool,
}

impl View for GameInstall {
    type V = GameInstallView;

    open spec fn view(&self) -> GameInstallView {
        GameInstallView {
            exe: self.exe@,
            etag: text_in(self.etag),
            last_modified: text_in(self.last_modified),
            size: self.size,
        }
    }
}

impl View for ProtonInstall {
    type V = ProtonInstallView;

    open spec fn view(&self) -> ProtonInstallView {
        ProtonInstallView { name: self.name@, dir: self.dir@, source: self.source }
    }
}

/// What is in an option.
pub open spec fn inside<T: View>(x: Option<T>) -> Option<T::V> {
    match x {
        Some(x) => Some(x@),
        None => None,
    }
}

impl View for Config {
    type V = ConfigView;

    open spec fn view(&self) -> ConfigView {
        ConfigView {
            game: inside(self.game),
            studio: inside(self.studio),
            proton: inside(self.proton),
            proton_wanted: text_in(self.proton_wanted),
            allow_self_update: self.allow_self_update,
            native_shader_compiler: self.native_shader_compiler,
        }
    }
}

/// A copy of an optional text.
pub fn copied(s: &Option<String>) -> (t: Option<String>)
    ensures
        text_in(t) == text_in(*s),
{
    match s {
        Some(s) => Some(s.clone()),
        None => None,
    }
}

impl Clone for GameInstall {
    fn clone(&self) -> (copy: GameInstall)
        ensures
            copy@ == self@,
    {
        GameInstall {
            exe: self.exe.clone(),
            etag: copied(&self.etag),
            last_modified: copied(&self.last_modified),
            size: self.size,
        }
    }
}

impl Clone for ProtonInstall {
    fn clone(&self) -> (copy: ProtonInstall)
        ensures
            copy@ == self@,
    {
        ProtonInstall { name: self.name.clone(), dir: self.dir.clone(), source: self.source }
    }
}

impl Clone for Config {
    fn clone(&self) -> (copy: Config)
        ensures
            copy@ == self@,
    {
        Config {
            game: match &self.game {
                Some(game) => Some(game.clone()),
                None => None,
            },
            studio: match &self.studio {
                Some(studio) => Some(studio.clone()),
                None => None,
            },
            proton: match &self.proton {
                Some(proton) => Some(proton.clone()),
                None => None,
            },
            proton_wanted: copied(&self.proton_wanted),
            allow_self_update: self.allow_self_update,
            native_shader_compiler: self.native_shader_compiler,
        }
    }
}

/// The state in which nothing is installed, and the game may update itself.
pub open spec fn nothing_installed() -> ConfigView {
    ConfigView {
        game: None,
        studio: None,
        proton: None,
        proton_wanted: None,
        allow_self_update: true,
        native_shader_compiler: false,
    }
}

impl Default for Config {
    /// What the fields that a stored state lacks are taken from.
    fn default() -> (config: Config)
        ensures
            config@ == nothing_installed(),
    {
        Config {
            game: None,
            studio: None,
            proton: None,
            proton_wanted: None,
            allow_self_update: true,
            native_shader_compiler: false,
        }
    }
}

impl ConfigView {
    /// Whether the game is there.
    pub open spec fn has_game(self, disk: Disk) -> bool {
        self.game matches Some(game) && disk.file(game.exe)
    }

    /// Whether the studio is there.
    pub open spec fn has_studio(self, disk: Disk) -> bool {
        self.studio matches Some(studio) && disk.file(studio.exe)
    }

    /// Whether the Proton build is there and can run on a host of this architecture.
    pub open spec fn has_proton(self, arch: Seq<char>, disk: Disk) -> bool {
        self.proton matches Some(proton) && usable(proton.dir, arch, disk)
    }
}

impl Config {
    /// The state to start from: the stored one, where there is one that can be read. A missing or
    /// broken one is not fatal, everything gets detected again.
    pub fn load(stored: Option<Config>) -> (config: Config)
        ensures
            config@ == (match stored {
                Some(stored) => stored@,
                None => nothing_installed(),
            }),
    {
        match stored {
            Some(stored) => stored,
            None => Config::default(),
        }
    }

    /// How the stored state at `path` is replaced.
    pub fn save(path: &str) -> (replacing: Result<Replacement, Error>)
        ensures
            match replacing {
                Ok(replacing) => parent_in(path@) == Some(replacing.dir@) && replacing.tmp@
                    == extended(path@, "json.tmp"@) && replacing.mode is None,
                Err(e) => parent_in(path@) is None && e@ == failure("config path has no parent"@),
            },
    {
        match replacement(path, None) {
            Some(replacing) => Ok(replacing),
            None => Err(Error::says("config path has no parent")),
        }
    }

    /// Whether the game is there.
    pub fn game_ready(&self, disk: &Disk) -> (ready: bool)
        ensures
            ready == self@.has_game(*disk),
    {
        match &self.game {
            Some(game) => disk.is_file(game.exe.as_str()),
            None => false,
        }
    }

    /// Whether the studio is there.
    pub fn studio_ready(&self, disk: &Disk) -> (ready: bool)
        ensures
            ready == self@.has_studio(*disk),
    {
        match &self.studio {
            Some(studio) => disk.is_file(studio.exe.as_str()),
            None => false,
        }
    }

    /// Whether the Proton build is there and can run on a host of this architecture.
    pub fn proton_ready(&self, arch: &str, disk: &Disk) -> (ready: bool)
        ensures
            ready == self@.has_proton(arch@, *disk),
    {
        match &self.proton {
            Some(proton) => is_usable(proton.dir.as_str(), arch, disk),
            None => false,
        }
    }
}

}
