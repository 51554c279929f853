//! What holds of every configuration.
use vstd::prelude::*;

use crate::config::{nothing_installed, Config, ConfigView, GameInstall, ProtonInstall};
use crate::disk::Disk;
use crate::proton::usable;
use crate::state::laws::same;

verus! {

/// An installed program is what its fields say.
pub proof fn an_installed_program_is_what_its_fields_say(install: GameInstall)
    ensures
        install@.exe == install.exe@,
        same(install.etag, install@.etag),
        same(install.last_modified, install@.last_modified),
        install@.size == install.size,
{
}

/// A Proton build in use is what its fields say.
pub proof fn a_proton_install_is_what_its_fields_say(install: ProtonInstall)
    ensures
        install@.name == install.name@,
        install@.dir == install.dir@,
        install@.source == install.source,
{
}

/// A configuration is what its fields say.
pub proof fn a_config_is_what_its_fields_say(config: Config)
    ensures
        match config.game {
            Some(game) => config@.game == Some(game@),
            None => config@.game is None,
        },
        match config.studio {
            Some(studio) => config@.studio == Some(studio@),
            None => config@.studio is None,
        },
        match config.proton {
            Some(proton) => config@.proton == Some(proton@),
            None => config@.proton is None,
        },
        same(config.proton_wanted, config@.proton_wanted),
        config@.allow_self_update == config.allow_self_update,
        config@.native_shader_compiler == config.native_shader_compiler,
{
}

/// At first nothing is installed, the game may update itself, and Wine's own shader compiler is used.
pub proof fn at_first_nothing_is_installed()
    ensures
        nothing_installed().game is None,
        nothing_installed().studio is None,
        nothing_installed().proton is None,
        nothing_installed().proton_wanted is None,
        nothing_installed().allow_self_update,
        !nothing_installed().native_shader_compiler,
{
}

/// A program is there exactly if it is configured and its own file is there, and Proton exactly if
/// the configured build can be used here.
pub proof fn what_is_ready_is_there(config: ConfigView, arch: Seq<char>, disk: Disk)
    ensures
        config.has_game(disk) <==> config.game is Some && disk.file(config.game->0.exe),
        config.has_studio(disk) <==> config.studio is Some && disk.file(config.studio->0.exe),
        config.has_proton(arch, disk) <==> config.proton is Some && usable(
            config.proton->0.dir,
            arch,
            disk,
        ),
{
}

}
