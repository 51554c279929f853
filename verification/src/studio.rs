//! The Windows build of Vortex Studio.
use vstd::prelude::*;

use crate::error::{said, Error};
use crate::game::{install_build, Action, Build, BuildView, Install};
use crate::net::{probe_request, probed, probing, Remote, Reply, Request};
use crate::paths::{joined, Paths};

verus! {

/// The studio, for the session that `token` stands for.
pub open spec fn the_studio(paths: Paths, token: Seq<char>) -> BuildView {
    BuildView {
        url: "https://playvortex.io/download/studio-windows"@,
        token: Some(token),
        archive: "VortexStudio-Windows.zip"@,
        exe: "VortexStudio.exe"@,
        label: "studio"@,
        dir: joined(paths.data@, "studio"@),
    }
}

/// The studio, for the session that `token` stands for.
pub fn build(paths: &Paths, token: &str) -> (build: Build)
    ensures
        build@ == the_studio(*paths, token@),
{
    Build {
        url: "https://playvortex.io/download/studio-windows".to_owned(),
        token: Some(token.to_owned()),
        archive: "VortexStudio-Windows.zip".to_owned(),
        exe: "VortexStudio.exe".to_owned(),
        label: "studio".to_owned(),
        dir: paths.studio(),
    }
}

/// The request that tells which build of the studio the server has.
pub fn ask(token: &str) -> (request: Request)
    ensures
        request@ == probing("https://playvortex.io/download/studio-windows"@, Some(token@)),
{
    probe_request("https://playvortex.io/download/studio-windows", Some(token))
}

/// Reads what came back for the probe of the studio, or why nothing did.
pub fn probe(reply: Result<Reply, Error>) -> (remote: Result<Remote, Error>)
    ensures
        said(remote) == probed("https://playvortex.io/download/studio-windows"@, reply),
{
    crate::net::probe("https://playvortex.io/download/studio-windows", reply)
}

/// Sets out to install the studio, for the session that `token` stands for.
pub fn install(paths: &Paths, token: &str) -> (begun: (Install, Action))
    ensures
        begun.0.paths.data@ == paths.data@,
        begun.0.paths.config@ == paths.config@,
        begun.0.build@ == the_studio(*paths, token@),
        begun.0.stage is Probing,
        begun.1 matches Action::Fetch(request) && request@ == probing(
            the_studio(*paths, token@).url,
            Some(token@),
        ),
{
    install_build(paths, build(paths, token))
}

}
