//! The GE-Proton releases on GitHub.
use vstd::prelude::*;

pub mod laws;

use crate::error::{failure, said, CauseView, Error};
use crate::json::{json_in, parse, read_as, Json, JsonView};
use crate::net::{get_text, text_answer, text_at, text_request, Reply, Request};
use crate::text::{
    borrowed, contains_text, ends, ends_with, holds, owned, same_text, text_in, texts,
};

verus! {

broadcast use vstd::string::group_string_axioms;

/// A release that can be installed.
#[derive(Debug)]
pub struct Release {
    pub tag: String,
    /// where the archive for this host is
    pub tarball: String,
    /// where its checksum is
    pub checksum: Option<String>,
}

/// What a [`Release`] says.
pub struct ReleaseView {
    pub tag: Seq<char>,
    pub tarball: Seq<char>,
    pub checksum: Option<Seq<char>>,
}

impl View for Release {
    type V = ReleaseView;

    open spec fn view(&self) -> ReleaseView {
        ReleaseView { tag: self.tag@, tarball: self.tarball@, checksum: text_in(self.checksum) }
    }
}

/// Whether a file of a release is the archive for a host of this architecture.
pub open spec fn for_host(name: Seq<char>, arch: Seq<char>) -> bool {
    ends(name, ".tar.gz"@) && (holds(name, "aarch64"@) || holds(name, "arm64"@)) == (arch
        == "aarch64"@)
}

/// The first archive for a host of this architecture, out of the names from the `i`th on.
pub open spec fn archive_among(names: Seq<Seq<char>>, arch: Seq<char>, i: int) -> Option<Seq<char>>
    decreases names.len() - i,
{
    if i >= names.len() {
        None
    } else if for_host(names[i], arch) {
        Some(names[i])
    } else {
        archive_among(names, arch, i + 1)
    }
}

/// The archive for a host of this architecture. Releases hold the archives for several side by
/// side, and that for aarch64 comes first.
pub fn tarball_for_host(names: &Vec<String>, arch: &str) -> (tarball: Option<String>)
    ensures
        text_in(tarball) == archive_among(texts(names@), arch@, 0),
{
    let wants_arm = same_text(arch, "aarch64");
    let ghost all = texts(names@);
    let mut i: usize = 0;
    while i < names.len()
        invariant
            i <= names.len(),
            all == texts(names@),
            wants_arm == (arch@ == "aarch64"@),
            archive_among(all, arch@, 0) == archive_among(all, arch@, i as int),
        decreases names.len() - i,
    {
        let name = names[i].as_str();
        assert(all[i as int] == name@);
        let arm = contains_text(name, "aarch64") || contains_text(name, "arm64");
        if ends_with(name, ".tar.gz") && arm == wants_arm {
            return Some(names[i].clone());
        }
        i += 1;
    }
    None
}

/// `s` without `suffix` at its end, however often it stands there.
pub open spec fn without_suffix(s: Seq<char>, suffix: Seq<char>) -> Seq<char>
    decreases s.len(),
{
    if suffix.len() > 0 && ends(s, suffix) {
        without_suffix(s.subrange(0, s.len() - suffix.len()), suffix)
    } else {
        s
    }
}

/// The file that holds the checksum of an archive.
pub open spec fn checksum_name(tarball: Seq<char>) -> Seq<char> {
    without_suffix(tarball, ".tar.gz"@) + ".sha512sum"@
}

/// The file that holds the checksum of an archive.
pub fn checksum_for(tarball: &str) -> (name: String)
    ensures
        name@ == checksum_name(tarball@),
{
    proof {
        reveal_strlit(".tar.gz");
    }
    let v = crate::text::chars_of(tarball);
    let mut rest = tarball.to_owned();
    let mut end: usize = v.len();
    assert(v@.subrange(0, end as int) =~= tarball@);
    while ends_with(rest.as_str(), ".tar.gz")
        invariant
            end <= v.len(),
            v@ == tarball@,
            ".tar.gz"@.len() == 7,
            rest@ == v@.subrange(0, end as int),
            without_suffix(tarball@, ".tar.gz"@) == without_suffix(rest@, ".tar.gz"@),
        decreases end,
    {
        let ghost before = rest@;
        end -= 7;
        rest = crate::text::text_of(&v, 0, end);
        assert(rest@ =~= before.subrange(0, before.len() - 7));
    }
    rest.concat(".sha512sum")
}

/// The texts that the items of a list hold under `name`, from the `i`th item on.
pub open spec fn texts_under(items: Seq<JsonView>, name: Seq<char>, i: int) -> Seq<Seq<char>>
    decreases items.len() - i,
{
    if i >= items.len() {
        seq![]
    } else {
        match items[i].text_at(name) {
            Some(text) => seq![text] + texts_under(items, name, i + 1),
            None => texts_under(items, name, i + 1),
        }
    }
}

/// The items of `items` stand for `all`.
spec fn stand_for(items: Seq<Json>, all: Seq<JsonView>) -> bool {
    all.len() == items.len() && forall|i: int|
        0 <= i < all.len() ==> #[trigger] all[i] == items[i]@
}

fn collect_texts(items: &Vec<Json>, name: &str, Ghost(all): Ghost<Seq<JsonView>>) -> (list: Vec<
    String,
>)
    requires
        stand_for(items@, all),
    ensures
        texts(list@) == texts_under(all, name@, 0),
{
    let mut list: Vec<String> = Vec::new();
    let mut i: usize = 0;
    assert(texts(list@) + texts_under(all, name@, 0) =~= texts_under(all, name@, 0));
    while i < items.len()
        invariant
            i <= items.len(),
            stand_for(items@, all),
            texts(list@) + texts_under(all, name@, i as int) == texts_under(all, name@, 0),
        decreases items.len() - i,
    {
        let ghost before = texts(list@);
        assert(all[i as int] == items@[i as int]@);
        if let Some(text) = items[i].text_at(name) {
            list.push(text.to_owned());
            assert(texts(list@) =~= before.push(text@));
            assert(before.push(text@) + texts_under(all, name@, i + 1) =~= before + (seq![text@]
                + texts_under(all, name@, i + 1)));
        }
        i += 1;
    }
    assert(texts(list@) + texts_under(all, name@, i as int) =~= texts(list@));
    list
}

/// The first item from the `i`th on whose name is `name`.
pub open spec fn asset_named(assets: Seq<JsonView>, name: Seq<char>, i: int) -> Option<JsonView>
    decreases assets.len() - i,
{
    if i >= assets.len() {
        None
    } else if assets[i].text_at("name"@) == Some(name) {
        Some(assets[i])
    } else {
        asset_named(assets, name, i + 1)
    }
}

/// Where the file called `name` is.
pub open spec fn asset_url(assets: Seq<JsonView>, name: Seq<char>) -> Option<Seq<char>> {
    match asset_named(assets, name, 0) {
        Some(asset) => asset.text_at("browser_download_url"@),
        None => None,
    }
}

fn url_of(assets: &Vec<Json>, name: &str, Ghost(all): Ghost<Seq<JsonView>>) -> (url: Option<String>)
    requires
        stand_for(assets@, all),
    ensures
        text_in(url) == asset_url(all, name@),
{
    let mut i: usize = 0;
    while i < assets.len()
        invariant
            i <= assets.len(),
            stand_for(assets@, all),
            asset_named(all, name@, 0) == asset_named(all, name@, i as int),
        decreases assets.len() - i,
    {
        assert(all[i as int] == assets@[i as int]@);
        let named = match assets[i].text_at("name") {
            Some(found) => same_text(found, name),
            None => false,
        };
        if named {
            return owned(assets[i].text_at("browser_download_url"));
        }
        i += 1;
    }
    None
}

/// The release that a description of it offers to a host of this architecture.
pub open spec fn release_in(json: JsonView, arch: Seq<char>) -> Result<ReleaseView, Seq<CauseView>> {
    match (json.text_at("tag_name"@), json.member("assets"@)) {
        (None, _) => Err(failure("GitHub release has no tag"@)),
        (Some(tag), Some(JsonView::List(assets))) => match archive_among(
            texts_under(assets, "name"@, 0),
            arch,
            0,
        ) {
            None => Err(failure("no GE-Proton build for "@ + arch + " in "@ + tag)),
            Some(wanted) => match asset_url(assets, wanted) {
                None => Err(failure("GitHub asset has no download url"@)),
                Some(tarball) => Ok(
                    ReleaseView {
                        tag,
                        tarball,
                        checksum: asset_url(assets, checksum_name(wanted)),
                    },
                ),
            },
        },
        (Some(_), _) => Err(failure("GitHub release has no assets"@)),
    }
}

/// The release that a description of it offers to a host of this architecture.
pub fn release_from(json: &Json, arch: &str) -> (release: Result<Release, Error>)
    ensures
        said(release) == release_in(json@, arch@),
{
    let tag = match json.text_at("tag_name") {
        Some(tag) => tag.to_owned(),
        None => {
            return Err(Error::says("GitHub release has no tag"));
        },
    };
    let list = match json.member("assets") {
        Some(list) => list,
        None => {
            return Err(Error::says("GitHub release has no assets"));
        },
    };
    let assets = match list.items() {
        Some(assets) => assets,
        None => {
            return Err(Error::says("GitHub release has no assets"));
        },
    };
    let ghost all = list@.items()->0;
    let names = collect_texts(assets, "name", Ghost(all));
    let wanted = match tarball_for_host(&names, arch) {
        Some(wanted) => wanted,
        None => {
            return Err(
                Error::new(
                    "no GE-Proton build for ".to_owned().concat(arch).concat(" in ").concat(
                        tag.as_str(),
                    ),
                ),
            );
        },
    };
    match url_of(assets, wanted.as_str(), Ghost(all)) {
        None => Err(Error::says("GitHub asset has no download url")),
        Some(tarball) => {
            let checksum = url_of(assets, checksum_for(wanted.as_str()).as_str(), Ghost(all));
            Ok(Release { tag, tarball, checksum })
        },
    }
}

/// Where the release with this tag is described, or the latest one.
pub open spec fn release_page(tag: Option<Seq<char>>) -> Seq<char> {
    match tag {
        Some(tag) =>
            "https://api.github.com/repos/GloriousEggroll/proton-ge-custom/releases/tags/"@ + tag,
        None => "https://api.github.com/repos/GloriousEggroll/proton-ge-custom/releases/latest"@,
    }
}

/// Where the release with this tag is described, or the latest one.
pub fn release_url(tag: Option<&str>) -> (url: String)
    ensures
        url@ == release_page(borrowed(tag)),
{
    match tag {
        Some(tag) =>
            "https://api.github.com/repos/GloriousEggroll/proton-ge-custom/releases/tags/".to_owned().concat(
            tag,
        ),
        None =>
            "https://api.github.com/repos/GloriousEggroll/proton-ge-custom/releases/latest".to_owned(),
    }
}

/// What to say where the release with this tag, or the latest one, cannot be asked for.
pub open spec fn no_answer(tag: Option<Seq<char>>) -> Seq<char> {
    match tag {
        Some(tag) => "cannot find "@ + tag + " on GitHub"@,
        None => "cannot ask GitHub for GE-Proton"@,
    }
}

/// What a description that came as JSON, or did not, comes to.
pub open spec fn release_answer(json: Result<JsonView, Seq<char>>, arch: Seq<char>) -> Result<
    ReleaseView,
    Seq<CauseView>,
> {
    match json {
        Ok(json) => release_in(json, arch),
        Err(reason) => Err(failure("GitHub sent something that is not JSON"@) + failure(reason)),
    }
}

/// What a description that came as JSON, or did not, comes to.
pub fn judge_release(json: Result<Json, String>, arch: &str) -> (release: Result<Release, Error>)
    ensures
        said(release) == release_answer(read_as(json), arch@),
{
    match json {
        Ok(json) => release_from(&json, arch),
        Err(reason) => Err(
            Error::new(reason).context("GitHub sent something that is not JSON".to_owned()),
        ),
    }
}

/// What asking for the release with this tag, or the latest one, comes to.
pub open spec fn release_reply(
    tag: Option<Seq<char>>,
    reply: Result<Reply, Error>,
    arch: Seq<char>,
) -> Result<ReleaseView, Seq<CauseView>> {
    match text_answer(release_page(tag), reply) {
        Ok(body) => release_answer(json_in(body), arch),
        Err(reason) => Err(failure(no_answer(tag)) + reason),
    }
}

fn release(tag: Option<&str>, reply: Result<Reply, Error>, arch: &str) -> (release: Result<
    Release,
    Error,
>)
    ensures
        said(release) == release_reply(borrowed(tag), reply, arch@),
{
    match get_text(release_url(tag).as_str(), reply) {
        Ok(body) => judge_release(parse(body.as_str()), arch),
        Err(reason) => Err(
            reason.context(
                match tag {
                    Some(tag) => "cannot find ".to_owned().concat(tag).concat(" on GitHub"),
                    None => "cannot ask GitHub for GE-Proton".to_owned(),
                },
            ),
        ),
    }
}

/// Reads what came back for the latest release, or why nothing did.
pub fn latest_release(reply: Result<Reply, Error>, arch: &str) -> (latest: Result<Release, Error>)
    ensures
        said(latest) == release_reply(None, reply, arch@),
{
    release(None, reply, arch)
}

/// Reads what came back for the release with this tag, or why nothing did.
pub fn release_by_tag(tag: &str, reply: Result<Reply, Error>, arch: &str) -> (tagged: Result<
    Release,
    Error,
>)
    ensures
        said(tagged) == release_reply(Some(tag@), reply, arch@),
{
    release(Some(tag), reply, arch)
}

/// The request for the list of releases.
pub fn releases_request() -> (request: Request)
    ensures
        request@ == text_at(
            "https://api.github.com/repos/GloriousEggroll/proton-ge-custom/releases?per_page=40"@,
        ),
{
    text_request(
        "https://api.github.com/repos/GloriousEggroll/proton-ge-custom/releases?per_page=40",
    )
}

/// What came of reading a list of texts.
pub open spec fn listed(tags: Result<Vec<String>, Error>) -> Result<
    Seq<Seq<char>>,
    Seq<CauseView>,
> {
    match tags {
        Ok(tags) => Ok(texts(tags@)),
        Err(e) => Err(e@),
    }
}

/// The tags in a list that came as JSON, or did not.
pub open spec fn tags_answer(json: Result<JsonView, Seq<char>>) -> Result<
    Seq<Seq<char>>,
    Seq<CauseView>,
> {
    match json {
        Ok(json) => match json.items() {
            Some(items) => Ok(texts_under(items, "tag_name"@, 0)),
            None => Err(failure("GitHub sent no release list"@)),
        },
        Err(reason) => Err(failure("GitHub sent something that is not JSON"@) + failure(reason)),
    }
}

/// The tags in a list that came as JSON, or did not.
pub fn judge_tags(json: Result<Json, String>) -> (tags: Result<Vec<String>, Error>)
    ensures
        listed(tags) == tags_answer(read_as(json)),
{
    match json {
        Ok(json) => match json.items() {
            Some(items) => {
                let ghost all = json@.items()->0;
                Ok(collect_texts(items, "tag_name", Ghost(all)))
            },
            None => Err(Error::says("GitHub sent no release list")),
        },
        Err(reason) => Err(
            Error::new(reason).context("GitHub sent something that is not JSON".to_owned()),
        ),
    }
}

/// Reads what came back for the list of releases, newest first, or why nothing did.
pub fn releases(reply: Result<Reply, Error>) -> (tags: Result<Vec<String>, Error>)
    ensures
        listed(tags) == (match text_answer(
            "https://api.github.com/repos/GloriousEggroll/proton-ge-custom/releases?per_page=40"@,
            reply,
        ) {
            Ok(body) => tags_answer(json_in(body)),
            Err(reason) => Err(failure("cannot ask GitHub for GE-Proton"@) + reason),
        }),
{
    match get_text(
        "https://api.github.com/repos/GloriousEggroll/proton-ge-custom/releases?per_page=40",
        reply,
    ) {
        Ok(body) => judge_tags(parse(body.as_str())),
        Err(reason) => Err(reason.context("cannot ask GitHub for GE-Proton".to_owned())),
    }
}

/// The archive picked for a host fits it: one for aarch64 never lands on another processor.
pub proof fn the_archive_fits_the_host(names: Seq<Seq<char>>, arch: Seq<char>, i: int)
    requires
        0 <= i,
        archive_among(names, arch, i) is Some,
    ensures
        names.contains(archive_among(names, arch, i)->0),
        for_host(archive_among(names, arch, i)->0, arch),
    decreases names.len() - i,
{
    if i < names.len() {
        if for_host(names[i], arch) {
            assert(names[i] == archive_among(names, arch, i)->0);
        } else {
            the_archive_fits_the_host(names, arch, i + 1);
        }
    }
}

}
