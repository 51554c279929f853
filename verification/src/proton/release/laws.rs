//! What holds of every description of a release.
use vstd::prelude::*;

use crate::error::{failure, CauseView, Error};
use crate::json::laws::{a_member_is_the_first_of_its_name, has_member, lacks_member};
use crate::json::{json_in, JsonView};
use crate::net::Reply;
use crate::proton::release::{
    archive_among, asset_named, asset_url, checksum_name, for_host, listed, release_answer, release_in,
    release_page, release_reply, tags_answer, texts_under, without_suffix, Release, ReleaseView,
};
use crate::state::laws::same;
use crate::text::{ends, holds, occurs, texts};

verus! {

broadcast use vstd::string::group_string_axioms;

/// A release is what its fields say.
pub proof fn a_release_is_what_its_fields_say(release: Release)
    ensures
        release@.tag == release.tag@,
        release@.tarball == release.tarball@,
        same(release.checksum, release@.checksum),
{
}

/// The tags that came are those of the list.
pub proof fn the_tags_that_came_are_those_of_the_list(tags: Result<Vec<String>, Error>)
    ensures
        match tags {
            Ok(tags) => listed(Ok(tags)) == Ok::<_, Seq<CauseView>>(texts(tags@)),
            Err(error) => listed(Err(error)) == Err::<Seq<Seq<char>>, _>(error@),
        },
{
}

/// The archive for a host is one whose name ends as archives do and says that it is for ARM exactly
/// if the host is.
pub proof fn an_archive_is_for_one_processor(name: Seq<char>, arch: Seq<char>)
    ensures
        for_host(name, "aarch64"@) <==> ends(name, ".tar.gz"@) && (holds(name, "aarch64"@) || holds(
            name,
            "arm64"@,
        )),
        arch != "aarch64"@ ==> (for_host(name, arch) <==> ends(name, ".tar.gz"@) && !holds(
            name,
            "aarch64"@,
        ) && !holds(name, "arm64"@)),
{
}

proof fn lemma_archive_among(names: Seq<Seq<char>>, arch: Seq<char>, i: int)
    requires
        0 <= i,
    ensures
        match archive_among(names, arch, i) {
            Some(name) => exists|j: int|
                i <= j < names.len() && #[trigger] names[j] == name && for_host(name, arch)
                    && forall|k: int| i <= k < j ==> !for_host(#[trigger] names[k], arch),
            None => forall|j: int| i <= j < names.len() ==> !for_host(#[trigger] names[j], arch),
        },
    decreases names.len() - i,
{
    if i < names.len() && !for_host(names[i], arch) {
        lemma_archive_among(names, arch, i + 1);
    }
}

/// The first archive for the host is taken, and none only where there is none.
pub proof fn the_first_archive_for_the_host_is_taken(
    names: Seq<Seq<char>>,
    arch: Seq<char>,
    i: int,
)
    ensures
        0 <= i < names.len() && for_host(names[i], arch) && (forall|j: int|
            0 <= j < i ==> !for_host(#[trigger] names[j], arch)) ==> archive_among(names, arch, 0)
            == Some(names[i]),
        (forall|j: int| 0 <= j < names.len() ==> !for_host(#[trigger] names[j], arch))
            ==> archive_among(names, arch, 0) is None,
{
    lemma_archive_among(names, arch, 0);
}

/// The checksum of an archive is in the file named after it, with another ending.
pub proof fn the_checksum_is_named_after_the_archive(stem: Seq<char>)
    requires
        !ends(stem, ".tar.gz"@),
    ensures
        checksum_name(stem + ".tar.gz"@) == stem + ".sha512sum"@,
{
    reveal_strlit(".tar.gz");
    let name = stem + ".tar.gz"@;
    assert(name.subrange(name.len() - 7, name.len() as int) =~= ".tar.gz"@);
    assert(occurs(name, ".tar.gz"@, name.len() - 7));
    assert(name.subrange(0, name.len() - 7) =~= stem);
    assert(without_suffix(stem, ".tar.gz"@) == stem);
}

proof fn lemma_asset_named(assets: Seq<JsonView>, name: Seq<char>, i: int)
    requires
        0 <= i,
    ensures
        match asset_named(assets, name, i) {
            Some(asset) => exists|j: int|
                i <= j < assets.len() && #[trigger] assets[j] == asset && asset.text_at("name"@)
                    == Some(name) && forall|k: int|
                    i <= k < j ==> (#[trigger] assets[k]).text_at("name"@) != Some(name),
            None => forall|j: int|
                i <= j < assets.len() ==> (#[trigger] assets[j]).text_at("name"@) != Some(name),
        },
    decreases assets.len() - i,
{
    if i < assets.len() && assets[i].text_at("name"@) != Some(name) {
        lemma_asset_named(assets, name, i + 1);
    }
}

/// The address of a file is the one that the first item of its name gives.
pub proof fn a_file_is_where_its_item_says(
    assets: Seq<JsonView>,
    name: Seq<char>,
    url: Seq<char>,
    i: int,
)
    requires
        0 <= i < assets.len(),
        has_member(assets[i], "name"@, JsonView::Text(name)),
        forall|j: int|
            0 <= j < i ==> !has_member(#[trigger] assets[j], "name"@, JsonView::Text(name)),
    ensures
        has_member(assets[i], "browser_download_url"@, JsonView::Text(url)) ==> asset_url(
            assets,
            name,
        ) == Some(url),
        lacks_member(assets[i], "browser_download_url"@) ==> asset_url(assets, name) is None,
{
    lemma_asset_named(assets, name, 0);
    a_member_is_the_first_of_its_name(assets[i], "name"@);
    a_member_is_the_first_of_its_name(assets[i], "browser_download_url"@);
    assert forall|j: int| 0 <= j < i implies (#[trigger] assets[j]).text_at("name"@) != Some(
        name,
    ) by {
        a_member_is_the_first_of_its_name(assets[j], "name"@);
        assert(!has_member(assets[j], "name"@, JsonView::Text(name)));
    }
    assert(assets[i].text_at("name"@) == Some(name));
}

/// A file that no item names has no address.
pub proof fn a_file_that_is_not_named_is_nowhere(assets: Seq<JsonView>, name: Seq<char>)
    requires
        forall|j: int|
            0 <= j < assets.len() ==> !has_member(
                #[trigger] assets[j],
                "name"@,
                JsonView::Text(name),
            ),
    ensures
        asset_url(assets, name) is None,
{
    lemma_asset_named(assets, name, 0);
    assert forall|j: int| 0 <= j < assets.len() implies (#[trigger] assets[j]).text_at("name"@)
        != Some(name) by {
        a_member_is_the_first_of_its_name(assets[j], "name"@);
        assert(!has_member(assets[j], "name"@, JsonView::Text(name)));
    }
}

/// The release that is offered has the tag of the description, the archive for this host, and the
/// checksum of just that archive; a description that lacks the tag, the files, the archive or its
/// address offers none, and says what is lacking.
pub proof fn a_release_is_offered_as_described(
    json: JsonView,
    tag: Seq<char>,
    assets: Seq<JsonView>,
    arch: Seq<char>,
)
    ensures
        lacks_member(json, "tag_name"@) ==> release_in(json, arch) == Err::<ReleaseView, _>(
            failure("GitHub release has no tag"@),
        ),
        has_member(json, "tag_name"@, JsonView::Text(tag)) ==> {
            let offered = release_in(json, arch);
            &&& lacks_member(json, "assets"@) ==> offered == Err::<ReleaseView, _>(
                failure("GitHub release has no assets"@),
            )
            &&& has_member(json, "assets"@, JsonView::List(assets)) ==> match archive_among(
                texts_under(assets, "name"@, 0),
                arch,
                0,
            ) {
                None => offered == Err::<ReleaseView, _>(
                    failure("no GE-Proton build for "@ + arch + " in "@ + tag),
                ),
                Some(archive) => match asset_url(assets, archive) {
                    None => offered == Err::<ReleaseView, _>(
                        failure("GitHub asset has no download url"@),
                    ),
                    Some(url) => offered is Ok && offered->Ok_0.tag == tag && offered->Ok_0.tarball
                        == url && offered->Ok_0.checksum == asset_url(
                        assets,
                        checksum_name(archive),
                    ),
                },
            }
        },
{
    a_member_is_the_first_of_its_name(json, "tag_name"@);
    a_member_is_the_first_of_its_name(json, "assets"@);
}

/// The texts of a list come in its order, and an item without one is passed over.
pub proof fn texts_come_in_the_order_of_the_list(
    first: JsonView,
    rest: Seq<JsonView>,
    name: Seq<char>,
    text: Seq<char>,
)
    ensures
        has_member(first, name, JsonView::Text(text)) ==> texts_under(seq![first] + rest, name, 0)
            == seq![text] + texts_under(rest, name, 0),
        lacks_member(first, name) ==> texts_under(seq![first] + rest, name, 0) == texts_under(
            rest,
            name,
            0,
        ),
        texts_under(seq![], name, 0).len() == 0,
{
    a_member_is_the_first_of_its_name(first, name);
    lemma_texts_shifted(first, rest, name, 0);
    assert((seq![first] + rest)[0] == first);
}

proof fn lemma_texts_shifted(first: JsonView, rest: Seq<JsonView>, name: Seq<char>, i: int)
    requires
        0 <= i <= rest.len(),
    ensures
        texts_under(seq![first] + rest, name, i + 1) == texts_under(rest, name, i),
    decreases rest.len() - i,
{
    if i < rest.len() {
        lemma_texts_shifted(first, rest, name, i + 1);
        assert((seq![first] + rest)[i + 1] == rest[i]);
    }
}

/// The tags that are offered are those of the list, in its order; anything else than a list is told.
pub proof fn the_tags_of_the_list_are_offered(items: Seq<JsonView>, json: JsonView, reason: Seq<char>)
    ensures
        tags_answer(Ok(JsonView::List(items))) == Ok::<_, Seq<CauseView>>(
            texts_under(items, "tag_name"@, 0),
        ),
        !(json is List) ==> tags_answer(Ok(json)) == Err::<Seq<Seq<char>>, _>(
            failure("GitHub sent no release list"@),
        ),
        tags_answer(Err(reason)) == Err::<Seq<Seq<char>>, _>(
            failure("GitHub sent something that is not JSON"@) + failure(reason),
        ),
{
}

/// What comes back for a release is judged by what it says; that it did not come back is told, with
/// the tag where one was asked for.
pub proof fn a_release_that_does_not_come_is_told(
    tag: Seq<char>,
    reply: Reply,
    body: String,
    reason: Error,
    arch: Seq<char>,
)
    ensures
        200 <= reply.status <= 299 && reply.body == Ok::<String, Error>(body) ==> {
            &&& release_reply(Some(tag), Ok(reply), arch) == release_answer(json_in(body@), arch)
            &&& release_reply(None, Ok(reply), arch) == release_answer(json_in(body@), arch)
        },
        release_reply(Some(tag), Err(reason), arch) is Err && release_reply(
            Some(tag),
            Err(reason),
            arch,
        )->Err_0[0] == CauseView::Message("cannot find "@ + tag + " on GitHub"@),
        release_reply(None, Err(reason), arch) is Err && release_reply(
            None,
            Err(reason),
            arch,
        )->Err_0[0] == CauseView::Message("cannot ask GitHub for GE-Proton"@),
        reply.status < 200 || 299 < reply.status ==> release_reply(Some(tag), Ok(reply), arch) is Err
            && release_reply(None, Ok(reply), arch) is Err,
{
}

/// A certain release is asked for under its tag, and otherwise the latest.
pub proof fn a_release_is_asked_for_under_its_tag(tag: Seq<char>, json: JsonView, reason: Seq<char>)
    ensures
        release_page(Some(tag))
            == "https://api.github.com/repos/GloriousEggroll/proton-ge-custom/releases/tags/"@ + tag,
        release_page(None)
            == "https://api.github.com/repos/GloriousEggroll/proton-ge-custom/releases/latest"@,
        release_answer(Ok(json), tag) == release_in(json, tag),
        release_answer(Err(reason), tag) == Err::<ReleaseView, _>(
            failure("GitHub sent something that is not JSON"@) + failure(reason),
        ),
{
}

}
