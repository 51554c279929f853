//! What holds of every request and every answer.
use vstd::prelude::*;

use crate::error::{failure, CauseView};
use crate::net::{
    downloading, half_even, human_size, ordinary_sizes_are_exact, probed, probing, range_total,
    started, text_answer, text_at, Manner, Received, Remote, RemoteView, Reply, Request, RequestView,
    StepView, Transfer,
};
use crate::paths::lemma_pieces;
use crate::text::laws::{
    a_text_without_separator_is_one_piece, bare, decimals_are_digits, only_digits_write_a_number,
    trimming_drops_what_stands_around,
};
use crate::text::{decimal, decimal_reads_back, text_in, Class};

verus! {

broadcast use vstd::string::group_string_axioms;

/// Whether `name` stands in a list of pairs exactly once, and with this value.
pub open spec fn says_once(
    list: Seq<(Seq<char>, Seq<char>)>,
    name: Seq<char>,
    value: Seq<char>,
) -> bool {
    exists|i: int|
        0 <= i < list.len() && #[trigger] list[i] == (name, value) && forall|j: int|
            0 <= j < list.len() && j != i ==> (#[trigger] list[j]).0 != name
}

/// Whether `name` stands nowhere in a list of pairs.
pub open spec fn says_nothing_of(list: Seq<(Seq<char>, Seq<char>)>, name: Seq<char>) -> bool {
    forall|i: int| 0 <= i < list.len() ==> (#[trigger] list[i]).0 != name
}

/// Whether a request speaks for the session with this token, and for no other: it has one cookie.
pub open spec fn speaks_for(request: RequestView, token: Seq<char>) -> bool {
    says_once(request.headers, "Cookie"@, "session_token="@ + token)
}

/// Whether a request speaks for nobody.
pub open spec fn speaks_for_nobody(request: RequestView) -> bool {
    says_nothing_of(request.headers, "Cookie"@)
}

proof fn lemma_header_names()
    ensures
        "Cookie"@ != "Range"@,
        "Cookie"@ != "Accept"@,
        "Range"@ != "Accept"@,
{
    reveal_strlit("Cookie");
    reveal_strlit("Range");
    reveal_strlit("Accept");
    assert("Cookie"@[0] == 'C' && "Accept"@[0] == 'A');
}

/// A request asks for what its fields say.
pub proof fn a_request_is_what_its_fields_say(request: Request)
    ensures
        request@.manner == request.manner,
        request@.url == request.url@,
        request@.headers.len() == request.headers@.len(),
        forall|i: int|
            0 <= i < request.headers@.len() ==> #[trigger] request@.headers[i] == (
                request.headers@[i].0@,
                request.headers@[i].1@,
            ),
        request@.form is Some <==> request.form is Some,
        request.form matches Some(form) ==> request@.form->0.len() == form@.len() && forall|i: int|
            0 <= i < form@.len() ==> #[trigger] request@.form->0[i] == (
                form@[i].0@,
                form@[i].1@,
            ),
{
}

/// What the server has is what the fields say.
pub proof fn a_remote_is_what_its_fields_say(remote: Remote)
    ensures
        remote@.size == remote.size,
        remote.etag matches Some(etag) ==> remote@.etag == Some(etag@),
        remote.etag is None ==> remote@.etag is None,
        remote.last_modified matches Some(date) ==> remote@.last_modified == Some(date@),
        remote.last_modified is None ==> remote@.last_modified is None,
{
}

/// Two entity tags decide, whatever the dates and the sizes are: the builds differ exactly if the
/// tags do.
pub proof fn entity_tags_decide(
    remote: RemoteView,
    here: Seq<char>,
    there: Seq<char>,
    date: Option<Seq<char>>,
    size: u64,
)
    requires
        remote.etag == Some(there),
    ensures
        remote.differs(Some(here), date, size) <==> here != there,
{
}

/// Where not both entity tags are known, two dates decide, whatever the sizes are.
pub proof fn dates_decide_without_entity_tags(
    remote: RemoteView,
    etag: Option<Seq<char>>,
    here: Seq<char>,
    there: Seq<char>,
    size: u64,
)
    requires
        etag is None || remote.etag is None,
        remote.last_modified == Some(there),
    ensures
        remote.differs(etag, Some(here), size) <==> here != there,
{
}

/// Where there is nothing else to go by, the sizes decide.
pub proof fn sizes_decide_last(
    remote: RemoteView,
    etag: Option<Seq<char>>,
    date: Option<Seq<char>>,
    size: u64,
)
    requires
        etag is None || remote.etag is None,
        date is None || remote.last_modified is None,
    ensures
        remote.differs(etag, date, size) <==> size != remote.size,
{
}

/// Asking twice for the same build tells no difference, and it does not matter which of two builds is
/// the installed one.
pub proof fn differing_goes_both_ways(a: RemoteView, b: RemoteView)
    ensures
        !a.differs(a.etag, a.last_modified, a.size),
        a.differs(b.etag, b.last_modified, b.size) == b.differs(a.etag, a.last_modified, a.size),
{
}

/// A probe asks for the first byte alone, at the address it is for, and speaks for the session it is
/// given, or for nobody.
pub proof fn a_probe_asks_for_one_byte(url: Seq<char>, token: Option<Seq<char>>)
    ensures
        probing(url, token).url == url,
        probing(url, token).form is None,
        probing(url, token).manner == Manner::Probe,
        says_once(probing(url, token).headers, "Range"@, "bytes=0-0"@),
        match token {
            Some(token) => speaks_for(probing(url, Some(token)), token),
            None => speaks_for_nobody(probing(url, None)),
        },
{
    lemma_header_names();
    let headers = probing(url, token).headers;
    assert(headers[0] == ("Range"@, "bytes=0-0"@));
    if let Some(token) = token {
        assert(headers[1] == ("Cookie"@, "session_token="@ + token));
    }
}

/// A download asks for what is missing and for nothing else: for all of the file where nothing is
/// there, else from the first byte on that is not. It speaks for the session it is given, or for
/// nobody.
pub proof fn a_download_asks_for_what_is_missing(
    url: Seq<char>,
    token: Option<Seq<char>>,
    already: u64,
)
    ensures
        downloading(url, token, already).url == url,
        downloading(url, token, already).form is None,
        downloading(url, token, already).manner == Manner::Download,
        already == 0 ==> says_nothing_of(downloading(url, token, already).headers, "Range"@),
        already > 0 ==> says_once(
            downloading(url, token, already).headers,
            "Range"@,
            "bytes="@ + decimal(already as nat) + "-"@,
        ),
        match token {
            Some(token) => speaks_for(downloading(url, Some(token), already), token),
            None => speaks_for_nobody(downloading(url, None, already)),
        },
{
    lemma_header_names();
    let headers = downloading(url, token, already).headers;
    let range = ("Range"@, "bytes="@ + decimal(already as nat) + "-"@);
    match token {
        Some(token) => {
            assert(headers[0] == ("Cookie"@, "session_token="@ + token));
            if already > 0 {
                assert(headers[1] == range);
            }
        },
        None => {
            if already > 0 {
                assert(headers[0] == range);
            }
        },
    }
}

/// A text is asked for at its address, as GitHub wants it, and for nobody.
pub proof fn a_text_is_asked_for_by_nobody(url: Seq<char>)
    ensures
        text_at(url).url == url,
        text_at(url).form is None,
        says_once(text_at(url).headers, "Accept"@, "application/vnd.github+json"@),
        speaks_for_nobody(text_at(url)),
{
    lemma_header_names();
    assert(text_at(url).headers[0] == ("Accept"@, "application/vnd.github+json"@));
}

/// A text comes exactly if the server serves it and it can be read, and then as it is. Every failure
/// names the address.
pub proof fn a_text_comes_as_it_is(url: Seq<char>, reply: Reply)
    ensures
        text_answer(url, Ok(reply)) is Ok <==> 200 <= reply.status <= 299 && reply.body is Ok,
        text_answer(url, Ok(reply)) matches Ok(text) ==> text == reply.body->Ok_0@,
        reply.status < 200 || 299 < reply.status ==> text_answer(url, Ok(reply)) == Err::<
            Seq<char>,
            _,
        >(failure(url + " answered HTTP "@ + decimal(reply.status as nat))),
{
}

/// The number behind the last slash of a content range is the size, whatever stands before it.
pub proof fn the_size_stands_behind_the_slash(before: Seq<char>, n: u64)
    ensures
        range_total(before + seq!['/'] + decimal(n as nat)) == Some(n as nat),
{
    let number = decimal(n as nat);
    decimals_are_digits(n as nat);
    assert(!number.contains('/')) by {
        if number.contains('/') {
            let i = choose|i: int| 0 <= i < number.len() && number[i] == '/';
            assert(crate::text::digit(number[i]));
        }
    }
    lemma_pieces(before, number, 0);
    a_text_without_separator_is_one_piece(number, '/');
    let none = Seq::<char>::empty();
    assert(bare(number, Class::Space)) by {
        assert(crate::text::digit(number[0]) && crate::text::digit(number.last()));
    }
    trimming_drops_what_stands_around(none, number, none, Class::Space);
    assert(none + number + none =~= number);
    decimal_reads_back(n as nat, u64::MAX as nat);
}

/// A content range whose end is no number tells no size, and then the announced length counts.
pub proof fn a_range_without_a_number_tells_no_size(
    url: Seq<char>,
    reply: Reply,
    before: Seq<char>,
    n: u64,
)
    requires
        200 <= reply.status <= 299,
        text_in(reply.headers.content_range) == Some(before + seq!['/', '*']),
        text_in(reply.headers.content_length) == Some(decimal(n as nat)),
    ensures
        range_total(before + seq!['/', '*']) is None,
        probed(url, Ok(reply)) matches Ok(remote) && remote.size == n,
{
    let star = seq!['*'];
    assert(before + seq!['/', '*'] =~= before + seq!['/'] + star);
    lemma_pieces(before, star, 0);
    assert(!star.contains('/'));
    a_text_without_separator_is_one_piece(star, '/');
    let none = Seq::<char>::empty();
    trimming_drops_what_stands_around(none, star, none, Class::Space);
    assert(none + star + none =~= star);
    only_digits_write_a_number(star, 0, u64::MAX as nat);
    decimal_reads_back(n as nat, u64::MAX as nat);
}

/// What a probe tells: the whole size where a content range names it, else the announced length, and
/// the entity tag and the date that the answer carries. An address that does not serve it is named
/// with its status.
pub proof fn a_probe_tells_what_the_answer_carries(
    url: Seq<char>,
    reply: Reply,
    before: Seq<char>,
    n: u64,
)
    ensures
        probed(url, Ok(reply)) is Ok <==> 200 <= reply.status <= 299,
        probed(url, Ok(reply)) matches Ok(remote) ==> remote.etag == text_in(reply.headers.etag)
            && remote.last_modified == text_in(reply.headers.last_modified),
        probed(url, Ok(reply)) is Ok && text_in(reply.headers.content_range) == Some(
            before + seq!['/'] + decimal(n as nat),
        ) ==> probed(url, Ok(reply))->Ok_0.size == n,
        probed(url, Ok(reply)) is Ok && reply.headers.content_range is None && text_in(
            reply.headers.content_length,
        ) == Some(decimal(n as nat)) ==> probed(url, Ok(reply))->Ok_0.size == n,
        probed(url, Ok(reply)) is Ok && reply.headers.content_range is None
            && reply.headers.content_length is None ==> probed(url, Ok(reply))->Ok_0.size == 0,
        !(200 <= reply.status <= 299) ==> probed(url, Ok(reply)) == Err::<RemoteView, _>(
            failure(url + " answered HTTP "@ + decimal(reply.status as nat)),
        ),
{
    the_size_stands_behind_the_slash(before, n);
    decimal_reads_back(n as nat, u64::MAX as nat);
}

/// A partial file is continued exactly if the server says that it sends the rest of it: only then
/// what is there counts, and with any other answer the file is started over. What the content range
/// names as the whole is the whole.
pub proof fn only_partial_content_continues_a_file(
    url: Seq<char>,
    status: u16,
    already: u64,
    content_length: Option<Seq<char>>,
    before: Seq<char>,
    n: u64,
)
    ensures
        ({
            let range = Some(before + seq!['/'] + decimal(n as nat));
            let begun = started(url, status, already, range, content_length);
            &&& begun is Ok <==> 200 <= status <= 299
            &&& begun matches Ok(transfer) ==> transfer.total == n && transfer.done == (if status
                == 206 {
                already
            } else {
                0
            }) && transfer.resumed == (status == 206 && already != 0)
        }),
        started(url, status, already, None, None) matches Ok(transfer) ==> transfer.total == 0,
{
    the_size_stands_behind_the_slash(before, n);
}

/// Without a content range the announced length counts on from what is kept, and without that either
/// the whole is not known.
pub proof fn the_announced_length_counts_on(
    url: Seq<char>,
    status: u16,
    already: u64,
    n: u64,
)
    requires
        200 <= status <= 299,
        already + n <= u64::MAX,
    ensures
        started(url, status, already, None, Some(decimal(n as nat))) matches Ok(transfer)
            && transfer.total == (if status == 206 {
            already + n
        } else {
            n as int
        }) && transfer.done == (if status == 206 {
            already
        } else {
            0
        }) && transfer.resumed == (status == 206 && already > 0),
        started(url, status, already, None, None) matches Ok(transfer) && transfer.total == 0,
{
    decimal_reads_back(n as nat, u64::MAX as nat);
}

/// An address that does not serve a file is named with its status.
pub proof fn a_refused_download_is_told(
    url: Seq<char>,
    status: u16,
    already: u64,
    content_range: Option<Seq<char>>,
    content_length: Option<Seq<char>>,
)
    requires
        status < 200 || 299 < status,
    ensures
        started(url, status, already, content_range, content_length) == Err::<Transfer, _>(
            failure(url + " answered HTTP "@ + decimal(status as nat)),
        ),
{
}

/// Each piece that came counts on, and reading goes on; an end before all is there is a failure that
/// says how much of how much there is, and a stop is no other failure than that.
pub proof fn a_download_goes_on_until_all_is_there(transfer: Transfer, n: u64)
    requires
        transfer.done + n <= u64::MAX,
    ensures
        transfer.after(Received::Bytes(n)).done == transfer.done + n,
        transfer.after(Received::Bytes(n)).total == transfer.total,
        transfer.after(Received::Bytes(n)).resumed == transfer.resumed,
        transfer.after(Received::End) == transfer,
        transfer.after(Received::Stop) == transfer,
        transfer.judging(Received::Bytes(n)) is ReadOn,
        transfer.judging(Received::Stop) == StepView::Failed(seq![CauseView::Cancelled]),
        transfer.total == 0 || transfer.done == transfer.total ==> transfer.judging(
            Received::End,
        ) is Complete,
        transfer.total > 0 && transfer.done != transfer.total ==> transfer.judging(Received::End)
            == StepView::Failed(
            failure(
                "download ended early: got "@ + human_size(transfer.done) + " of "@ + human_size(
                    transfer.total,
                ),
            ),
        ),
{
}

proof fn lemma_half_even(a: nat, b: nat)
    requires
        b > 0,
    ensures
        2 * (half_even(a, b) * b) <= 2 * a + b,
        2 * a <= 2 * (half_even(a, b) * b) + b,
{
    let q = a / b;
    let r = a % b;
    assert(a == q * b + r && 0 <= r < b) by (nonlinear_arith)
        requires
            q == a / b,
            r == a % b,
            b > 0,
    ;
    assert((q + 1) * b == q * b + b) by (nonlinear_arith);
}

/// A size is shown within half a tenth of the unit that is named, and the unit is the largest that
/// the size reaches, up to gibibytes.
pub proof fn a_size_is_shown_to_a_tenth(bytes: u64)
    requires
        bytes < 0x20_0000_0000_0000,
    ensures
        bytes < 1024 ==> human_size(bytes) == decimal(bytes as nat) + " B"@,
        1024 <= bytes < 1024 * 1024 ==> exists|t: nat|
            human_size(bytes) == #[trigger] shown_tenths(t, " KiB"@) && near(t, bytes, 1024),
        1024 * 1024 <= bytes < 1024 * 1024 * 1024 ==> exists|t: nat|
            human_size(bytes) == #[trigger] shown_tenths(t, " MiB"@) && near(t, bytes, 1024 * 1024),
        1024 * 1024 * 1024 <= bytes ==> exists|t: nat|
            human_size(bytes) == #[trigger] shown_tenths(t, " GiB"@) && near(
                t,
                bytes,
                1024 * 1024 * 1024,
            ),
{
    ordinary_sizes_are_exact(bytes as nat);
    let unit: nat = if bytes < 0x10_0000 {
        0x400
    } else if bytes < 0x4000_0000 {
        0x10_0000
    } else {
        0x4000_0000
    };
    let t = half_even((bytes * 10) as nat, unit);
    lemma_half_even((bytes * 10) as nat, unit);
    assert(near(t, bytes, unit));
    let d = t % 10;
    assert(decimal(d) =~= seq![crate::text::digit_of(d)]);
    assert(crate::net::tenths_text(t) =~= decimal(t / 10) + seq!['.'] + decimal(d));
    assert(bytes < 1024 || human_size(bytes) == shown_tenths(t, " KiB"@) || human_size(bytes)
        == shown_tenths(t, " MiB"@) || human_size(bytes) == shown_tenths(t, " GiB"@));
}

/// `t` tenths of a unit, as they are shown.
pub open spec fn shown_tenths(t: nat, unit: Seq<char>) -> Seq<char> {
    decimal(t / 10) + seq!['.'] + decimal(t % 10) + unit
}

/// Whether `t` tenths of `unit` are as near to `bytes` as tenths can be.
pub open spec fn near(t: nat, bytes: u64, unit: nat) -> bool {
    -(unit as int) <= 2 * (t * unit - 10 * bytes) <= unit
}

}
