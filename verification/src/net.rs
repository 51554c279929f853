//! HTTP: what to ask for, resumable downloads, cheap probes of what the server has, and sizes for
//! people to read.
use vstd::prelude::*;

pub mod laws;

use crate::error::{said, failure, Cause, CauseView, Error};
use crate::text::{
    borrowed, decimal, decimal_text, digit_of, parse_number, parsed, pieces, same_text, split,
    text_in, texts, trim, trimmed, Class,
};

verus! {

broadcast use vstd::string::group_string_axioms;

/// The user hit stop, kept distinct so that it is not shown as a failure.
#[derive(Debug)]
pub struct Cancelled;

impl Cancelled {
    /// What it says.
    pub fn message(&self) -> (text: String)
        ensures
            text@ == "cancelled"@,
    {
        "cancelled".to_owned()
    }
}

/// Whether the user stopped the work that failed.
pub fn is_cancelled(err: &Error) -> (b: bool)
    ensures
        b == err@.contains(CauseView::Cancelled),
{
    let mut i: usize = 0;
    while i < err.causes.len()
        invariant
            i <= err.causes.len(),
            forall|j: int| 0 <= j < i ==> err@[j] != CauseView::Cancelled,
        decreases err.causes.len() - i,
    {
        if let Cause::Cancelled(_) = &err.causes[i] {
            assert(err@[i as int] == CauseView::Cancelled);
            return true;
        }
        i += 1;
    }
    false
}

/// How a request is to be sent.
#[derive(Clone, Copy, Debug, PartialEq, Eq, Structural)]
pub enum Manner {
    /// redirects are not followed, for the session cookie rides on the redirect itself
    Account,
    /// redirects are followed, and only connecting is timed
    Download,
    /// as for a download, but only the headers of the answer count
    Probe,
}

/// A request: a form that is posted, or a page that is fetched.
#[derive(Debug)]
pub struct Request {
    pub manner: Manner,
    pub url: String,
    pub headers: Vec<(String, String)>,
    pub form: Option<Vec<(String, String)>>,
}

/// What a [`Request`] asks for.
pub struct RequestView {
    pub manner: Manner,
    pub url: Seq<char>,
    pub headers: Seq<(Seq<char>, Seq<char>)>,
    pub form: Option<Seq<(Seq<char>, Seq<char>)>>,
}

/// The names and values in a list of pairs.
pub open spec fn pairs(v: Seq<(String, String)>) -> Seq<(Seq<char>, Seq<char>)> {
    Seq::new(v.len(), |i: int| (v[i].0@, v[i].1@))
}

impl View for Request {
    type V = RequestView;

    open spec fn view(&self) -> RequestView {
        RequestView {
            manner: self.manner,
            url: self.url@,
            headers: pairs(self.headers@),
            form: match self.form {
                Some(form) => Some(pairs(form@)),
                None => None,
            },
        }
    }
}

/// Fetching `url` with `headers`.
pub open spec fn fetch(
    manner: Manner,
    url: Seq<char>,
    headers: Seq<(Seq<char>, Seq<char>)>,
) -> RequestView {
    RequestView { manner, url, headers, form: None }
}

impl Request {
    /// Fetching `url` without any headers.
    pub fn get(manner: Manner, url: String) -> (request: Request)
        ensures
            request@ == fetch(manner, url@, seq![]),
    {
        let headers: Vec<(String, String)> = Vec::new();
        assert(pairs(headers@) =~= seq![]);
        Request { manner, url, headers, form: None }
    }

    /// The same request with one more header.
    pub fn with(self, name: &str, value: String) -> (request: Request)
        ensures
            request@ == (RequestView { headers: self@.headers.push((name@, value@)), ..self@ }),
    {
        let mut headers = self.headers;
        let ghost before = headers@;
        headers.push((name.to_owned(), value));
        assert(pairs(headers@) =~= pairs(before).push((name@, value@)));
        Request { manner: self.manner, url: self.url, headers, form: self.form }
    }
}

/// What the server has under an address.
#[derive(Debug)]
pub struct Remote {
    pub size: u64,
    pub etag: Option<String>,
    pub last_modified: Option<String>,
}

/// What a [`Remote`] says.
pub struct RemoteView {
    pub size: u64,
    pub etag: Option<Seq<char>>,
    pub last_modified: Option<Seq<char>>,
}

impl View for Remote {
    type V = RemoteView;

    open spec fn view(&self) -> RemoteView {
        RemoteView {
            size: self.size,
            etag: text_in(self.etag),
            last_modified: text_in(self.last_modified),
        }
    }
}

impl Default for Remote {
    fn default() -> (remote: Remote)
        ensures
            remote@ == (RemoteView { size: 0, etag: None, last_modified: None }),
    {
        Remote { size: 0, etag: None, last_modified: None }
    }
}

impl RemoteView {
    /// Whether what the server has is not what was installed: the entity tags decide, where both
    /// are known, else the dates, else the sizes.
    pub open spec fn differs(
        self,
        etag: Option<Seq<char>>,
        last_modified: Option<Seq<char>>,
        size: u64,
    ) -> bool {
        if self.etag is Some && etag is Some {
            self.etag != etag
        } else if self.last_modified is Some && last_modified is Some {
            self.last_modified != last_modified
        } else {
            self.size != size
        }
    }
}

impl Remote {
    /// Whether what the server has is not what was installed.
    pub fn differs_from(
        &self,
        etag: Option<&str>,
        last_modified: Option<&str>,
        size: u64,
    ) -> (differs: bool)
        ensures
            differs == self@.differs(borrowed(etag), borrowed(last_modified), size),
            match (self.etag, etag) {
                (Some(remote), Some(local)) => differs <==> remote@ != local@,
                _ => match (self.last_modified, last_modified) {
                    (Some(remote), Some(local)) => differs <==> remote@ != local@,
                    _ => differs <==> self.size != size,
                },
            },
    {
        if let (Some(remote), Some(local)) = (&self.etag, etag) {
            return !same_text(remote.as_str(), local);
        }
        if let (Some(remote), Some(local)) = (&self.last_modified, last_modified) {
            return !same_text(remote.as_str(), local);
        }
        self.size != size
    }
}

/// Whether a status says that the request was served.
pub open spec fn served(status: u16) -> bool {
    200 <= status < 300
}

/// What is said of an address that answered with `status`.
pub open spec fn answered(url: Seq<char>, status: u16) -> Seq<char> {
    url + " answered HTTP "@ + decimal(status as nat)
}

fn refusal(url: &str, status: u16) -> (e: Error)
    ensures
        e@ == failure(answered(url@, status)),
{
    Error::new(
        url.to_owned().concat(" answered HTTP ").concat(decimal_text(status as u64).as_str()),
    )
}

/// The request that probes `url`: a ranged fetch of one byte, because the download route answers
/// no other. `token` is the session to probe as.
pub open spec fn probing(url: Seq<char>, token: Option<Seq<char>>) -> RequestView {
    let range = ("Range"@, "bytes=0-0"@);
    match token {
        Some(token) => fetch(
            Manner::Probe,
            url,
            seq![range, ("Cookie"@, "session_token="@ + token)],
        ),
        None => fetch(Manner::Probe, url, seq![range]),
    }
}

/// The request that probes `url`.
pub fn probe_request(url: &str, token: Option<&str>) -> (request: Request)
    ensures
        request@ == probing(url@, borrowed(token)),
{
    let request = Request::get(Manner::Probe, url.to_owned()).with(
        "Range",
        "bytes=0-0".to_owned(),
    );
    assert(request@.headers =~= seq![("Range"@, "bytes=0-0"@)]);
    match token {
        Some(token) => {
            let request = request.with("Cookie", "session_token=".to_owned().concat(token));
            assert(request@.headers =~= seq![
                ("Range"@, "bytes=0-0"@),
                ("Cookie"@, "session_token="@ + token@),
            ]);
            request
        },
        None => request,
    }
}

/// The total in a content range such as `bytes 0-0/32733650`.
pub open spec fn range_total(value: Seq<char>) -> Option<nat> {
    parsed(trimmed(pieces(value, '/', 0).last(), Class::Space), u64::MAX as nat)
}

proof fn lemma_pieces_nonempty(s: Seq<char>, separator: char, from: int)
    requires
        0 <= from <= s.len(),
    ensures
        pieces(s, separator, from).len() > 0,
{
    crate::text::lemma_next_char(s, separator, from);
}

/// The total in a content range such as `bytes 0-0/32733650`.
pub fn parse_total_from_content_range(value: &str) -> (total: Option<u64>)
    ensures
        match total {
            Some(n) => range_total(value@) == Some(n as nat),
            None => range_total(value@) is None,
        },
{
    let parts = split(value, '/');
    proof {
        lemma_pieces_nonempty(value@, '/', 0);
        assert(texts(parts@).len() == parts@.len());
        assert(texts(parts@).last() == parts@.last()@);
    }
    parse_number(trim(parts[parts.len() - 1].as_str(), Class::Space).as_str(), u64::MAX)
}

/// The total in the content range, where there is one.
pub open spec fn ranged(content_range: Option<Seq<char>>) -> Option<nat> {
    match content_range {
        Some(value) => range_total(value),
        None => None,
    }
}

/// The number in the content length, where there is one.
pub open spec fn declared(content_length: Option<Seq<char>>) -> Option<nat> {
    match content_length {
        Some(value) => parsed(value, u64::MAX as nat),
        None => None,
    }
}

/// The total in the content range, where there is one.
pub fn ranged_total(content_range: Option<&str>) -> (total: Option<u64>)
    ensures
        match total {
            Some(n) => ranged(borrowed(content_range)) == Some(n as nat),
            None => ranged(borrowed(content_range)) is None,
        },
{
    match content_range {
        Some(value) => parse_total_from_content_range(value),
        None => None,
    }
}

/// The number in the content length, where there is one.
pub fn declared_length(content_length: Option<&str>) -> (length: Option<u64>)
    ensures
        match length {
            Some(n) => declared(borrowed(content_length)) == Some(n as nat),
            None => declared(borrowed(content_length)) is None,
        },
{
    match content_length {
        Some(value) => parse_number(value, u64::MAX),
        None => None,
    }
}

/// The headers of an answer that tell what the server has.
#[derive(Debug)]
pub struct Headers {
    pub content_range: Option<String>,
    pub content_length: Option<String>,
    pub etag: Option<String>,
    pub last_modified: Option<String>,
}

/// What came back for a request.
#[derive(Debug)]
pub struct Reply {
    pub status: u16,
    pub headers: Headers,
    /// the values of its set-cookie headers
    pub cookies: Vec<String>,
    /// its body as text, or why it could not be read
    pub body: Result<String, Error>,
}

fn lent(s: &Option<String>) -> (t: Option<&str>)
    ensures
        borrowed(t) == text_in(*s),
{
    match s {
        Some(s) => Some(s.as_str()),
        None => None,
    }
}

/// What probing `url` comes to.
pub open spec fn probed(url: Seq<char>, reply: Result<Reply, Error>) -> Result<
    RemoteView,
    Seq<CauseView>,
> {
    match reply {
        Err(reason) => Err(failure("cannot reach "@ + url) + reason@),
        Ok(reply) => if !served(reply.status) {
            Err(failure(answered(url, reply.status)))
        } else {
            let size = match ranged(text_in(reply.headers.content_range)) {
                Some(n) => n,
                None => match declared(text_in(reply.headers.content_length)) {
                    Some(n) => n,
                    None => 0,
                },
            };
            Ok(
                RemoteView {
                    size: size as u64,
                    etag: text_in(reply.headers.etag),
                    last_modified: text_in(reply.headers.last_modified),
                },
            )
        },
    }
}

/// Reads what came back for a probe of `url`, or why nothing did.
pub fn probe(url: &str, reply: Result<Reply, Error>) -> (remote: Result<Remote, Error>)
    ensures
        said(remote) == probed(url@, reply),
{
    let reply = match reply {
        Ok(reply) => reply,
        Err(reason) => {
            return Err(reason.context("cannot reach ".to_owned().concat(url)));
        },
    };
    if !(200 <= reply.status && reply.status < 300) {
        return Err(refusal(url, reply.status));
    }
    let size: u64 = match ranged_total(lent(&reply.headers.content_range)) {
        Some(n) => n,
        None => match declared_length(lent(&reply.headers.content_length)) {
            Some(n) => n,
            None => 0,
        },
    };
    Ok(Remote { size, etag: reply.headers.etag, last_modified: reply.headers.last_modified })
}

/// The header by which a request speaks for an account.
pub open spec fn identity(token: Option<Seq<char>>) -> Seq<(Seq<char>, Seq<char>)> {
    match token {
        Some(token) => seq![("Cookie"@, "session_token="@ + token)],
        None => seq![],
    }
}

/// Downloading `url`, for the account that `token` stands for where there is one, from where
/// `already` bytes are there.
pub open spec fn downloading(
    url: Seq<char>,
    token: Option<Seq<char>>,
    already: u64,
) -> RequestView {
    fetch(
        Manner::Download,
        url,
        identity(token) + if already > 0 {
            seq![("Range"@, "bytes="@ + decimal(already as nat) + "-"@)]
        } else {
            seq![]
        },
    )
}

/// The request that downloads `url`, for the account that `token` stands for where there is one,
/// from where `already` bytes are there.
pub fn download_request(url: &str, token: Option<&str>, already: u64) -> (request: Request)
    ensures
        request@ == downloading(url@, borrowed(token), already),
{
    let mut request = Request::get(Manner::Download, url.to_owned());
    if let Some(token) = token {
        request = request.with("Cookie", "session_token=".to_owned().concat(token));
    }
    assert(request@.headers =~= identity(borrowed(token)));
    if already > 0 {
        request = request.with(
            "Range",
            "bytes=".to_owned().concat(decimal_text(already).as_str()).concat("-"),
        );
    }
    assert(request@.headers =~= downloading(url@, borrowed(token), already).headers);
    request
}

/// A download that is under way.
#[derive(Debug, PartialEq, Eq, Structural)]
pub struct Transfer {
    /// the partial file is continued rather than started over
    pub resumed: bool,
    /// how many bytes are there
    pub done: u64,
    /// how many there will be, 0 where that is not known
    pub total: u64,
}

/// How many of the bytes that are already there still count: a 206 continues them, a plain 200
/// means that the range was ignored, so the partial file is dead.
pub open spec fn kept(status: u16, already: u64) -> u64 {
    if status == 206 {
        already
    } else {
        0
    }
}

/// The download that an answer starts.
pub open spec fn started(
    url: Seq<char>,
    status: u16,
    already: u64,
    content_range: Option<Seq<char>>,
    content_length: Option<Seq<char>>,
) -> Result<Transfer, Seq<CauseView>> {
    if !served(status) {
        Err(failure(answered(url, status)))
    } else {
        let total = match ranged(content_range) {
            Some(n) => n,
            None => match declared(content_length) {
                Some(n) => kept(status, already) as nat + n,
                None => 0,
            },
        };
        Ok(
            Transfer {
                resumed: status == 206 && already > 0,
                done: kept(status, already),
                total: total as u64,
            },
        )
    }
}

/// What happens next in a download.
#[derive(Clone, Copy, Debug, PartialEq, Eq, Structural)]
pub enum Received {
    /// that many more bytes came and were written
    Bytes(u64),
    /// nothing more comes
    End,
    /// the user hit stop
    Stop,
}

/// What is to be done about it.
#[derive(Debug)]
pub enum Step {
    /// show the progress and read on
    ReadOn,
    /// the file is complete
    Complete,
    /// the download failed; what is there stays, to be resumed
    Failed(Error),
}

/// What a [`Step`] says.
pub enum StepView {
    ReadOn,
    Complete,
    Failed(Seq<CauseView>),
}

impl View for Step {
    type V = StepView;

    open spec fn view(&self) -> StepView {
        match self {
            Step::ReadOn => StepView::ReadOn,
            Step::Complete => StepView::Complete,
            Step::Failed(e) => StepView::Failed(e@),
        }
    }
}

/// What is said of a download that ended early.
pub open spec fn cut_short(done: u64, total: u64) -> Seq<char> {
    "download ended early: got "@ + human_size(done) + " of "@ + human_size(total)
}

impl Transfer {
    /// The download once this happened.
    pub open spec fn after(self, received: Received) -> Transfer {
        match received {
            Received::Bytes(n) => Transfer { done: (self.done + n) as u64, ..self },
            Received::End | Received::Stop => self,
        }
    }

    /// What is to be done once this happened.
    pub open spec fn judging(self, received: Received) -> StepView {
        match received {
            Received::Bytes(_) => StepView::ReadOn,
            Received::Stop => StepView::Failed(seq![CauseView::Cancelled]),
            Received::End => if self.total > 0 && self.done != self.total {
                StepView::Failed(failure(cut_short(self.done, self.total)))
            } else {
                StepView::Complete
            },
        }
    }

    /// The download once pieces of these sizes came, one after the other.
    pub open spec fn after_all(self, pieces: Seq<u64>) -> Transfer
        decreases pieces.len(),
    {
        if pieces.len() == 0 {
            self
        } else {
            self.after_all(pieces.drop_last()).after(Received::Bytes(pieces.last()))
        }
    }

    /// Reads the first part of the answer to a download of `url`, of which `already` bytes are
    /// there. The sum of what is there and what is announced has to fit.
    pub fn download(
        url: &str,
        status: u16,
        already: u64,
        content_range: Option<&str>,
        content_length: Option<&str>,
    ) -> (transfer: Result<Transfer, Error>)
        requires
            served(status) && ranged(borrowed(content_range)) is None ==> (declared(
                borrowed(content_length),
            ) matches Some(n) ==> kept(status, already) + n <= u64::MAX),
        ensures
            match transfer {
                Ok(transfer) => started(
                    url@,
                    status,
                    already,
                    borrowed(content_range),
                    borrowed(content_length),
                ) == Ok::<_, Seq<CauseView>>(transfer),
                Err(e) => started(
                    url@,
                    status,
                    already,
                    borrowed(content_range),
                    borrowed(content_length),
                ) == Err::<Transfer, _>(e@),
            },
    {
        if !(200 <= status && status < 300) {
            return Err(refusal(url, status));
        }
        let done: u64 = if status == 206 {
            already
        } else {
            0
        };
        let total: u64 = match ranged_total(content_range) {
            Some(n) => n,
            None => match declared_length(content_length) {
                Some(n) => done + n,
                None => 0,
            },
        };
        Ok(Transfer { resumed: status == 206 && already > 0, done, total })
    }

    /// Takes note of what came, and says what to do next.
    pub fn next(&mut self, received: Received) -> (step: Step)
        requires
            received matches Received::Bytes(n) ==> old(self).done + n <= u64::MAX,
        ensures
            *final(self) == old(self).after(received),
            step@ == old(self).judging(received),
    {
        match received {
            Received::Bytes(n) => {
                self.done = self.done + n;
                Step::ReadOn
            },
            Received::Stop => Step::Failed(Error::cancelled()),
            Received::End => if self.total > 0 && self.done != self.total {
                Step::Failed(
                    Error::new(
                        "download ended early: got ".to_owned().concat(
                            human_bytes(self.done).as_str(),
                        ).concat(" of ").concat(human_bytes(self.total).as_str()),
                    ),
                )
            } else {
                Step::Complete
            },
        }
    }
}

/// The request for the text at `url`.
pub open spec fn text_at(url: Seq<char>) -> RequestView {
    fetch(Manner::Download, url, seq![("Accept"@, "application/vnd.github+json"@)])
}

/// The request for the text at `url`.
pub fn text_request(url: &str) -> (request: Request)
    ensures
        request@ == text_at(url@),
{
    let request = Request::get(Manner::Download, url.to_owned()).with(
        "Accept",
        "application/vnd.github+json".to_owned(),
    );
    assert(request@.headers =~= seq![("Accept"@, "application/vnd.github+json"@)]);
    request
}

/// What fetching the text at `url` comes to.
pub open spec fn text_answer(url: Seq<char>, reply: Result<Reply, Error>) -> Result<
    Seq<char>,
    Seq<CauseView>,
> {
    match reply {
        Err(reason) => Err(failure("cannot reach "@ + url) + reason@),
        Ok(reply) => if !served(reply.status) {
            Err(failure(answered(url, reply.status)))
        } else {
            match reply.body {
                Ok(body) => Ok(body@),
                Err(reason) => Err(failure("cannot read response from "@ + url) + reason@),
            }
        },
    }
}

/// Reads what came back for the text at `url`, or why nothing did.
pub fn get_text(url: &str, reply: Result<Reply, Error>) -> (text: Result<String, Error>)
    ensures
        said(text) == text_answer(url@, reply),
{
    let reply = match reply {
        Ok(reply) => reply,
        Err(reason) => {
            return Err(reason.context("cannot reach ".to_owned().concat(url)));
        },
    };
    if !(200 <= reply.status && reply.status < 300) {
        return Err(refusal(url, reply.status));
    }
    match reply.body {
        Ok(body) => Ok(body),
        Err(reason) => Err(
            reason.context("cannot read response from ".to_owned().concat(url)),
        ),
    }
}

/// `a / b`, rounded to the nearest integer, and to the even one where two are as near.
pub open spec fn half_even(a: nat, b: nat) -> nat {
    let q = a / b;
    let r = a % b;
    if 2 * r > b || (2 * r == b && q % 2 == 1) {
        q + 1
    } else {
        q
    }
}

/// How far apart the numbers are, around `n`, that a double can hold.
pub open spec fn double_gap(n: nat) -> nat
    decreases n,
{
    if n < 0x20_0000_0000_0000 {
        1
    } else {
        2 * double_gap(n / 2)
    }
}

/// The double nearest to `n`.
pub open spec fn nearest_double(n: nat) -> nat {
    half_even(n, double_gap(n)) * double_gap(n)
}

/// A size for people to read: in bytes, or with one decimal in the largest unit that it reaches.
/// Very large sizes are those of the nearest double.
pub open spec fn human_size(bytes: u64) -> Seq<char> {
    if bytes < 0x400 {
        decimal(bytes as nat) + " B"@
    } else if bytes < 0x10_0000 {
        tenths_text(half_even((bytes * 10) as nat, 0x400)) + " KiB"@
    } else if bytes < 0x4000_0000 {
        tenths_text(half_even((bytes * 10) as nat, 0x10_0000)) + " MiB"@
    } else {
        tenths_text(half_even(nearest_double(bytes as nat) * 10, 0x4000_0000)) + " GiB"@
    }
}

/// A number of tenths as a decimal fraction.
pub open spec fn tenths_text(n: nat) -> Seq<char> {
    decimal(n / 10) + seq!['.', digit_of(n % 10)]
}

fn to_half_even(a: u128, b: u128) -> (n: u128)
    requires
        0 < b <= 0x4000_0000,
        a <= 0xffff_ffff_ffff_ffff_ffff,
    ensures
        n == half_even(a as nat, b as nat),
        n <= a / b + 1,
{
    let q: u128 = a / b;
    let r: u128 = a % b;
    assert(q <= a) by (nonlinear_arith)
        requires
            q == a / b,
            0 < b,
    ;
    if 2 * r > b || (2 * r == b && q % 2 == 1) {
        q + 1
    } else {
        q
    }
}

fn to_tenths_text(n: u128) -> (s: String)
    requires
        n <= 0xffff_ffff_ffff_ffff,
    ensures
        s@ == tenths_text(n as nat),
{
    let mut s = decimal_text((n / 10) as u64);
    s.push('.');
    s.push((48 + (n % 10) as u8) as char);
    assert(s@ =~= tenths_text(n as nat));
    s
}

fn to_nearest_double(bytes: u64) -> (n: u128)
    ensures
        n == nearest_double(bytes as nat),
        n <= bytes + 0x1000,
{
    let mut gap: u128 = 1;
    let mut q: u64 = bytes;
    assert(1 * double_gap(bytes as nat) == double_gap(bytes as nat));
    while q >= 0x20_0000_0000_0000
        invariant
            gap >= 1,
            gap * q <= bytes,
            gap == 1 || q >= 0x10_0000_0000_0000,
            gap * double_gap(q as nat) == double_gap(bytes as nat),
        decreases q,
    {
        let ghost rest = double_gap((q / 2) as nat);
        assert(gap * (2 * rest) == (gap * 2) * rest) by (nonlinear_arith);
        assert((gap * 2) * (q / 2) <= gap * q) by (nonlinear_arith)
            requires
                gap >= 1,
        ;
        assert(gap <= 0x1000) by (nonlinear_arith)
            requires
                gap * q <= bytes,
                q >= 0x20_0000_0000_0000,
        ;
        q = q / 2;
        gap = gap * 2;
    }
    assert(gap <= 0x1000) by (nonlinear_arith)
        requires
            gap * q <= bytes,
            gap == 1 || q >= 0x10_0000_0000_0000,
    ;
    assert(gap * double_gap(q as nat) == gap) by (nonlinear_arith)
        requires
            double_gap(q as nat) == 1,
    ;
    let k: u128 = to_half_even(bytes as u128, gap);
    assert(k * gap <= bytes + gap) by (nonlinear_arith)
        requires
            k <= bytes as u128 / gap + 1,
            gap >= 1,
    ;
    k * gap
}

/// A size for people to read.
pub fn human_bytes(bytes: u64) -> (s: String)
    ensures
        s@ == human_size(bytes),
{
    if bytes < 0x400 {
        decimal_text(bytes).concat(" B")
    } else if bytes < 0x10_0000 {
        to_tenths_text(to_half_even(bytes as u128 * 10, 0x400)).concat(" KiB")
    } else if bytes < 0x4000_0000 {
        to_tenths_text(to_half_even(bytes as u128 * 10, 0x10_0000)).concat(" MiB")
    } else {
        let near: u128 = to_nearest_double(bytes);
        to_tenths_text(to_half_even(near * 10, 0x4000_0000)).concat(" GiB")
    }
}

/// Sizes that a double holds exactly, all below eight pebibytes, are shown as they are.
pub proof fn ordinary_sizes_are_exact(n: nat)
    requires
        n < 0x20_0000_0000_0000,
    ensures
        nearest_double(n) == n,
{
    assert(double_gap(n) == 1);
    assert(n / 1 == n && n % 1 == 0);
    assert(half_even(n, 1) == n);
}

/// A download goes on where it stopped: asked for the rest of a file of which `already` bytes are
/// there, a server that serves just the rest announces what is missing, and the download is then
/// complete when all of the file is there. A server that serves everything again starts it over.
pub proof fn a_download_resumes_where_it_stopped(url: Seq<char>, already: u64, whole: u64)
    requires
        0 < already <= whole,
    ensures
        started(url, 206, already, None, Some(decimal((whole - already) as nat))) == Ok::<
            _,
            Seq<CauseView>,
        >(Transfer { resumed: true, done: already, total: whole }),
        started(url, 200, already, None, Some(decimal(whole as nat))) == Ok::<_, Seq<CauseView>>(
            Transfer { resumed: false, done: 0, total: whole },
        ),
{
    crate::text::decimal_reads_back((whole - already) as nat, u64::MAX as nat);
    crate::text::decimal_reads_back(whole as nat, u64::MAX as nat);
}

/// How much pieces of these sizes are together.
pub open spec fn sum(pieces: Seq<u64>) -> nat
    decreases pieces.len(),
{
    if pieces.len() == 0 {
        0
    } else {
        sum(pieces.drop_last()) + pieces.last() as nat
    }
}

/// However a download comes in, what is there is what was kept of the partial file and all pieces.
pub proof fn every_piece_counts_once(transfer: Transfer, pieces: Seq<u64>)
    requires
        transfer.done + sum(pieces) <= u64::MAX,
    ensures
        transfer.after_all(pieces) == (Transfer {
            done: (transfer.done + sum(pieces)) as u64,
            ..transfer
        }),
        forall|k: int|
            0 <= k < pieces.len() ==> #[trigger] transfer.after_all(pieces.take(k)).judging(
                Received::Bytes(pieces[k]),
            ) is ReadOn,
    decreases pieces.len(),
{
    if pieces.len() > 0 {
        every_piece_counts_once(transfer, pieces.drop_last());
    }
}

/// Once nothing more comes, a download is complete exactly if all that was announced is there, or
/// nothing was announced; else it ended early. Where the user stops it, that is no other failure.
pub proof fn a_download_is_complete_when_all_is_there(
    url: Seq<char>,
    status: u16,
    already: u64,
    content_range: Option<Seq<char>>,
    content_length: Option<Seq<char>>,
    pieces: Seq<u64>,
)
    requires
        started(url, status, already, content_range, content_length) is Ok,
        kept(status, already) + sum(pieces) <= u64::MAX,
    ensures
        ({
            let begun = started(url, status, already, content_range, content_length)->Ok_0;
            let last = begun.after_all(pieces);
            &&& last.done == kept(status, already) + sum(pieces)
            &&& last.total == begun.total
            &&& last.judging(Received::End) is Complete <==> last.total == 0 || last.done
                == last.total
            &&& !(last.judging(Received::End) is Complete) ==> last.judging(Received::End)
                == StepView::Failed(failure(cut_short(last.done, last.total)))
            &&& last.judging(Received::Stop) == StepView::Failed(seq![CauseView::Cancelled])
        }),
{
    let begun = started(url, status, already, content_range, content_length)->Ok_0;
    every_piece_counts_once(begun, pieces);
}

/// A file that is downloaded in two goes is complete: after the first, which came to an end after
/// `first`, the rest is asked for, and once that came, all is there.
pub proof fn two_goes_make_a_whole(url: Seq<char>, whole: u64, first: Seq<u64>, second: Seq<u64>)
    requires
        0 < sum(first) < whole,
        sum(first) + sum(second) == whole,
    ensures
        ({
            let begun = started(url, 200, 0, None, Some(decimal(whole as nat)))->Ok_0;
            let there = begun.after_all(first).done;
            let resumed = started(url, 206, there, None, Some(decimal(sum(second))))->Ok_0;
            &&& there == sum(first)
            &&& begun.after_all(first).judging(Received::End) is Failed
            &&& resumed.resumed
            &&& resumed.after_all(second).done == whole
            &&& resumed.after_all(second).judging(Received::End) is Complete
        }),
{
    crate::text::decimal_reads_back(whole as nat, u64::MAX as nat);
    let begun = started(url, 200, 0, None, Some(decimal(whole as nat)))->Ok_0;
    every_piece_counts_once(begun, first);
    a_download_resumes_where_it_stopped(url, sum(first) as u64, whole);
    let resumed = started(url, 206, sum(first) as u64, None, Some(decimal(sum(second))))->Ok_0;
    every_piece_counts_once(resumed, second);
}

}
