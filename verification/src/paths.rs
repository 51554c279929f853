//! Every path the launcher touches, all under the XDG base directories.
use vstd::prelude::*;

pub mod laws;

use crate::config::inside;
use crate::error::{failure, Error};
use crate::spelling::{spell, spelled};
use crate::text::{
    begins, chars_of, lemma_next_char, lines, lines_in, next_char, parse_number, parsed, pieces,
    same_text, split, starts_with, text_in, text_of, texts, words, words_in,
};

verus! {

broadcast use vstd::string::group_string_axioms;

/// `rest` below `base`, or `rest` itself where it is absolute.
pub open spec fn joined(base: Seq<char>, rest: Seq<char>) -> Seq<char> {
    if rest.len() > 0 && rest[0] == '/' {
        rest
    } else if base.len() == 0 || base.last() == '/' {
        base + rest
    } else {
        base + seq!['/'] + rest
    }
}

/// Where `s[..n]` ends once the slashes, and the dots that stand for themselves, at its end are
/// dropped.
pub open spec fn body_end(s: Seq<char>, n: int) -> int
    decreases n,
{
    if n > 1 && s[n - 1] == '/' {
        body_end(s, n - 1)
    } else if n > 1 && s[n - 1] == '.' && s[n - 2] == '/' {
        body_end(s, n - 1)
    } else {
        n
    }
}

/// Where the last part of `s[..n]` begins.
pub open spec fn last_start(s: Seq<char>, n: int) -> int
    decreases n,
{
    if n <= 0 || s[n - 1] == '/' {
        n
    } else {
        last_start(s, n - 1)
    }
}

/// The last part of a path.
pub open spec fn last_part(s: Seq<char>) -> Seq<char> {
    let end = body_end(s, s.len() as int);
    s.subrange(last_start(s, end), end)
}

/// The name of the file or directory that a path leads to.
pub open spec fn name_in(s: Seq<char>) -> Option<Seq<char>> {
    let part = last_part(s);
    if part.len() == 0 || part == seq!['.'] || part == seq!['.', '.'] {
        None
    } else {
        Some(part)
    }
}

/// The directory that a path lies in.
pub open spec fn parent_in(s: Seq<char>) -> Option<Seq<char>> {
    let end = body_end(s, s.len() as int);
    let start = last_start(s, end);
    if start == end {
        None
    } else {
        Some(s.take(body_end(s, start)))
    }
}

/// `s` with the name of its file replaced.
pub open spec fn renamed(s: Seq<char>, name: Seq<char>) -> Seq<char> {
    match (name_in(s), parent_in(s)) {
        (Some(_), Some(parent)) => joined(parent, name),
        _ => joined(s, name),
    }
}

/// The position of the last dot in `s[lo..hi]` after `lo`, or `hi`.
pub open spec fn stem_end(s: Seq<char>, lo: int, hi: int, end: int) -> int
    decreases hi - lo,
{
    if hi <= lo + 1 {
        end
    } else if s[hi - 1] == '.' {
        hi - 1
    } else {
        stem_end(s, lo, hi - 1, end)
    }
}

/// `s` with the extension of its file name replaced, or unchanged where it names no file.
pub open spec fn extended(s: Seq<char>, extension: Seq<char>) -> Seq<char> {
    let end = body_end(s, s.len() as int);
    if name_in(s) is None {
        s
    } else {
        s.take(stem_end(s, last_start(s, end), end, end)) + seq!['.'] + extension
    }
}

/// The parts of a path that count, out of its `pieces` from the `i`th on.
pub open spec fn parts_from(pieces: Seq<Seq<char>>, i: int) -> Seq<Seq<char>>
    decreases pieces.len() - i,
{
    if i >= pieces.len() {
        seq![]
    } else if pieces[i].len() == 0 || (i > 0 && pieces[i] == seq!['.']) {
        parts_from(pieces, i + 1)
    } else {
        seq![pieces[i]] + parts_from(pieces, i + 1)
    }
}

/// The parts of a path that count.
pub open spec fn parts(path: Seq<char>) -> Seq<Seq<char>> {
    parts_from(pieces(path, '/', 0), 0)
}

/// Whether two paths are the same, part by part.
pub open spec fn same_place(a: Seq<char>, b: Seq<char>) -> bool {
    begins(a, seq!['/']) == begins(b, seq!['/']) && parts(a) == parts(b)
}

/// Whether `path` is `dir` or lies somewhere below it: its parts are those of `dir`, and then none
/// that leads back up.
pub open spec fn lies_within(dir: Seq<char>, path: Seq<char>) -> bool {
    &&& begins(path, seq!['/']) == begins(dir, seq!['/'])
    &&& parts(dir).len() <= parts(path).len()
    &&& parts(path).take(parts(dir).len() as int) == parts(dir)
    &&& forall|i: int|
        parts(dir).len() <= i < parts(path).len() ==> #[trigger] parts(path)[i] != seq!['.', '.']
}

/// Whether a path starts where it is joined to and never leads up.
pub open spec fn enclosed(name: Seq<char>) -> bool {
    &&& !begins(name, seq!['/'])
    &&& forall|i: int|
        0 <= i < pieces(name, '/', 0).len() ==> #[trigger] pieces(name, '/', 0)[i] != seq!['.', '.']
}

pub proof fn lemma_body_end(s: Seq<char>, n: int)
    requires
        0 <= n <= s.len(),
    ensures
        0 <= body_end(s, n) <= n,
        n > 0 ==> body_end(s, n) > 0,
    decreases n,
{
    if n > 1 {
        lemma_body_end(s, n - 1);
    }
}

pub proof fn lemma_last_start(s: Seq<char>, n: int)
    requires
        0 <= n <= s.len(),
    ensures
        0 <= last_start(s, n) <= n,
        last_start(s, n) > 0 ==> s[last_start(s, n) - 1] == '/',
        forall|i: int| last_start(s, n) <= i < n ==> #[trigger] s[i] != '/',
    decreases n,
{
    if n > 0 && s[n - 1] != '/' {
        lemma_last_start(s, n - 1);
    }
}

/// `rest` below `base`, or `rest` itself where it is absolute.
pub fn join(base: &str, rest: &str) -> (path: String)
    ensures
        path@ == joined(base@, rest@),
{
    let b = chars_of(base);
    let r = chars_of(rest);
    if r.len() > 0 && r[0] == '/' {
        rest.to_owned()
    } else if b.len() == 0 || b[b.len() - 1] == '/' {
        base.to_owned().concat(rest)
    } else {
        let mut path = base.to_owned();
        path.push('/');
        assert(path@ == base@ + seq!['/']);
        path.concat(rest)
    }
}

fn find_body_end(v: &Vec<char>, n: usize) -> (end: usize)
    requires
        n <= v.len(),
    ensures
        end == body_end(v@, n as int),
        end <= n,
{
    let mut i: usize = n;
    while i > 1 && (v[i - 1] == '/' || (v[i - 1] == '.' && v[i - 2] == '/'))
        invariant
            i <= n <= v.len(),
            body_end(v@, n as int) == body_end(v@, i as int),
        decreases i,
    {
        i -= 1;
    }
    i
}

fn find_last_start(v: &Vec<char>, n: usize) -> (start: usize)
    requires
        n <= v.len(),
    ensures
        start == last_start(v@, n as int),
        start <= n,
{
    let mut i: usize = n;
    while i > 0 && v[i - 1] != '/'
        invariant
            i <= n <= v.len(),
            last_start(v@, n as int) == last_start(v@, i as int),
        decreases i,
    {
        i -= 1;
    }
    i
}

/// The name of the file or directory that a path leads to.
pub fn file_name(path: &str) -> (name: Option<String>)
    ensures
        match name {
            Some(name) => name_in(path@) == Some(name@),
            None => name_in(path@) is None,
        },
{
    let v = chars_of(path);
    let end: usize = find_body_end(&v, v.len());
    let start: usize = find_last_start(&v, end);
    let ghost part = last_part(path@);
    if start == end {
        return None;
    }
    if end - start == 1 && v[start] == '.' {
        assert(part =~= seq!['.']);
        return None;
    }
    if end - start == 2 && v[start] == '.' && v[start + 1] == '.' {
        assert(part =~= seq!['.', '.']);
        return None;
    }
    assert(part == v@.subrange(start as int, end as int));
    assert(end - start == 1 ==> part[0] != '.');
    assert(end - start == 2 ==> part[0] != '.' || part[1] != '.');
    assert(seq!['.'].len() == 1 && seq!['.'][0] == '.');
    assert(seq!['.', '.'].len() == 2 && seq!['.', '.'][0] == '.' && seq!['.', '.'][1] == '.');
    Some(text_of(&v, start, end))
}

/// The directory that a path lies in.
pub fn parent(path: &str) -> (dir: Option<String>)
    ensures
        match dir {
            Some(dir) => parent_in(path@) == Some(dir@),
            None => parent_in(path@) is None,
        },
{
    let v = chars_of(path);
    let end: usize = find_body_end(&v, v.len());
    let start: usize = find_last_start(&v, end);
    if start == end {
        return None;
    }
    let stop: usize = find_body_end(&v, start);
    Some(text_of(&v, 0, stop))
}

/// `path` with the name of its file replaced.
pub fn with_file_name(path: &str, name: &str) -> (renamed_path: String)
    ensures
        renamed_path@ == renamed(path@, name@),
{
    match (file_name(path), parent(path)) {
        (Some(_), Some(dir)) => join(dir.as_str(), name),
        _ => join(path, name),
    }
}

/// `path` with the extension of its file name replaced, or unchanged where it names no file.
pub fn with_extension(path: &str, extension: &str) -> (extended_path: String)
    ensures
        extended_path@ == extended(path@, extension@),
{
    if file_name(path).is_none() {
        return path.to_owned();
    }
    let v = chars_of(path);
    let end: usize = find_body_end(&v, v.len());
    let start: usize = find_last_start(&v, end);
    let mut i: usize = end;
    while i - start > 1 && v[i - 1] != '.'
        invariant
            start <= i <= end <= v.len(),
            stem_end(v@, start as int, end as int, end as int) == stem_end(
                v@,
                start as int,
                i as int,
                end as int,
            ),
        decreases i,
    {
        i -= 1;
    }
    let stop: usize = if i - start > 1 {
        i - 1
    } else {
        end
    };
    let mut out = text_of(&v, 0, stop);
    assert(v@.subrange(0, stop as int) == path@.take(stop as int));
    out.push('.');
    assert(out@ == path@.take(stop as int) + seq!['.']);
    out.concat(extension)
}

fn split_parts(path: &str) -> (list: Vec<String>)
    ensures
        texts(list@) == parts(path@),
{
    let all = split(path, '/');
    let ghost whole = pieces(path@, '/', 0);
    let mut list: Vec<String> = Vec::new();
    let mut i: usize = 0;
    while i < all.len()
        invariant
            i <= all.len(),
            texts(all@) == whole,
            texts(list@) + parts_from(whole, i as int) == parts_from(whole, 0),
        decreases all.len() - i,
    {
        let piece = all[i].as_str();
        assert(piece@ == whole[i as int]);
        let piece_chars = chars_of(piece);
        let dot = piece_chars.len() == 1 && piece_chars[0] == '.';
        assert(dot == (piece@ == seq!['.'])) by {
            if dot {
                assert(piece@ =~= seq!['.']);
            }
        }
        let ghost before = list@;
        if !(piece_chars.len() == 0 || (i > 0 && dot)) {
            list.push(piece.to_owned());
            assert(texts(list@) == texts(before).push(piece@));
            assert(texts(list@) + parts_from(whole, i + 1) == texts(before) + parts_from(
                whole,
                i as int,
            ));
        }
        i += 1;
    }
    assert(texts(list@) + parts_from(whole, i as int) == texts(list@));
    list
}

/// Whether two paths are the same, part by part.
pub fn same_path(a: &str, b: &str) -> (same: bool)
    ensures
        same == same_place(a@, b@),
{
    let a_rooted = starts_with(a, "/");
    let b_rooted = starts_with(b, "/");
    proof {
        reveal_strlit("/");
        assert("/"@ =~= seq!['/']);
    }
    let x = split_parts(a);
    let y = split_parts(b);
    if a_rooted != b_rooted || x.len() != y.len() {
        assert(x.len() != y.len() ==> texts(x@).len() != texts(y@).len());
        return false;
    }
    let mut i: usize = 0;
    while i < x.len()
        invariant
            i <= x.len(),
            x.len() == y.len(),
            texts(x@) == parts_from(pieces(a@, '/', 0), 0),
            texts(y@) == parts_from(pieces(b@, '/', 0), 0),
            forall|j: int| 0 <= j < i ==> (#[trigger] x@[j])@ == y@[j]@,
        decreases x.len() - i,
    {
        if !same_text(x[i].as_str(), y[i].as_str()) {
            assert(texts(x@)[i as int] != texts(y@)[i as int]);
            return false;
        }
        i += 1;
    }
    assert(texts(x@) =~= texts(y@));
    true
}

/// Where the launcher keeps its things. As all paths here, these are spelled as
/// [`crate::spelling`] says.
#[derive(Debug)]
pub struct Paths {
    pub data: String,
    pub config: String,
}

impl Clone for Paths {
    fn clone(&self) -> (copy: Paths)
        ensures
            copy.data@ == self.data@,
            copy.config@ == self.config@,
    {
        Paths { data: self.data.clone(), config: self.config.clone() }
    }
}

/// The launcher's own directory below a base directory.
pub open spec fn own_dir(base: Seq<char>) -> Seq<char> {
    joined(base, "vortex-launcher"@)
}

/// The name of the user's data directory, which `dirs::data_dir` takes from the environment, as its
/// bytes; `None` where it knows of none. Nothing is promised of it.
#[verifier::external_body]
fn data_dir_name() -> (name: Option<Vec<u8>>) {
    dirs::data_dir().map(|dir| dir.into_os_string().into_encoded_bytes())
}

/// The name of the user's configuration directory, which `dirs::config_dir` takes from the
/// environment, as its bytes; `None` where it knows of none. Nothing is promised of it.
#[verifier::external_body]
fn config_dir_name() -> (name: Option<Vec<u8>>) {
    dirs::config_dir().map(|dir| dir.into_os_string().into_encoded_bytes())
}

/// The name of the user's home directory, which `dirs::home_dir` takes from the environment, as its
/// bytes; `None` where it knows of none. Nothing is promised of it.
#[verifier::external_body]
fn home_dir_name() -> (name: Option<Vec<u8>>) {
    dirs::home_dir().map(|dir| dir.into_os_string().into_encoded_bytes())
}

/// Whether a text spells the name of a directory, where there is one.
pub open spec fn spells_dir(name: Option<Seq<u8>>, dir: Option<Seq<char>>) -> bool {
    match name {
        Some(name) => dir == Some(spelled(name)),
        None => dir is None,
    }
}

/// The directory with this name, where there is one.
pub fn dir_named(name: Option<Vec<u8>>) -> (dir: Option<String>)
    ensures
        spells_dir(inside(name), text_in(dir)),
{
    match name {
        Some(name) => Some(spell(&name)),
        None => None,
    }
}

/// The user's data directory.
pub(crate) fn data_dir() -> (dir: Option<String>)
    ensures
        exists|name: Option<Seq<u8>>| #[trigger] spells_dir(name, text_in(dir)),
{
    dir_named(data_dir_name())
}

/// The user's configuration directory.
pub(crate) fn config_dir() -> (dir: Option<String>)
    ensures
        exists|name: Option<Seq<u8>>| #[trigger] spells_dir(name, text_in(dir)),
{
    dir_named(config_dir_name())
}

/// The user's home directory.
pub(crate) fn home_dir() -> (dir: Option<String>)
    ensures
        exists|name: Option<Seq<u8>>| #[trigger] spells_dir(name, text_in(dir)),
{
    dir_named(home_dir_name())
}

impl Paths {
    /// The launcher's directories in the environment that it runs in.
    pub fn discover() -> (paths: Result<Paths, Error>)
        ensures
            match paths {
                Ok(paths) => exists|data: Seq<char>, config: Seq<char>|
                    paths.data@ == #[trigger] own_dir(data) && paths.config@
                        == #[trigger] own_dir(config),
                Err(e) => e@ == failure("no XDG data directory (is $HOME set?)"@) || e@ == failure(
                    "no XDG config directory (is $HOME set?)"@,
                ),
            },
    {
        Paths::below(data_dir(), config_dir())
    }

    /// The launcher's directories below the user's data and configuration directories.
    pub fn below(data: Option<String>, config: Option<String>) -> (paths: Result<Paths, Error>)
        ensures
            match (data, config) {
                (Some(data), Some(config)) => paths matches Ok(paths) && paths.data@ == own_dir(
                    data@,
                ) && paths.config@ == own_dir(config@),
                (Some(_), None) => paths matches Err(e) && e@ == failure(
                    "no XDG config directory (is $HOME set?)"@,
                ),
                (None, _) => paths matches Err(e) && e@ == failure(
                    "no XDG data directory (is $HOME set?)"@,
                ),
            },
    {
        match (data, config) {
            (Some(data), Some(config)) => Ok(
                Paths {
                    data: join(data.as_str(), "vortex-launcher"),
                    config: join(config.as_str(), "vortex-launcher"),
                },
            ),
            (Some(_), None) => Err(Error::says("no XDG config directory (is $HOME set?)")),
            (None, _) => Err(Error::says("no XDG data directory (is $HOME set?)")),
        }
    }

    /// Holds Vortex.exe.
    pub fn game(&self) -> (dir: String)
        ensures
            dir@ == joined(self.data@, "game"@),
    {
        join(self.data.as_str(), "game")
    }

    /// Holds VortexStudio.exe.
    pub fn studio(&self) -> (dir: String)
        ensures
            dir@ == joined(self.data@, "studio"@),
    {
        join(self.data.as_str(), "studio")
    }

    /// Holds one directory per Proton build.
    pub fn proton(&self) -> (dir: String)
        ensures
            dir@ == joined(self.data@, "proton"@),
    {
        join(self.data.as_str(), "proton")
    }

    /// STEAM_COMPAT_DATA_PATH; Proton puts the prefix in pfx/ below it.
    pub fn prefix(&self) -> (dir: String)
        ensures
            dir@ == joined(self.data@, "prefix"@),
    {
        join(self.data.as_str(), "prefix")
    }

    /// STEAM_COMPAT_CLIENT_INSTALL_PATH; Proton wants one even without Steam.
    pub fn compat_client(&self) -> (dir: String)
        ensures
            dir@ == joined(self.data@, "compat-client"@),
    {
        join(self.data.as_str(), "compat-client")
    }

    /// Partial downloads live here so that they can resume across runs.
    pub fn downloads(&self) -> (dir: String)
        ensures
            dir@ == joined(self.data@, "downloads"@),
    {
        join(self.data.as_str(), "downloads")
    }

    /// The last session's output.
    pub fn logs(&self) -> (dir: String)
        ensures
            dir@ == joined(self.data@, "logs"@),
    {
        join(self.data.as_str(), "logs")
    }

    /// The launcher's own state.
    pub fn config_file(&self) -> (file: String)
        ensures
            file@ == joined(self.config@, "config.json"@),
    {
        join(self.config.as_str(), "config.json")
    }

    /// The session token.
    pub fn session_file(&self) -> (file: String)
        ensures
            file@ == joined(self.data@, "session.json"@),
    {
        join(self.data.as_str(), "session.json")
    }

    /// The directories that have to exist, each after the one that it lies in.
    pub open spec fn dirs(&self) -> Seq<Seq<char>> {
        seq![
            self.data@,
            self.config@,
            joined(self.data@, "game"@),
            joined(self.data@, "proton"@),
            joined(self.data@, "prefix"@),
            joined(self.data@, "compat-client"@),
            joined(self.data@, "downloads"@),
            joined(self.data@, "logs"@),
        ]
    }

    /// The directories to create, in this order, before the launcher works with any of them.
    pub fn ensure(&self) -> (dirs: Vec<String>)
        ensures
            texts(dirs@) == self.dirs(),
    {
        let mut dirs: Vec<String> = Vec::new();
        dirs.push(self.data.clone());
        dirs.push(self.config.clone());
        dirs.push(self.game());
        dirs.push(self.proton());
        dirs.push(self.prefix());
        dirs.push(self.compat_client());
        dirs.push(self.downloads());
        dirs.push(self.logs());
        assert(texts(dirs@) =~= self.dirs());
        dirs
    }
}

/// The free bytes that the output of `df -Pk` for one directory tells of, `None` where it tells of
/// none.
pub open spec fn free_bytes(df: Seq<char>) -> Option<u64> {
    let rows = lines_in(df, 0);
    let columns = words_in(rows[1], 0);
    let kilobytes = parsed(columns[3], u64::MAX as nat);
    if rows.len() < 2 || columns.len() < 4 || kilobytes is None {
        None
    } else if kilobytes->0 * 1024 > u64::MAX {
        Some(u64::MAX)
    } else {
        Some((kilobytes->0 * 1024) as u64)
    }
}

/// The free bytes that the output of `df -Pk` for one directory tells of, at most what fits.
pub fn free_space(df: &str) -> (free: Option<u64>)
    ensures
        free == free_bytes(df@),
{
    let rows = lines(df);
    assert(texts(rows@).len() == rows@.len());
    if rows.len() < 2 {
        return None;
    }
    assert(texts(rows@)[1] == rows@[1]@);
    let columns = words(rows[1].as_str());
    assert(texts(columns@).len() == columns@.len());
    if columns.len() < 4 {
        return None;
    }
    assert(texts(columns@)[3] == columns@[3]@);
    match parse_number(columns[3].as_str(), u64::MAX) {
        None => None,
        Some(kilobytes) => if kilobytes > u64::MAX / 1024 {
            Some(u64::MAX)
        } else {
            Some(kilobytes * 1024)
        },
    }
}

/// A name that leads to one file or directory right below the one it is joined to.
pub open spec fn plain(name: Seq<char>) -> bool {
    &&& name.len() > 0
    &&& forall|i: int| 0 <= i < name.len() ==> #[trigger] name[i] != '/'
    &&& name != seq!['.']
    &&& name != seq!['.', '.']
}

/// A path without slashes, or dots that stand for themselves, at its end.
pub open spec fn tidy(path: Seq<char>) -> bool {
    body_end(path, path.len() as int) == path.len()
}

proof fn lemma_last_start_is(s: Seq<char>, k: int, n: int)
    requires
        0 <= k <= n <= s.len(),
        k == 0 || s[k - 1] == '/',
        forall|i: int| k <= i < n ==> #[trigger] s[i] != '/',
    ensures
        last_start(s, n) == k,
    decreases n,
{
    if n > k {
        lemma_last_start_is(s, k, n - 1);
    }
}

proof fn lemma_body_end_of_front(s: Seq<char>, t: Seq<char>, n: int)
    requires
        0 <= n <= s.len(),
        n <= t.len(),
        s.take(n) == t.take(n),
    ensures
        body_end(s, n) == body_end(t, n),
    decreases n,
{
    if n > 1 {
        assert(s[n - 1] == s.take(n)[n - 1]);
        assert(t[n - 1] == t.take(n)[n - 1]);
        assert(s[n - 2] == s.take(n)[n - 2]);
        assert(t[n - 2] == t.take(n)[n - 2]);
        assert(s.take(n - 1) == s.take(n).take(n - 1));
        assert(t.take(n - 1) == t.take(n).take(n - 1));
        lemma_body_end_of_front(s, t, n - 1);
    }
}

/// What is joined to a directory under a plain name has that name, and lies in that directory.
pub proof fn joined_path_has_its_name_and_parent(dir: Seq<char>, name: Seq<char>)
    requires
        plain(name),
    ensures
        name_in(joined(dir, name)) == Some(name),
        tidy(dir) ==> parent_in(joined(dir, name)) == Some(dir),
{
    let s = joined(dir, name);
    let n = s.len() as int;
    let k = n - name.len();
    assert(name[0] != '/');
    assert(forall|i: int| 0 <= i < name.len() ==> s[k + i] == #[trigger] name[i]);
    assert(s[n - 1] == name[name.len() - 1]);
    assert(k == 0 || s[k - 1] == '/');
    if s[n - 1] == '.' && n > 1 && s[n - 2] == '/' {
        if name.len() == 1 {
            assert(name =~= seq!['.']);
        } else {
            assert(s[n - 2] == name[name.len() - 2]);
        }
        assert(false);
    }
    assert(body_end(s, n) == n);
    assert forall|i: int| k <= i < n implies #[trigger] s[i] != '/' by {
        assert(s[k + (i - k)] == name[i - k]);
    }
    lemma_last_start_is(s, k, n);
    assert(last_part(s) =~= name);
    if tidy(dir) {
        let d = dir.len() as int;
        assert(s.take(d) =~= dir);
        assert(dir.take(d) =~= dir);
        lemma_body_end_of_front(s, dir, d);
        if d == 0 || dir.last() == '/' {
            assert(k == d);
        } else {
            assert(k == d + 1);
            assert(body_end(s, k) == body_end(s, d));
        }
    }
}

proof fn lemma_pieces_skipped(s: Seq<char>, at: int, k: int)
    requires
        0 <= at,
        0 <= k,
        at + k <= s.len(),
    ensures
        pieces(s, '/', at + k) == pieces(s.skip(at), '/', k),
    decreases s.len() - at - k,
{
    let t = s.skip(at);
    lemma_next_char(s, '/', at + k);
    lemma_next_char(t, '/', k);
    let end = next_char(t, '/', k);
    lemma_next_char_skipped(s, at, k);
    if end >= t.len() {
        assert(s.subrange(at + k, s.len() as int) =~= t.subrange(k, t.len() as int));
    } else {
        lemma_pieces_skipped(s, at, end + 1);
        assert(s.subrange(at + k, at + end) =~= t.subrange(k, end));
    }
}

proof fn lemma_next_char_skipped(s: Seq<char>, at: int, k: int)
    requires
        0 <= at,
        0 <= k,
        at + k <= s.len(),
    ensures
        next_char(s, '/', at + k) == at + next_char(s.skip(at), '/', k),
    decreases s.len() - at - k,
{
    if at + k < s.len() {
        assert(s.skip(at)[k] == s[at + k]);
        if s[at + k] != '/' {
            lemma_next_char_skipped(s, at, k + 1);
        }
    }
}

proof fn lemma_next_char_in_front(a: Seq<char>, b: Seq<char>, i: int)
    requires
        0 <= i <= a.len(),
    ensures
        next_char(a + seq!['/'] + b, '/', i) == next_char(a, '/', i),
    decreases a.len() - i,
{
    let s = a + seq!['/'] + b;
    if i < a.len() {
        assert(s[i] == a[i]);
        if a[i] != '/' {
            lemma_next_char_in_front(a, b, i + 1);
        }
    } else {
        assert(s[i] == '/');
    }
}

/// The pieces on both sides of a slash.
pub(crate) proof fn lemma_pieces(a: Seq<char>, b: Seq<char>, i: int)
    requires
        0 <= i <= a.len(),
    ensures
        pieces(a + seq!['/'] + b, '/', i) == pieces(a, '/', i) + pieces(b, '/', 0),
    decreases a.len() - i,
{
    let s = a + seq!['/'] + b;
    lemma_next_char(a, '/', i);
    lemma_next_char_in_front(a, b, i);
    let end = next_char(a, '/', i);
    assert(s.subrange(i, end) =~= a.subrange(i, end));
    if end < a.len() {
        lemma_pieces(a, b, end + 1);
        assert(seq![a.subrange(i, end)] + (pieces(a, '/', end + 1) + pieces(b, '/', 0)) =~= (seq![
            a.subrange(i, end),
        ] + pieces(a, '/', end + 1)) + pieces(b, '/', 0));
    } else {
        lemma_pieces_skipped(s, end + 1, 0);
        assert(s.skip(end + 1) =~= b);
    }
}

/// The parts out of the pieces in front, and then some of those that follow.
proof fn lemma_parts(x: Seq<Seq<char>>, y: Seq<Seq<char>>, i: int)
    requires
        0 <= i <= x.len(),
        forall|k: int| 0 <= k < y.len() ==> #[trigger] y[k] != seq!['.', '.'],
    ensures
        parts_from(x, i).len() <= parts_from(x + y, i).len(),
        parts_from(x + y, i).take(parts_from(x, i).len() as int) == parts_from(x, i),
        forall|k: int|
            parts_from(x, i).len() <= k < parts_from(x + y, i).len() ==> #[trigger] parts_from(
                x + y,
                i,
            )[k] != seq!['.', '.'],
    decreases x.len() - i,
{
    let whole = parts_from(x + y, i);
    let front = parts_from(x, i);
    if i < x.len() {
        assert((x + y)[i] == x[i]);
        lemma_parts(x, y, i + 1);
        let rest = parts_from(x + y, i + 1);
        if whole != rest {
            assert(whole == seq![x[i]] + rest);
            assert forall|k: int| front.len() <= k < whole.len() implies #[trigger] whole[k] != seq![
                '.',
                '.',
            ] by {
                assert(whole[k] == rest[k - 1]);
            }
            assert(whole.take(front.len() as int) =~= seq![x[i]] + rest.take(front.len() - 1));
        }
    } else {
        lemma_no_way_up(x + y, i);
        assert(whole.take(0) =~= front);
    }
}

proof fn lemma_no_way_up(z: Seq<Seq<char>>, i: int)
    requires
        0 <= i,
        forall|k: int| i <= k < z.len() ==> #[trigger] z[k] != seq!['.', '.'],
    ensures
        forall|k: int|
            0 <= k < parts_from(z, i).len() ==> #[trigger] parts_from(z, i)[k] != seq!['.', '.'],
    decreases z.len() - i,
{
    if i < z.len() {
        lemma_no_way_up(z, i + 1);
        let rest = parts_from(z, i + 1);
        if parts_from(z, i) != rest {
            assert forall|k: int| 0 <= k < parts_from(z, i).len() implies #[trigger] parts_from(
                z,
                i,
            )[k] != seq!['.', '.'] by {
                if k > 0 {
                    assert(parts_from(z, i)[k] == rest[k - 1]);
                }
            }
        }
    }
}

/// A path that does not lead up stays within the directory that it is joined to.
pub proof fn what_does_not_lead_up_stays_within(dir: Seq<char>, name: Seq<char>)
    requires
        enclosed(name),
    ensures
        lies_within(dir, joined(dir, name)),
{
    let path = joined(dir, name);
    let found = pieces(name, '/', 0);
    assert(name.len() > 0 ==> name[0] != '/') by {
        if name.len() > 0 && name[0] == '/' {
            assert(name.subrange(0, 1) =~= seq!['/']);
        }
    }
    assert(begins(path, seq!['/']) == begins(dir, seq!['/'])) by {
        if dir.len() > 0 {
            assert(path.subrange(0, 1) =~= dir.subrange(0, 1));
        } else {
            assert(path =~= name);
        }
    }
    if dir.len() == 0 {
        assert(path =~= name);
        assert(dir.subrange(0, 0) =~= seq![]);
        assert(pieces(dir, '/', 0) =~= seq![Seq::<char>::empty()]);
        assert(parts_from(pieces(dir, '/', 0), 1) =~= seq![]);
        lemma_no_way_up(found, 0);
        assert(parts(path).take(0) =~= parts(dir));
    } else if dir.last() == '/' {
        let front = dir.drop_last();
        let none = Seq::<char>::empty();
        assert(dir =~= front + seq!['/'] + none);
        assert(path =~= front + seq!['/'] + name);
        lemma_pieces(front, name, 0);
        lemma_pieces(front, none, 0);
        assert(none.subrange(0, 0) =~= none);
        assert(pieces(none, '/', 0) =~= seq![none]);
        lemma_parts(pieces(front, '/', 0), found, 0);
        lemma_parts_with_nothing(pieces(front, '/', 0), 0);
    } else {
        lemma_pieces(dir, name, 0);
        lemma_parts(pieces(dir, '/', 0), found, 0);
    }
}

proof fn lemma_parts_with_nothing(x: Seq<Seq<char>>, i: int)
    requires
        0 <= i <= x.len(),
    ensures
        parts_from(x + seq![Seq::<char>::empty()], i) == parts_from(x, i),
    decreases x.len() - i,
{
    let y = x + seq![Seq::<char>::empty()];
    if i < x.len() {
        assert(y[i] == x[i]);
        lemma_parts_with_nothing(x, i + 1);
    } else {
        assert(y[i].len() == 0);
        assert(parts_from(y, i + 1) =~= seq![]);
    }
}

/// The wine prefix, the game, the Proton builds, the downloads and the logs all lie right below the
/// launcher's data directory, and the directories are created parents first.
pub proof fn directories_lie_below_the_data_directory(paths: Paths)
    requires
        tidy(paths.data@),
    ensures
        forall|i: int|
            2 <= i < paths.dirs().len() ==> parent_in(#[trigger] paths.dirs()[i]) == Some(
                paths.dirs()[0],
            ),
        parent_in(joined(paths.data@, "session.json"@)) == Some(paths.data@),
        tidy(paths.config@) ==> parent_in(joined(paths.config@, "config.json"@)) == Some(
            paths.config@,
        ),
{
    reveal_strlit("game");
    reveal_strlit("proton");
    reveal_strlit("prefix");
    reveal_strlit("compat-client");
    reveal_strlit("downloads");
    reveal_strlit("logs");
    reveal_strlit("session.json");
    reveal_strlit("config.json");
    assert(seq!['.'].len() == 1);
    assert(seq!['.', '.'].len() == 2);
    joined_path_has_its_name_and_parent(paths.data@, "game"@);
    joined_path_has_its_name_and_parent(paths.data@, "proton"@);
    joined_path_has_its_name_and_parent(paths.data@, "prefix"@);
    joined_path_has_its_name_and_parent(paths.data@, "compat-client"@);
    joined_path_has_its_name_and_parent(paths.data@, "downloads"@);
    joined_path_has_its_name_and_parent(paths.data@, "logs"@);
    joined_path_has_its_name_and_parent(paths.data@, "session.json"@);
    joined_path_has_its_name_and_parent(paths.config@, "config.json"@);
}

/// How a file is replaced in one go, so that a kill half-way costs nothing: its new content is
/// written to a file beside it, which then takes its place.
#[derive(Debug)]
pub struct Replacement {
    /// the directory it is in, made where it is not there
    pub dir: String,
    /// where its new content is written first
    pub tmp: String,
    /// the permissions that file is made with and then has, where they are not left to the system
    pub mode: Option<u32>,
}

/// How the file at `path` is replaced, where it has a directory.
pub fn replacement(path: &str, mode: Option<u32>) -> (replacement: Option<Replacement>)
    ensures
        match replacement {
            Some(replacement) => parent_in(path@) == Some(replacement.dir@) && replacement.tmp@
                == extended(path@, "json.tmp"@) && replacement.mode == mode,
            None => parent_in(path@) is None,
        },
{
    match parent(path) {
        Some(dir) => Some(Replacement { dir, tmp: with_extension(path, "json.tmp"), mode }),
        None => None,
    }
}

/// The new content of the configuration and of the session is written right beside the file it
/// replaces.
pub proof fn a_file_is_replaced_from_beside(paths: Paths)
    ensures
        extended(joined(paths.config@, "config.json"@), "json.tmp"@) == joined(
            paths.config@,
            "config.json.tmp"@,
        ),
        extended(joined(paths.data@, "session.json"@), "json.tmp"@) == joined(
            paths.data@,
            "session.json.tmp"@,
        ),
{
    reveal_strlit("config.json");
    reveal_strlit("session.json");
    reveal_strlit("config.json.tmp");
    reveal_strlit("session.json.tmp");
    reveal_strlit("json.tmp");
    lemma_extended(paths.config@, "config.json"@, 6);
    lemma_extended(paths.data@, "session.json"@, 7);
    assert("config.json.tmp"@ =~= "config.json"@.take(6) + seq!['.'] + "json.tmp"@);
    assert("session.json.tmp"@ =~= "session.json"@.take(7) + seq!['.'] + "json.tmp"@);
}

proof fn lemma_stem_end(s: Seq<char>, lo: int, hi: int, dot: int)
    requires
        0 <= lo < dot < hi <= s.len(),
        s[dot] == '.',
        forall|i: int| dot < i < hi ==> #[trigger] s[i] != '.',
    ensures
        stem_end(s, lo, hi, s.len() as int) == dot,
    decreases hi,
{
    if hi - 1 > dot {
        lemma_stem_end(s, lo, hi - 1, dot);
    }
}

proof fn lemma_extended(dir: Seq<char>, name: Seq<char>, dot: int)
    requires
        plain(name),
        0 < dot < name.len(),
        name[dot] == '.',
        forall|i: int| dot < i < name.len() ==> #[trigger] name[i] != '.',
        name.last() != '.',
    ensures
        extended(joined(dir, name), "json.tmp"@) == joined(
            dir,
            name.take(dot) + seq!['.'] + "json.tmp"@,
        ),
{
    let s = joined(dir, name);
    let n = s.len() as int;
    let k = n - name.len();
    joined_path_has_its_name_and_parent(dir, name);
    assert(name[0] != '/');
    assert(forall|i: int| 0 <= i < name.len() ==> s[k + i] == #[trigger] name[i]);
    assert(s[n - 1] == name.last());
    assert(s[n - 1] == name[name.len() - 1]);
    assert(body_end(s, n) == n);
    assert forall|i: int| k <= i < n implies #[trigger] s[i] != '/' by {
        assert(s[k + (i - k)] == name[i - k]);
    }
    assert(k == 0 || s[k - 1] == '/');
    lemma_last_start_is(s, k, n);
    assert(s[k + dot] == name[dot]);
    assert forall|i: int| k + dot < i < n implies #[trigger] s[i] != '.' by {
        assert(s[k + (i - k)] == name[i - k]);
    }
    lemma_stem_end(s, k, n, k + dot);
    let front = name.take(dot) + seq!['.'] + "json.tmp"@;
    assert(front[0] == name[0]);
    assert(s.take(k + dot) + seq!['.'] + "json.tmp"@ =~= joined(dir, front));
}

}
