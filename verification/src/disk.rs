//! What the file system answered.
//!
//! The launcher's decisions depend on a handful of files. They are looked at first, and decided
//! upon afterwards: a [`Disk`] is what was seen.
use vstd::prelude::*;

pub mod laws;

use crate::paths::{join, joined};
use crate::text::{pieces, same_text, split, text_in, texts};

verus! {

/// A path that leads to a file.
#[derive(Debug)]
pub struct FileSeen {
    pub path: String,
    /// what it begins with, at least as much as was asked for, `None` where it could not be read
    pub bytes: Option<Vec<u8>>,
}

/// A path that leads to a directory.
#[derive(Debug)]
pub struct DirSeen {
    pub path: String,
    /// the paths of what lies in it
    pub entries: Vec<String>,
}

/// What was seen of the file system.
#[derive(Debug)]
pub struct Disk {
    pub files: Vec<FileSeen>,
    pub dirs: Vec<DirSeen>,
}

/// The bytes that were read, if any were.
pub open spec fn bytes_in(bytes: Option<Vec<u8>>) -> Option<Seq<u8>> {
    match bytes {
        Some(bytes) => Some(bytes@),
        None => None,
    }
}

/// What was seen at `path`, out of the files from the `i`th on.
pub open spec fn file_at(files: Seq<FileSeen>, path: Seq<char>, i: int) -> Option<FileSeen>
    decreases files.len() - i,
{
    if i >= files.len() {
        None
    } else if files[i].path@ == path {
        Some(files[i])
    } else {
        file_at(files, path, i + 1)
    }
}

/// What was seen at `path`, out of the directories from the `i`th on.
pub open spec fn dir_at(dirs: Seq<DirSeen>, path: Seq<char>, i: int) -> Option<DirSeen>
    decreases dirs.len() - i,
{
    if i >= dirs.len() {
        None
    } else if dirs[i].path@ == path {
        Some(dirs[i])
    } else {
        dir_at(dirs, path, i + 1)
    }
}

impl Disk {
    /// Whether `path` leads to a file.
    pub open spec fn file(&self, path: Seq<char>) -> bool {
        file_at(self.files@, path, 0) is Some
    }

    /// What the file at `path` begins with, if there is one that could be read.
    pub open spec fn content(&self, path: Seq<char>) -> Option<Seq<u8>> {
        match file_at(self.files@, path, 0) {
            Some(file) => bytes_in(file.bytes),
            None => None,
        }
    }

    /// The paths of what lies in the directory at `path`, none where it cannot be read.
    pub open spec fn listing(&self, path: Seq<char>) -> Seq<Seq<char>> {
        match dir_at(self.dirs@, path, 0) {
            Some(dir) => texts(dir.entries@),
            None => seq![],
        }
    }

    /// Whether `path` leads to a directory.
    pub open spec fn directory(&self, path: Seq<char>) -> bool {
        dir_at(self.dirs@, path, 0) is Some
    }

    /// Nothing was seen.
    pub fn empty() -> (disk: Disk)
        ensures
            forall|path: Seq<char>| !#[trigger] disk.file(path),
            forall|path: Seq<char>| (#[trigger] disk.listing(path)).len() == 0,
    {
        Disk { files: Vec::new(), dirs: Vec::new() }
    }

    fn find_file(&self, path: &str) -> (file: Option<&FileSeen>)
        ensures
            match file {
                Some(file) => file_at(self.files@, path@, 0) == Some(*file),
                None => file_at(self.files@, path@, 0) is None,
            },
    {
        let mut i: usize = 0;
        while i < self.files.len()
            invariant
                i <= self.files.len(),
                file_at(self.files@, path@, 0) == file_at(self.files@, path@, i as int),
            decreases self.files.len() - i,
        {
            if same_text(self.files[i].path.as_str(), path) {
                return Some(&self.files[i]);
            }
            i += 1;
        }
        None
    }

    /// Whether `path` leads to a file.
    pub fn is_file(&self, path: &str) -> (b: bool)
        ensures
            b == self.file(path@),
    {
        self.find_file(path).is_some()
    }

    /// What the file at `path` begins with, if there is one that could be read.
    pub fn read(&self, path: &str) -> (bytes: Option<&Vec<u8>>)
        ensures
            match bytes {
                Some(bytes) => self.content(path@) == Some(bytes@),
                None => self.content(path@) is None,
            },
    {
        match self.find_file(path) {
            Some(file) => match &file.bytes {
                Some(bytes) => Some(bytes),
                None => None,
            },
            None => None,
        }
    }

    fn find_dir(&self, path: &str) -> (dir: Option<&DirSeen>)
        ensures
            match dir {
                Some(dir) => dir_at(self.dirs@, path@, 0) == Some(*dir),
                None => dir_at(self.dirs@, path@, 0) is None,
            },
    {
        let mut i: usize = 0;
        while i < self.dirs.len()
            invariant
                i <= self.dirs.len(),
                dir_at(self.dirs@, path@, 0) == dir_at(self.dirs@, path@, i as int),
            decreases self.dirs.len() - i,
        {
            if same_text(self.dirs[i].path.as_str(), path) {
                return Some(&self.dirs[i]);
            }
            i += 1;
        }
        None
    }

    /// Whether `path` leads to a directory.
    pub fn is_dir(&self, path: &str) -> (b: bool)
        ensures
            b == self.directory(path@),
    {
        self.find_dir(path).is_some()
    }

    /// The paths of what lies in the directory at `path`, none where it cannot be read.
    pub fn entries(&self, path: &str) -> (entries: Option<&Vec<String>>)
        ensures
            match entries {
                Some(entries) => texts(entries@) == self.listing(path@),
                None => self.listing(path@).len() == 0,
            },
    {
        match self.find_dir(path) {
            Some(dir) => Some(&dir.entries),
            None => None,
        }
    }
}

/// The first of the paths from the `i`th on that leads to a file.
pub open spec fn first_file(disk: Disk, paths: Seq<Seq<char>>, i: int) -> Option<Seq<char>>
    decreases paths.len() - i,
{
    if i >= paths.len() {
        None
    } else if disk.file(paths[i]) {
        Some(paths[i])
    } else {
        first_file(disk, paths, i + 1)
    }
}

/// The first of `paths` that leads to a file.
pub fn find_first_file(disk: &Disk, paths: &Vec<String>) -> (found: Option<String>)
    ensures
        text_in(found) == first_file(*disk, texts(paths@), 0),
{
    let mut i: usize = 0;
    while i < paths.len()
        invariant
            i <= paths.len(),
            first_file(*disk, texts(paths@), 0) == first_file(*disk, texts(paths@), i as int),
        decreases paths.len() - i,
    {
        assert(texts(paths@)[i as int] == paths@[i as int]@);
        if disk.is_file(paths[i].as_str()) {
            return Some(paths[i].clone());
        }
        i += 1;
    }
    None
}

/// The places where a program can be, going by a search path, in order.
pub open spec fn on_path(path: Seq<char>, program: Seq<char>) -> Seq<Seq<char>> {
    pieces(path, ':', 0).map_values(|dir: Seq<char>| joined(dir, program))
}

/// The places where a program can be, going by a search path, in order.
pub fn path_candidates(path: &str, program: &str) -> (places: Vec<String>)
    ensures
        texts(places@) == on_path(path@, program@),
{
    let dirs = split(path, ':');
    let ghost all = texts(dirs@);
    let mut places: Vec<String> = Vec::new();
    let mut i: usize = 0;
    while i < dirs.len()
        invariant
            i <= dirs.len(),
            all == texts(dirs@),
            places@.len() == i,
            forall|j: int| 0 <= j < i ==> #[trigger] places@[j]@ == joined(all[j], program@),
        decreases dirs.len() - i,
    {
        assert(all[i as int] == dirs@[i as int]@);
        places.push(join(dirs[i].as_str(), program));
        i += 1;
    }
    assert(texts(places@) =~= on_path(path@, program@));
    places
}

}
