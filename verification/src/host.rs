//! What the library asks of the host's filesystem, and what the host answers.
//!
//! The library performs no I/O. It hands out `Request`s that the caller
//! carries out on the host; the answers come back as plain values.

use vstd::prelude::*;

verus! {

/// The intent of an open call: pure configuration.
#[derive(Clone, Copy, Debug, PartialEq, Eq, Structural)]
pub struct OpenOptions {
    pub read: bool,
    pub write: bool,
    pub create: bool,
    pub append: bool,
    pub truncate: bool,
}

impl OpenOptions {
    /// Options with every flag off.
    pub fn new() -> (r: OpenOptions)
        ensures
            r == (OpenOptions {
                read: false,
                write: false,
                create: false,
                append: false,
                truncate: false,
            }),
    {
        OpenOptions { read: false, write: false, create: false, append: false, truncate: false }
    }

    /// Sets whether the file is opened for reading.
    pub fn read(self, read: bool) -> (r: OpenOptions)
        ensures
            r == (OpenOptions { read, ..self }),
    {
        OpenOptions { read, ..self }
    }

    /// Sets whether the file is opened for writing.
    pub fn write(self, write: bool) -> (r: OpenOptions)
        ensures
            r == (OpenOptions { write, ..self }),
    {
        OpenOptions { write, ..self }
    }

    /// Sets whether a missing file is created.
    pub fn create(self, create: bool) -> (r: OpenOptions)
        ensures
            r == (OpenOptions { create, ..self }),
    {
        OpenOptions { create, ..self }
    }

    /// Sets whether writes go to the end of the file.
    pub fn append(self, append: bool) -> (r: OpenOptions)
        ensures
            r == (OpenOptions { append, ..self }),
    {
        OpenOptions { append, ..self }
    }

    /// Sets whether an existing file is emptied on opening.
    pub fn truncate(self, truncate: bool) -> (r: OpenOptions)
        ensures
            r == (OpenOptions { truncate, ..self }),
    {
        OpenOptions { truncate, ..self }
    }
}

/// The kind of a filesystem entry, as the host reports it.
#[derive(Clone, Copy, Debug, PartialEq, Eq, Structural)]
pub enum EntryKind {
    Directory,
    File,
    Other,
}

/// A snapshot of an entry, taken when the host was asked. It says nothing of
/// the entry at any later moment.
#[derive(Clone, Copy, Debug, PartialEq, Eq, Structural)]
pub struct Metadata {
    kind: EntryKind,
    length: u64,
    read_only: bool,
}

impl Metadata {
    /// The kind of the entry.
    pub closed spec fn kind(&self) -> EntryKind {
        self.kind
    }

    /// The size of the entry in bytes.
    pub closed spec fn length(&self) -> u64 {
        self.length
    }

    /// Whether the entry may not be written.
    pub closed spec fn read_only(&self) -> bool {
        self.read_only
    }

    /// A snapshot of an entry of the given kind, size and permission.
    pub fn new(kind: EntryKind, length: u64, read_only: bool) -> (r: Metadata)
        ensures
            r.kind() == kind,
            r.length() == length,
            r.read_only() == read_only,
    {
        Metadata { kind, length, read_only }
    }

    /// Whether the entry is a directory.
    pub fn is_dir(&self) -> (r: bool)
        ensures
            r == (self.kind() == EntryKind::Directory),
    {
        match self.kind {
            EntryKind::Directory => true,
            _ => false,
        }
    }

    /// Whether the entry is a regular file.
    pub fn is_file(&self) -> (r: bool)
        ensures
            r == (self.kind() == EntryKind::File),
    {
        match self.kind {
            EntryKind::File => true,
            _ => false,
        }
    }

    /// The size of the entry in bytes.
    pub fn len(&self) -> (r: u64)
        ensures
            r == self.length(),
    {
        self.length
    }

    /// Whether the entry may not be written.
    pub fn is_read_only(&self) -> (r: bool)
        ensures
            r == self.read_only(),
    {
        self.read_only
    }
}

/// A failure that the host reported: its error code, where it gave one, and
/// its own description.
#[derive(Clone, Debug)]
pub struct HostFailure {
    pub code: Option<i32>,
    pub description: String,
}

/// The calls that the host's filesystem is asked to make.
#[derive(Clone, Copy, Debug, PartialEq, Eq, Structural)]
pub enum HostCall {
    /// Open a file with the given options.
    Open(OpenOptions),
    /// Create a directory and every missing ancestor.
    CreateDirAll,
    /// Remove an empty directory.
    RemoveDir,
    /// Remove a single file.
    RemoveFile,
    /// Remove a directory and everything under it.
    RemoveDirAll,
    /// Tell whether the path leads to an entry.
    Exists,
    /// Take a snapshot of the entry.
    Metadata,
    /// List the entries of a directory.
    ReadDir,
}

/// One call for the host to make, on an absolute path.
#[derive(Clone, Debug)]
pub struct Request {
    pub call: HostCall,
    pub path: String,
}

impl Request {
    /// The request is for `call` on `path`.
    pub open spec fn asks(&self, call: HostCall, path: Seq<char>) -> bool {
        self.call == call && self.path@ == path
    }
}

/// Whether what the host found at a path is a directory. Where it found
/// nothing, or could not look, there is none.
pub open spec fn found_directory(found: Option<Metadata>) -> bool {
    found matches Some(m) && m.kind() == EntryKind::Directory
}

/// Whether what the host found at a path is a regular file.
pub open spec fn found_file(found: Option<Metadata>) -> bool {
    found matches Some(m) && m.kind() == EntryKind::File
}

/// Tells whether what the host found at a path is a directory.
pub fn is_directory(found: Option<Metadata>) -> (r: bool)
    ensures
        r == found_directory(found),
{
    match found {
        Some(m) => m.is_dir(),
        None => false,
    }
}

} // verus!
