//! The filesystem over named roots.
//!
//! Each operation resolves its path under a root and says what the host is to
//! do. Where an operation first has to know what is at the path, it takes the
//! host's answer to that question as an argument: the snapshot that
//! `metadata` asks for, or the flag that `entry_exists` asks for.

use vstd::prelude::*;
use crate::directories::{GameDirectories, GameInfos};
use crate::error::{not_a_directory, not_a_directory_message, GameError, GameResult};
use crate::host::{
    found_directory, found_file, is_directory, HostCall, Metadata, OpenOptions, Request,
};
use crate::paths::{is_absolute, lemma_resolved_is_absolute, resolve, resolved};
use crate::roots::{PlatformType, RootDir, SystemType};

verus! {

/// The filesystem of one application. It holds the directory of each root and
/// never changes them.
#[derive(Debug)]
pub struct Filesystem {
    game_infos: GameInfos,
    game_directories: GameDirectories,
}

/// The options that open a file for reading only.
pub open spec fn reading() -> OpenOptions {
    OpenOptions { read: true, write: false, create: false, append: false, truncate: false }
}

/// The options that create a file, or empty the one that is there, and open
/// it for writing.
pub open spec fn creating() -> OpenOptions {
    OpenOptions { read: false, write: true, create: true, append: false, truncate: true }
}

/// The options that open a file for writing at its end, and create it where
/// it is missing.
pub open spec fn appending() -> OpenOptions {
    OpenOptions { read: false, write: true, create: true, append: true, truncate: false }
}

impl Filesystem {
    /// The application that the filesystem belongs to.
    pub closed spec fn infos(&self) -> GameInfos {
        self.game_infos
    }

    /// The directories that the filesystem was made with.
    pub closed spec fn directories(&self) -> GameDirectories {
        self.game_directories
    }

    /// The directory behind `root`.
    pub open spec fn root_of(&self, root: RootDir) -> Seq<char> {
        self.directories().path_of(root)
    }

    /// The absolute path that `path` under `root` stands for. The empty path
    /// is the root's directory itself.
    pub open spec fn absolute(&self, root: RootDir, path: Seq<char>) -> Seq<char> {
        resolved(self.root_of(root), path)
    }

    /// The filesystem of the application `game_infos` over the directories
    /// `game_directories`.
    pub fn new(game_infos: GameInfos, game_directories: GameDirectories) -> (r: Filesystem)
        ensures
            r.infos() == game_infos,
            r.directories() == game_directories,
    {
        Filesystem { game_infos, game_directories }
    }

    /// The roots whose directories have to be created before the filesystem
    /// is used: those of the engine's configuration, of the logs and of the
    /// saves, in this order.
    pub fn start_up(&self) -> (r: Vec<RootDir>)
        ensures
            r@ == seq![
                RootDir::UserEngineConfigurationRoot,
                RootDir::UserLogRoot,
                RootDir::UserSaveRoot,
            ],
    {
        let mut roots: Vec<RootDir> = Vec::new();
        roots.push(RootDir::UserEngineConfigurationRoot);
        roots.push(RootDir::UserLogRoot);
        roots.push(RootDir::UserSaveRoot);
        proof {
            assert(roots@ =~= seq![
                RootDir::UserEngineConfigurationRoot,
                RootDir::UserLogRoot,
                RootDir::UserSaveRoot,
            ]);
        }
        roots
    }

    /// The kind of system this is.
    pub fn system_type(&self) -> (r: SystemType)
        ensures
            r == SystemType::Filesystem,
    {
        SystemType::Filesystem
    }

    /// The platform whose paths this filesystem writes.
    pub fn platform(&self) -> (r: PlatformType)
        ensures
            r == PlatformType::Linux,
    {
        PlatformType::Linux
    }

    /// The application that the filesystem belongs to.
    pub fn application_info(&self) -> (r: &GameInfos)
        ensures
            *r == self.infos(),
    {
        &self.game_infos
    }

    /// The directory behind `root`: always an absolute path.
    pub fn get_root_directory(&self, root_dir: RootDir) -> (r: &String)
        ensures
            r@ == self.root_of(root_dir),
            is_absolute(r@),
    {
        self.game_directories.path(root_dir)
    }

    /// The absolute path of `path` under `root_dir`. It is absolute whatever
    /// `path` is, and for the empty path it is the root's directory.
    pub fn get_absolute_path(&self, root_dir: RootDir, path: &str) -> (r: String)
        ensures
            r@ == self.absolute(root_dir, path@),
            is_absolute(r@),
            path@.len() == 0 ==> r@ == self.root_of(root_dir),
    {
        let root = self.get_root_directory(root_dir);
        proof {
            lemma_resolved_is_absolute(root@, path@);
        }
        resolve(root.as_str(), path)
    }

    /// The empty path under a root is the root's directory, for every root:
    /// `mkdir` and `entry_exists` with the empty path ask about one and the
    /// same directory.
    pub proof fn lemma_empty_path_is_the_root(&self, root_dir: RootDir)
        ensures
            self.absolute(root_dir, Seq::<char>::empty()) == self.root_of(root_dir),
    {
    }

    /// Opens the file at `path` under `root_dir` with the given options.
    pub fn open_with_options(
        &self,
        root_dir: RootDir,
        path: &str,
        open_options: &OpenOptions,
    ) -> (r: Request)
        ensures
            r.asks(HostCall::Open(*open_options), self.absolute(root_dir, path@)),
    {
        let absolute_path = self.get_absolute_path(root_dir, path);
        Request { call: HostCall::Open(*open_options), path: absolute_path }
    }

    /// Opens the file at `path` under `root_dir` for reading.
    pub fn open(&self, root_dir: RootDir, path: &str) -> (r: Request)
        ensures
            r.asks(HostCall::Open(reading()), self.absolute(root_dir, path@)),
    {
        let options = OpenOptions::new().read(true);
        self.open_with_options(root_dir, path, &options)
    }

    /// Creates the file at `path` under `root_dir`, or empties the one that
    /// is there, and opens it for writing.
    pub fn create(&self, root_dir: RootDir, path: &str) -> (r: Request)
        ensures
            r.asks(HostCall::Open(creating()), self.absolute(root_dir, path@)),
    {
        let options = OpenOptions::new().write(true).create(true).truncate(true);
        self.open_with_options(root_dir, path, &options)
    }

    /// Opens the file at `path` under `root_dir` for writing at its end, and
    /// creates it where it is missing.
    pub fn append(&self, root_dir: RootDir, path: &str) -> (r: Request)
        ensures
            r.asks(HostCall::Open(appending()), self.absolute(root_dir, path@)),
    {
        let options = OpenOptions::new().write(true).create(true).append(true);
        self.open_with_options(root_dir, path, &options)
    }

    /// Creates the directory at `path` under `root_dir` with every missing
    /// ancestor.
    pub fn mkdir(&self, root_dir: RootDir, path: &str) -> (r: Request)
        ensures
            r.asks(HostCall::CreateDirAll, self.absolute(root_dir, path@)),
    {
        Request { call: HostCall::CreateDirAll, path: self.get_absolute_path(root_dir, path) }
    }

    /// Removes the one entry at `path` under `root_dir`. `found` is what the
    /// host's answer to `metadata` for the same path shows, if anything:
    /// where it shows a directory the directory is removed, which the host
    /// does only for an empty one; in every other case the entry is removed
    /// as a file.
    pub fn rm(&self, root_dir: RootDir, path: &str, found: Option<Metadata>) -> (r: Request)
        ensures
            found_directory(found) ==> r.asks(
                HostCall::RemoveDir,
                self.absolute(root_dir, path@),
            ),
            !found_directory(found) ==> r.asks(
                HostCall::RemoveFile,
                self.absolute(root_dir, path@),
            ),
    {
        let absolute_path = self.get_absolute_path(root_dir, path);
        if is_directory(found) {
            Request { call: HostCall::RemoveDir, path: absolute_path }
        } else {
            Request { call: HostCall::RemoveFile, path: absolute_path }
        }
    }

    /// Removes the directory at `path` under `root_dir` with all that is in
    /// it. `present` is whether the host's answer to `entry_exists` for the
    /// same path says that an entry is there:
    /// where nothing is there, nothing is asked of the host and the operation
    /// has succeeded.
    pub fn rmrf(&self, root_dir: RootDir, path: &str, present: bool) -> (r: Option<Request>)
        ensures
            present ==> (r matches Some(q) && q.asks(
                HostCall::RemoveDirAll,
                self.absolute(root_dir, path@),
            )),
            !present ==> r is None,
    {
        if present {
            Some(
                Request {
                    call: HostCall::RemoveDirAll,
                    path: self.get_absolute_path(root_dir, path),
                },
            )
        } else {
            None
        }
    }

    /// Asks whether `path` under `root_dir` leads to an entry.
    pub fn entry_exists(&self, root_dir: RootDir, path: &str) -> (r: Request)
        ensures
            r.asks(HostCall::Exists, self.absolute(root_dir, path@)),
    {
        Request { call: HostCall::Exists, path: self.get_absolute_path(root_dir, path) }
    }

    /// Asks for a snapshot of the entry at `path` under `root_dir`.
    pub fn metadata(&self, root_dir: RootDir, path: &str) -> (r: Request)
        ensures
            r.asks(HostCall::Metadata, self.absolute(root_dir, path@)),
    {
        Request { call: HostCall::Metadata, path: self.get_absolute_path(root_dir, path) }
    }

    /// Lists the directory at `path` under `root_dir`. `found` is what the
    /// host's answer to `metadata` for the same path shows, if anything.
    /// Where it shows a directory, the host is asked for the listing. Where
    /// it shows anything else, a file above all, or nothing, the operation
    /// fails with a `FileSystemError` that names the path, and the host is
    /// not asked.
    pub fn read_dir(&self, root_dir: RootDir, path: &str, found: Option<Metadata>) -> (r:
        GameResult<Request>)
        ensures
            found_directory(found) ==> (r matches Ok(q) && q.asks(
                HostCall::ReadDir,
                self.absolute(root_dir, path@),
            )),
            !found_directory(found) ==> (r matches Err(GameError::FileSystemError(m)) && m@
                == not_a_directory_message(self.absolute(root_dir, path@))),
            found_file(found) ==> (r matches Err(GameError::FileSystemError(_))),
    {
        let absolute_path = self.get_absolute_path(root_dir, path);
        if is_directory(found) {
            Ok(Request { call: HostCall::ReadDir, path: absolute_path })
        } else {
            Err(not_a_directory(absolute_path.as_str()))
        }
    }
}

} // verus!
