//! The application's identity and the directories that back the named roots.

use vstd::prelude::*;
use vstd::string::*;
use crate::paths::{is_absolute, starts_at_root};
use crate::roots::RootDir;

verus! {

/// The identity of the application: its name and its author.
#[derive(Clone, Debug)]
pub struct GameInfos {
    name: String,
    author: String,
}

impl GameInfos {
    /// The application's name.
    pub closed spec fn spec_name(&self) -> Seq<char> {
        self.name@
    }

    /// The application's author.
    pub closed spec fn spec_author(&self) -> Seq<char> {
        self.author@
    }

    /// The identity of the application `name` by `author`.
    pub fn new(name: &str, author: &str) -> (r: GameInfos)
        ensures
            r.spec_name() == name@,
            r.spec_author() == author@,
    {
        GameInfos { name: String::from_str(name), author: String::from_str(author) }
    }

    /// The application's name.
    pub fn name(&self) -> (r: &String)
        ensures
            r@ == self.spec_name(),
    {
        &self.name
    }

    /// The application's author.
    pub fn author(&self) -> (r: &String)
        ensures
            r@ == self.spec_author(),
    {
        &self.author
    }
}

/// The directory behind each named root. Every one of them is an absolute
/// path, and none changes once the value is made.
#[derive(Debug)]
pub struct GameDirectories {
    current: String,
    user_config: String,
    user_data: String,
    engine_configuration: String,
    logs: String,
    saves: String,
}

impl GameDirectories {
    #[verifier::type_invariant]
    spec fn all_absolute(&self) -> bool {
        &&& is_absolute(self.current@)
        &&& is_absolute(self.user_config@)
        &&& is_absolute(self.user_data@)
        &&& is_absolute(self.engine_configuration@)
        &&& is_absolute(self.logs@)
        &&& is_absolute(self.saves@)
    }

    /// The directory behind `root`.
    pub closed spec fn path_of(&self, root: RootDir) -> Seq<char> {
        match root {
            RootDir::WorkingDirectory => self.current@,
            RootDir::UserConfigRoot => self.user_config@,
            RootDir::UserDataRoot => self.user_data@,
            RootDir::UserEngineConfigurationRoot => self.engine_configuration@,
            RootDir::UserLogRoot => self.logs@,
            RootDir::UserSaveRoot => self.saves@,
        }
    }

    /// Binds each root to its directory. Given back only where all six are
    /// absolute paths.
    pub fn new(
        current: String,
        user_config: String,
        user_data: String,
        engine_configuration: String,
        logs: String,
        saves: String,
    ) -> (r: Option<GameDirectories>)
        ensures
            r is Some <==> (is_absolute(current@) && is_absolute(user_config@) && is_absolute(
                user_data@,
            ) && is_absolute(engine_configuration@) && is_absolute(logs@) && is_absolute(saves@)),
            r matches Some(d) ==> {
                &&& d.path_of(RootDir::WorkingDirectory) == current@
                &&& d.path_of(RootDir::UserConfigRoot) == user_config@
                &&& d.path_of(RootDir::UserDataRoot) == user_data@
                &&& d.path_of(RootDir::UserEngineConfigurationRoot) == engine_configuration@
                &&& d.path_of(RootDir::UserLogRoot) == logs@
                &&& d.path_of(RootDir::UserSaveRoot) == saves@
            },
    {
        let all: bool = starts_at_root(current.as_str()) && starts_at_root(user_config.as_str())
            && starts_at_root(user_data.as_str()) && starts_at_root(engine_configuration.as_str())
            && starts_at_root(logs.as_str()) && starts_at_root(saves.as_str());
        if all {
            Some(
                GameDirectories {
                    current,
                    user_config,
                    user_data,
                    engine_configuration,
                    logs,
                    saves,
                },
            )
        } else {
            None
        }
    }

    /// The directory behind `root`.
    pub fn path(&self, root: RootDir) -> (r: &String)
        ensures
            r@ == self.path_of(root),
            is_absolute(r@),
    {
        proof {
            use_type_invariant(self);
        }
        match root {
            RootDir::UserConfigRoot => &self.user_config,
            RootDir::UserDataRoot => &self.user_data,
            RootDir::UserEngineConfigurationRoot => &self.engine_configuration,
            RootDir::UserLogRoot => &self.logs,
            RootDir::WorkingDirectory => &self.current,
            RootDir::UserSaveRoot => &self.saves,
        }
    }
}

} // verus!
