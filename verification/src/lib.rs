//! A filesystem adapter over named root directories, written without I/O of
//! its own: the library resolves paths, decides which host call an operation
//! needs next and turns the host's answers into results.

pub mod directories;
pub mod error;
pub mod filesystem;
pub mod host;
pub mod paths;
pub mod protocol;
pub mod roots;
