//! Joining a root directory and a path under it, over strings.
//!
//! The separator is `/`. A path that starts with it is absolute and replaces
//! whatever it is pushed onto, as on any Unix host.

use vstd::prelude::*;
use vstd::string::*;

verus! {

/// The path separator.
pub const SEPARATOR: char = '/';

/// A path is absolute when it starts at the filesystem's root.
pub open spec fn is_absolute(path: Seq<char>) -> bool {
    path.len() > 0 && path[0] == SEPARATOR
}

/// Whether a separator has to be written between `base` and what follows it.
pub open spec fn needs_separator(base: Seq<char>) -> bool {
    base.len() > 0 && base[base.len() - 1] != SEPARATOR
}

/// `base` with `path` pushed onto it: an absolute `path` replaces `base`, any
/// other is written after it, behind a separator where `base` does not end in
/// one already.
pub open spec fn pushed(base: Seq<char>, path: Seq<char>) -> Seq<char> {
    if is_absolute(path) {
        path
    } else if needs_separator(base) {
        base + seq![SEPARATOR] + path
    } else {
        base + path
    }
}

/// The target of `path` under the directory `base`. The empty path stands for
/// the directory itself.
pub open spec fn resolved(base: Seq<char>, path: Seq<char>) -> Seq<char> {
    if path.len() == 0 {
        base
    } else {
        pushed(base, path)
    }
}

/// Tells whether `path` starts with the separator.
pub fn starts_at_root(path: &str) -> (r: bool)
    ensures
        r == is_absolute(path@),
{
    if path.is_empty() {
        false
    } else {
        path.get_char(0) == SEPARATOR
    }
}

/// Tells whether something pushed onto `base` has to be set off by a separator.
pub fn wants_separator(base: &str) -> (r: bool)
    ensures
        r == needs_separator(base@),
{
    let n: usize = base.unicode_len();
    if n == 0 {
        false
    } else {
        base.get_char(n - 1) != SEPARATOR
    }
}

/// Pushes `path` onto `base`.
pub fn push(base: &str, path: &str) -> (r: String)
    ensures
        r@ == pushed(base@, path@),
{
    if starts_at_root(path) {
        String::from_str(path)
    } else {
        let mut joined = String::from_str(base);
        if wants_separator(base) {
            proof {
                reveal_strlit("/");
                assert("/"@ =~= seq![SEPARATOR]);
            }
            joined.append("/");
        }
        joined.append(path);
        joined
    }
}

/// Resolves `path` under the directory `base`.
pub fn resolve(base: &str, path: &str) -> (r: String)
    ensures
        r@ == resolved(base@, path@),
{
    if path.is_empty() {
        String::from_str(base)
    } else {
        push(base, path)
    }
}

/// Resolving under an absolute directory gives an absolute path, whatever the
/// path is.
pub proof fn lemma_resolved_is_absolute(base: Seq<char>, path: Seq<char>)
    requires
        is_absolute(base),
    ensures
        is_absolute(resolved(base, path)),
{
}

} // verus!
