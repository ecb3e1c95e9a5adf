//! From the path as it was typed to the canonical path of a plain file.
//!
//! Expanding a leading home directory shorthand is done here. Making the
//! path canonical and looking at what is there takes the filesystem: the
//! caller does that and reports it as a [`PathProbe`].

use crate::error::ModuleError;
use vstd::prelude::*;

verus! {

/// Whether `path` opens with the home directory shorthand `~`.
pub open spec fn has_home_shorthand(path: Seq<char>) -> bool {
    path.len() > 0 && path[0] == '~'
}

/// Expands a leading `~` or `~user` by calling `expanduser::expanduser`, and
/// hands the path back as text.
///
/// What is claimed of it, and not proved: a path that does not open with `~`
/// comes back as it went in. For a path that opens with `~` the outcome hangs
/// on the environment and the user database, and nothing is claimed.
#[verifier::external_body]
fn expand_shorthand(path: &str) -> (expanded: Result<String, std::io::Error>)
    ensures
        !has_home_shorthand(path@) ==> expanded is Ok && expanded->Ok_0@ == path@,
{
    match expanduser::expanduser(path) {
        Ok(expanded) => Ok(expanded.to_string_lossy().into_owned()),
        Err(cause) => Err(cause),
    }
}

/// What an attempt to expand the shorthand comes to: the expanded path, or
/// `HomeDirectoryUnresolved` whatever the cause.
pub open spec fn spec_home_expansion(outcome: Result<String, std::io::Error>) -> Result<
    String,
    ModuleError,
> {
    match outcome {
        Ok(expanded) => Ok(expanded),
        Err(_) => Err(ModuleError::HomeDirectoryUnresolved),
    }
}

/// Turns the outcome of a shorthand expansion into the library's terms.
pub fn home_expansion(outcome: Result<String, std::io::Error>) -> (expanded: Result<
    String,
    ModuleError,
>)
    ensures
        expanded == spec_home_expansion(outcome),
{
    match outcome {
        Ok(expanded) => Ok(expanded),
        Err(_) => Err(ModuleError::HomeDirectoryUnresolved),
    }
}

/// Expands a leading home directory shorthand in `filename`.
///
/// A path without the shorthand is returned unchanged. With it, the result
/// is the path below the home directory that the system knows, or
/// `HomeDirectoryUnresolved` when it knows none; no other error comes out.
pub fn expand_user(filename: &str) -> (expanded: Result<String, ModuleError>)
    ensures
        !has_home_shorthand(filename@) ==> expanded is Ok && expanded->Ok_0@ == filename@,
        expanded is Err ==> expanded->Err_0 == ModuleError::HomeDirectoryUnresolved,
{
    home_expansion(expand_shorthand(filename))
}

/// What the filesystem showed of an expanded path.
#[derive(Debug)]
pub enum PathProbe {
    /// The path could not be made canonical: nothing exists there.
    Missing,
    /// The path leads to a directory, a device, or anything else that is no
    /// plain file.
    NotRegular,
    /// The path leads to a plain file, whose canonical path this is.
    Regular(String),
}

/// The canonical path that a probe stands for, or the reason why it stands
/// for none.
pub open spec fn spec_resolve_path(probe: PathProbe) -> Result<String, ModuleError> {
    match probe {
        PathProbe::Missing => Err(ModuleError::PathNotFound),
        PathProbe::NotRegular => Err(ModuleError::NotARegularFile),
        PathProbe::Regular(canonical) => Ok(canonical),
    }
}

/// Judges a probe: a missing target is `PathNotFound`, one that is no plain
/// file is `NotARegularFile`, and a plain file gives its canonical path.
pub fn resolve_path(probe: PathProbe) -> (resolved: Result<String, ModuleError>)
    ensures
        resolved == spec_resolve_path(probe),
{
    match probe {
        PathProbe::Missing => Err(ModuleError::PathNotFound),
        PathProbe::NotRegular => Err(ModuleError::NotARegularFile),
        PathProbe::Regular(canonical) => Ok(canonical),
    }
}

} // verus!
