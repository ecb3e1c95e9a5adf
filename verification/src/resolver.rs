//! The decision policy: the file name first, the content only when the name
//! says nothing.
//!
//! Identification needs the filesystem twice, to probe the path and perhaps
//! to read the file's leading bytes. The policy itself touches neither: it is
//! a state machine that says what it needs next and takes what was found as
//! an event. The two heuristics are strictly ordered alternatives; they are
//! never weighed against each other.

use crate::error::ModuleError;
use crate::extension::spec_match_extension;
use crate::format::ArchiveType;
use crate::path::{expand_user, has_home_shorthand, resolve_path, spec_resolve_path, PathProbe};
use crate::signature::{archive_magic, magic_prefix_len, spec_archive_magic};
use vstd::prelude::*;

verus! {

/// How far the identification of one file has come.
#[derive(Debug)]
pub enum Resolution {
    /// The path is expanded and has to be probed: made canonical and checked
    /// to lead to a plain file.
    Start { path: String },
    /// The name of the file at `path` said nothing; its first `prefix_len`
    /// bytes have to be read, or as many as it has.
    SignatureAttempted { path: String, prefix_len: usize },
    /// Terminal: the format is known.
    Resolved(ArchiveType),
    /// Terminal: the file cannot be identified.
    Failed(ModuleError),
}

/// What the caller found when it did what a state asked for.
#[derive(Debug)]
pub enum Event {
    /// The path was probed.
    Probed(PathProbe),
    /// The leading bytes were read, or opening or reading the file failed.
    PrefixRead(Result<Vec<u8>, std::io::Error>),
}

impl Resolution {
    /// Whether nothing more is asked of the caller.
    pub open spec fn spec_is_terminal(self) -> bool {
        self is Resolved || self is Failed
    }

    /// The first state, from the outcome of expanding the path as typed: a
    /// failed expansion is terminal.
    pub open spec fn spec_begin(expanded: Result<String, ModuleError>) -> Resolution {
        match expanded {
            Ok(path) => Resolution::Start { path },
            Err(error) => Resolution::Failed(error),
        }
    }

    /// The transition function.
    ///
    /// A probe moves `Start` on: a path that does not lead to a plain file
    /// fails at once; a known suffix resolves at once, and the content is
    /// never asked for; an unknown suffix asks for the leading bytes. Those
    /// bytes move `SignatureAttempted` on, to the format of the first
    /// matching signature or to `UnknownSignature`; a failed read is kept as
    /// it is. An event that the state does not wait for changes nothing.
    pub open spec fn spec_step(self, event: Event) -> Resolution {
        match (self, event) {
            (Resolution::Start { .. }, Event::Probed(probe)) => match spec_resolve_path(probe) {
                Err(error) => Resolution::Failed(error),
                Ok(canonical) => match spec_match_extension(canonical@) {
                    Some(format) => Resolution::Resolved(format),
                    None => Resolution::SignatureAttempted { path: canonical, prefix_len: 262 },
                },
            },
            (Resolution::SignatureAttempted { .. }, Event::PrefixRead(Ok(bytes))) => {
                match spec_archive_magic(bytes@) {
                    Ok(format) => Resolution::Resolved(format),
                    Err(error) => Resolution::Failed(error),
                }
            },
            (Resolution::SignatureAttempted { .. }, Event::PrefixRead(Err(cause))) => {
                Resolution::Failed(ModuleError::IOFailure(cause))
            },
            (state, _) => state,
        }
    }

    /// The result of a terminal state.
    pub open spec fn spec_outcome(self) -> Option<Result<ArchiveType, ModuleError>> {
        match self {
            Resolution::Resolved(format) => Some(Ok(format)),
            Resolution::Failed(error) => Some(Err(error)),
            _ => None,
        }
    }

    /// Builds the first state from the outcome of expanding the path.
    pub fn begin(expanded: Result<String, ModuleError>) -> (state: Resolution)
        ensures
            state == Resolution::spec_begin(expanded),
    {
        match expanded {
            Ok(path) => Resolution::Start { path },
            Err(error) => Resolution::Failed(error),
        }
    }

    /// Starts the identification of `filename`, a path as typed: expands a
    /// leading home directory shorthand and asks for the path to be probed.
    ///
    /// A path without the shorthand always starts, unchanged. With it, the
    /// identification either starts or has failed with
    /// `HomeDirectoryUnresolved`.
    pub fn start(filename: &str) -> (state: Resolution)
        ensures
            !has_home_shorthand(filename@) ==> state is Start && state->Start_path@ == filename@,
            state is Start || state == Resolution::Failed(ModuleError::HomeDirectoryUnresolved),
    {
        Resolution::begin(expand_user(filename))
    }

    /// Tells whether the identification has ended.
    pub fn is_terminal(&self) -> (ended: bool)
        ensures
            ended == self.spec_is_terminal(),
    {
        match self {
            Resolution::Resolved(_) => true,
            Resolution::Failed(_) => true,
            _ => false,
        }
    }

    /// Takes what the caller found and moves to the next state.
    pub fn step(self, event: Event) -> (next: Resolution)
        ensures
            next == self.spec_step(event),
    {
        match (self, event) {
            (Resolution::Start { .. }, Event::Probed(probe)) => match resolve_path(probe) {
                Err(error) => Resolution::Failed(error),
                Ok(canonical) => match ArchiveType::match_extension(canonical.as_str()) {
                    Ok(format) => Resolution::Resolved(format),
                    Err(_) => Resolution::SignatureAttempted {
                        path: canonical,
                        prefix_len: magic_prefix_len(),
                    },
                },
            },
            (Resolution::SignatureAttempted { .. }, Event::PrefixRead(Ok(bytes))) => {
                match archive_magic(bytes.as_slice()) {
                    Ok(format) => Resolution::Resolved(format),
                    Err(error) => Resolution::Failed(error),
                }
            },
            (Resolution::SignatureAttempted { .. }, Event::PrefixRead(Err(cause))) => {
                Resolution::Failed(ModuleError::from(cause))
            },
            (state, _) => state,
        }
    }

    /// Returns the result of a terminal state, and `None` while the
    /// identification is still under way.
    pub fn outcome(self) -> (result: Option<Result<ArchiveType, ModuleError>>)
        ensures
            result == self.spec_outcome(),
    {
        match self {
            Resolution::Resolved(format) => Some(Ok(format)),
            Resolution::Failed(error) => Some(Err(error)),
            _ => None,
        }
    }
}

} // verus!
