//! The failures that identification can end in.

use vstd::prelude::*;

verus! {

/// The error type of the operating system's input and output calls. Its inside
/// is not looked at: a value is only carried from the read that failed to the
/// caller.
#[verifier::external_type_specification]
#[verifier::external_body]
pub struct ExIoError(std::io::Error);

/// Why a path could not be resolved or a file could not be identified.
#[derive(Debug)]
pub enum ModuleError {
    /// The path began with a home directory shorthand and no home directory
    /// is known for it.
    HomeDirectoryUnresolved,
    /// The path could not be made canonical: nothing exists there.
    PathNotFound,
    /// Something exists at the path, but it is no plain file.
    NotARegularFile,
    /// The file name has no suffix, or one that no rule knows.
    UnknownExtension,
    /// No signature matched the leading bytes of the file.
    UnknownSignature,
    /// Opening or reading the file failed; the cause is kept.
    IOFailure(std::io::Error),
}

impl ModuleError {
    /// The fixed text of an error; a failed read has none, it reads as its
    /// cause does.
    pub open spec fn spec_fixed_message(self) -> Option<Seq<char>> {
        match self {
            ModuleError::HomeDirectoryUnresolved => Some("home directory could not be resolved"@),
            ModuleError::PathNotFound => Some("path not found"@),
            ModuleError::NotARegularFile => Some("not a regular file"@),
            ModuleError::UnknownExtension => Some("unknown archive file extension"@),
            ModuleError::UnknownSignature => Some("unable to determine archive type"@),
            ModuleError::IOFailure(_) => None,
        }
    }

    /// The underlying error, which only an input or output failure has.
    pub open spec fn spec_source(self) -> Option<std::io::Error> {
        match self {
            ModuleError::IOFailure(cause) => Some(cause),
            _ => None,
        }
    }

    /// Returns the underlying error of an input or output failure, and `None`
    /// for every other error.
    pub fn source(&self) -> (cause: Option<&std::io::Error>)
        ensures
            match cause {
                Some(e) => self.spec_source() == Some(*e),
                None => self.spec_source() is None,
            },
    {
        match self {
            ModuleError::IOFailure(cause) => Some(cause),
            _ => None,
        }
    }

    /// Returns the error as text for a reader. An input or output failure
    /// reads as its cause does; every other error has a fixed text.
    pub fn message(&self) -> (text: String)
        ensures
            match *self {
                ModuleError::IOFailure(cause) => vstd::string::to_string_from_display_ensures::<
                    std::io::Error,
                >(&cause, text),
                _ => Some(text@) == self.spec_fixed_message(),
            },
    {
        match self {
            ModuleError::HomeDirectoryUnresolved => "home directory could not be resolved".to_owned(),
            ModuleError::PathNotFound => "path not found".to_owned(),
            ModuleError::NotARegularFile => "not a regular file".to_owned(),
            ModuleError::UnknownExtension => "unknown archive file extension".to_owned(),
            ModuleError::UnknownSignature => "unable to determine archive type".to_owned(),
            ModuleError::IOFailure(cause) => cause.to_string(),
        }
    }
}

impl From<std::io::Error> for ModuleError {
    /// Wraps the cause of a failed read.
    fn from(cause: std::io::Error) -> (error: ModuleError) {
        ModuleError::IOFailure(cause)
    }
}

impl vstd::std_specs::convert::FromSpecImpl<std::io::Error> for ModuleError {
    open spec fn obeys_from_spec() -> bool {
        true
    }

    open spec fn from_spec(cause: std::io::Error) -> ModuleError {
        ModuleError::IOFailure(cause)
    }
}

} // verus!
