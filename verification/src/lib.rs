//! The decision logic of a small host automation tool.
//!
//! Its main part identifies archive and container formats. A file is
//! classified by two ordered heuristics: first by the suffix of its name
//! ([`extension`]), and only when the suffix is unknown by a byte signature
//! at a fixed offset in the file's leading bytes ([`signature`]). The library
//! holds the rules, the two tables and the decision policy; touching the
//! filesystem is left to the caller, which feeds what it observed into
//! [`resolver::Resolution`]. What holds of every identification is stated and
//! proved in [`guarantees`].
//!
//! Beside it, [`apt`] judges what a finished package manager call reported.

pub mod apt;
pub mod error;
pub mod extension;
pub mod format;
pub mod guarantees;
pub mod path;
pub mod resolver;
pub mod signature;
pub mod text;
