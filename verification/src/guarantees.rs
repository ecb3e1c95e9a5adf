//! What holds of every identification, stated over the whole run: from the
//! expanded path, through the probe, to the bytes that were read.

use crate::error::ModuleError;
use crate::extension::{extension_table, lemma_table_suffix_matches, spec_match_extension};
use crate::format::ArchiveType;
use crate::path::PathProbe;
use crate::resolver::{Event, Resolution};
use crate::signature::{
    lemma_magic_reads_prefix_only, lemma_short_buffer_unknown, lemma_signature_decides, magic,
};
use vstd::prelude::*;

verus! {

/// The state that an identification ends in when expanding the path came to
/// `expanded`, the probe showed `probe`, and reading the leading bytes, where
/// it is asked for, comes to `read`.
pub open spec fn run(
    expanded: Result<String, ModuleError>,
    probe: PathProbe,
    read: Result<Vec<u8>, std::io::Error>,
) -> Resolution {
    Resolution::spec_begin(expanded).spec_step(Event::Probed(probe)).spec_step(
        Event::PrefixRead(read),
    )
}

/// Every identification ends: after the probe and at most one read the state
/// is terminal.
pub proof fn lemma_run_ends(
    expanded: Result<String, ModuleError>,
    probe: PathProbe,
    read: Result<Vec<u8>, std::io::Error>,
)
    ensures
        run(expanded, probe, read).spec_is_terminal(),
{
}

/// A terminal state stays as it is, whatever event follows.
pub proof fn lemma_terminal_states_absorb(state: Resolution, event: Event)
    requires
        state.spec_is_terminal(),
    ensures
        state.spec_step(event) == state,
{
}

/// A failure to resolve the path is final: the error of a failed expansion
/// comes out unchanged, and neither the name nor the content is looked at.
pub proof fn lemma_expansion_failure_is_final(
    error: ModuleError,
    probe: PathProbe,
    read: Result<Vec<u8>, std::io::Error>,
)
    ensures
        run(Err(error), probe, read) == Resolution::Failed(error),
{
}

/// A path at which nothing exists is `PathNotFound`, whatever its name ends
/// in.
pub proof fn lemma_missing_path(path: String, read: Result<Vec<u8>, std::io::Error>)
    ensures
        run(Ok(path), PathProbe::Missing, read) == Resolution::Failed(ModuleError::PathNotFound),
{
}

/// A path to a directory, or to anything else that is no plain file, is
/// `NotARegularFile`, whatever its name ends in.
pub proof fn lemma_not_a_regular_file(path: String, read: Result<Vec<u8>, std::io::Error>)
    ensures
        run(Ok(path), PathProbe::NotRegular, read) == Resolution::Failed(
            ModuleError::NotARegularFile,
        ),
{
}

/// The name is trusted before the content. A plain file whose name is a stem
/// without a `.`, a `.` and the suffix of a rule of the extension table
/// resolves to that rule's format at the probe, and stays so whatever its
/// bytes are and even when they cannot be read.
pub proof fn lemma_extension_takes_precedence(
    path: String,
    canonical: String,
    dir: Seq<char>,
    stem: Seq<char>,
    i: int,
    read: Result<Vec<u8>, std::io::Error>,
)
    requires
        dir.len() == 0 || dir.last() == '/',
        forall|k: int| 0 <= k < stem.len() ==> stem[k] != '.' && stem[k] != '/',
        0 <= i < extension_table().len(),
        canonical@ == dir + stem + seq!['.'] + extension_table()[i].0,
    ensures
        (Resolution::Start { path }).spec_step(Event::Probed(PathProbe::Regular(canonical)))
            == Resolution::Resolved(extension_table()[i].1),
        run(Ok(path), PathProbe::Regular(canonical), read) == Resolution::Resolved(
            extension_table()[i].1,
        ),
{
    lemma_table_suffix_matches(dir, stem, i);
}

/// A plain file whose name says nothing is asked for its first 262 bytes.
pub proof fn lemma_unknown_extension_asks_for_bytes(path: String, canonical: String)
    requires
        spec_match_extension(canonical@) is None,
    ensures
        (Resolution::Start { path }).spec_step(Event::Probed(PathProbe::Regular(canonical)))
            == (Resolution::SignatureAttempted { path: canonical, prefix_len: 262 }),
{
}

/// The content decides where the name says nothing. A plain file with an
/// unknown or absent suffix whose bytes match a signature of the table, and
/// none that stands before it, resolves to that signature's format.
pub proof fn lemma_signature_fallback(path: String, canonical: String, bytes: Vec<u8>, i: int)
    requires
        spec_match_extension(canonical@) is None,
        0 <= i < magic().len(),
        magic()[i].matches(bytes@),
        forall|j: int| 0 <= j < i ==> !(#[trigger] magic()[j]).matches(bytes@),
    ensures
        run(Ok(path), PathProbe::Regular(canonical), Ok(bytes)) == Resolution::Resolved(
            magic()[i].format,
        ),
{
    lemma_signature_decides(bytes@, i);
}

/// An empty file with an unknown or absent suffix is `UnknownSignature`, and
/// so is one of a single byte.
pub proof fn lemma_empty_file_unknown(path: String, canonical: String, bytes: Vec<u8>)
    requires
        spec_match_extension(canonical@) is None,
        bytes@.len() < 2,
    ensures
        run(Ok(path), PathProbe::Regular(canonical), Ok(bytes)) == Resolution::Failed(
            ModuleError::UnknownSignature,
        ),
{
    lemma_short_buffer_unknown(bytes@);
}

/// A read that fails is reported with its cause; it is not taken for a file
/// without a signature.
pub proof fn lemma_read_failure_is_kept(path: String, canonical: String, cause: std::io::Error)
    requires
        spec_match_extension(canonical@) is None,
    ensures
        run(Ok(path), PathProbe::Regular(canonical), Err(cause)) == Resolution::Failed(
            ModuleError::IOFailure(cause),
        ),
{
}

/// Reading more than the first 262 bytes changes nothing: two reads that
/// agree on them end in the same state.
pub proof fn lemma_only_the_prefix_counts(
    expanded: Result<String, ModuleError>,
    probe: PathProbe,
    whole: Vec<u8>,
    head: Vec<u8>,
)
    requires
        whole@.len() >= 262,
        head@ == whole@.subrange(0, 262),
    ensures
        run(expanded, probe, Ok(head)) == run(expanded, probe, Ok(whole)),
{
    lemma_magic_reads_prefix_only(whole@);
}

/// Two probes that show the same: the same kind of finding, and for a plain
/// file the same canonical path, letter for letter.
pub open spec fn same_probe(first: PathProbe, second: PathProbe) -> bool {
    match (first, second) {
        (PathProbe::Missing, PathProbe::Missing) => true,
        (PathProbe::NotRegular, PathProbe::NotRegular) => true,
        (PathProbe::Regular(a), PathProbe::Regular(b)) => a@ == b@,
        _ => false,
    }
}

/// Two reads that give the same: the same bytes, or the same failure.
pub open spec fn same_read(
    first: Result<Vec<u8>, std::io::Error>,
    second: Result<Vec<u8>, std::io::Error>,
) -> bool {
    match (first, second) {
        (Ok(a), Ok(b)) => a@ == b@,
        (Err(a), Err(b)) => a == b,
        _ => false,
    }
}

/// Identification is repeatable: two runs on a path that expands both times,
/// in which the probe shows the same and the read gives the same, have the
/// same result.
pub proof fn lemma_same_findings_same_result(
    first_path: String,
    first_probe: PathProbe,
    first_read: Result<Vec<u8>, std::io::Error>,
    second_path: String,
    second_probe: PathProbe,
    second_read: Result<Vec<u8>, std::io::Error>,
)
    requires
        same_probe(first_probe, second_probe),
        same_read(first_read, second_read),
    ensures
        run(Ok(first_path), first_probe, first_read).spec_outcome() == run(
            Ok(second_path),
            second_probe,
            second_read,
        ).spec_outcome(),
{
}

} // verus!
