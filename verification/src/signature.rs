//! Classification by content: byte patterns at fixed offsets in the leading
//! bytes of a file, tried in a fixed order.

use crate::error::ModuleError;
use crate::format::ArchiveType;
use vstd::prelude::*;

verus! {

/// A byte pattern that marks a format when it stands at `offset`.
#[derive(Debug)]
pub struct Signature {
    pub format: ArchiveType,
    pub pattern: Vec<u8>,
    pub offset: usize,
}

/// A signature as plain values.
pub ghost struct SignatureView {
    pub format: ArchiveType,
    pub pattern: Seq<u8>,
    pub offset: nat,
}

impl View for Signature {
    type V = SignatureView;

    open spec fn view(&self) -> SignatureView {
        SignatureView { format: self.format, pattern: self.pattern@, offset: self.offset as nat }
    }
}

impl SignatureView {
    /// The number of leading bytes that have to be there for the pattern to
    /// be compared.
    pub open spec fn end(self) -> nat {
        self.offset + self.pattern.len()
    }

    /// The buffer reaches to the end of the pattern and holds it at the
    /// offset.
    pub open spec fn matches(self, buffer: Seq<u8>) -> bool {
        self.end() <= buffer.len() && buffer.subrange(self.offset as int, self.end() as int)
            == self.pattern
    }
}

/// The signatures of a table as plain values.
pub open spec fn signatures_view(table: Seq<Signature>) -> Seq<SignatureView> {
    Seq::new(table.len(), |i: int| table[i]@)
}

/// Every signature of the table ends within what a `usize` can count.
pub open spec fn table_in_bounds(table: Seq<SignatureView>) -> bool {
    forall|i: int| 0 <= i < table.len() ==> (#[trigger] table[i]).end() <= usize::MAX
}

/// The signature table. The order is part of it: where two signatures match
/// one buffer, the earlier one decides. The tar marker sits 257 bytes into
/// the first header block; every other pattern opens the file.
pub open spec fn magic() -> Seq<SignatureView> {
    seq![
        SignatureView { format: ArchiveType::Zip, pattern: seq![0x50u8, 0x4b], offset: 0 },
        SignatureView {
            format: ArchiveType::Rar,
            pattern: seq![0x52u8, 0x61, 0x72, 0x21],
            offset: 0,
        },
        SignatureView { format: ArchiveType::SevenZip, pattern: seq![0x37u8, 0x7a], offset: 0 },
        SignatureView {
            format: ArchiveType::Tar,
            pattern: seq![0x75u8, 0x73, 0x74, 0x61, 0x72],
            offset: 257,
        },
        SignatureView {
            format: ArchiveType::TarBzip2,
            pattern: seq![0x42u8, 0x5a, 0x68],
            offset: 0,
        },
        SignatureView { format: ArchiveType::TarGzip, pattern: seq![0x1fu8, 0x8b], offset: 0 },
        SignatureView {
            format: ArchiveType::TarLzip,
            pattern: seq![0x4cu8, 0x5a, 0x49, 0x50],
            offset: 0,
        },
        SignatureView {
            format: ArchiveType::TarLzop,
            pattern: seq![0x89u8, 0x4c, 0x5a, 0x4f, 0x00, 0x0d, 0x0a, 0x1a, 0x0a],
            offset: 0,
        },
        SignatureView {
            format: ArchiveType::TarXz,
            pattern: seq![0xfdu8, 0x37, 0x7a, 0x58, 0x5a, 0x00],
            offset: 0,
        },
        SignatureView { format: ArchiveType::TarCompress, pattern: seq![0x1fu8, 0x9d], offset: 0 },
        SignatureView {
            format: ArchiveType::TarZstd,
            pattern: seq![0x28u8, 0xb5, 0x2f, 0xfd],
            offset: 0,
        },
    ]
}

/// The format of the first signature in `table` that matches `buffer`.
pub open spec fn first_match(table: Seq<SignatureView>, buffer: Seq<u8>) -> Option<ArchiveType>
    decreases table.len(),
{
    if table.len() == 0 {
        None
    } else if table[0].matches(buffer) {
        Some(table[0].format)
    } else {
        first_match(table.drop_first(), buffer)
    }
}

/// The number of leading bytes that the signatures of `table` can look at:
/// the largest end of any of them, and 0 for an empty table.
pub open spec fn prefix_length(table: Seq<SignatureView>) -> nat
    decreases table.len(),
{
    if table.len() == 0 {
        0
    } else {
        let before = prefix_length(table.drop_last());
        if table.last().end() > before {
            table.last().end()
        } else {
            before
        }
    }
}

/// What the leading bytes of a file say of its format.
pub open spec fn spec_archive_magic(buffer: Seq<u8>) -> Result<ArchiveType, ModuleError> {
    match first_match(magic(), buffer) {
        Some(format) => Ok(format),
        None => Err(ModuleError::UnknownSignature),
    }
}

impl Signature {
    /// Tells whether `buffer` is long enough to hold the pattern at its
    /// offset, and holds it there. A buffer that is too short does not match.
    pub fn matches_buffer(&self, buffer: &[u8]) -> (hit: bool)
        ensures
            hit == self@.matches(buffer@),
    {
        if buffer.len() < self.offset || buffer.len() - self.offset < self.pattern.len() {
            return false;
        }
        let ghost window = buffer@.subrange(self.offset as int, self@.end() as int);
        let mut i: usize = 0;
        while i < self.pattern.len()
            invariant
                self@.end() <= buffer@.len() <= usize::MAX,
                window == buffer@.subrange(self.offset as int, self@.end() as int),
                i <= self.pattern@.len(),
                forall|j: int| 0 <= j < i ==> window[j] == self.pattern@[j],
            decreases self.pattern@.len() - i,
        {
            if buffer[self.offset + i] != self.pattern[i] {
                assert(window[i as int] != self.pattern@[i as int]);
                return false;
            }
            i = i + 1;
        }
        assert(window =~= self.pattern@);
        true
    }
}

/// Returns the signature table, in the order in which it is scanned.
pub fn magic_table() -> (table: Vec<Signature>)
    ensures
        signatures_view(table@) == magic(),
        table_in_bounds(magic()),
{
    let table = vec![
        Signature { format: ArchiveType::Zip, pattern: vec![0x50u8, 0x4b], offset: 0 },
        Signature { format: ArchiveType::Rar, pattern: vec![0x52u8, 0x61, 0x72, 0x21], offset: 0 },
        Signature { format: ArchiveType::SevenZip, pattern: vec![0x37u8, 0x7a], offset: 0 },
        Signature {
            format: ArchiveType::Tar,
            pattern: vec![0x75u8, 0x73, 0x74, 0x61, 0x72],
            offset: 257,
        },
        Signature { format: ArchiveType::TarBzip2, pattern: vec![0x42u8, 0x5a, 0x68], offset: 0 },
        Signature { format: ArchiveType::TarGzip, pattern: vec![0x1fu8, 0x8b], offset: 0 },
        Signature {
            format: ArchiveType::TarLzip,
            pattern: vec![0x4cu8, 0x5a, 0x49, 0x50],
            offset: 0,
        },
        Signature {
            format: ArchiveType::TarLzop,
            pattern: vec![0x89u8, 0x4c, 0x5a, 0x4f, 0x00, 0x0d, 0x0a, 0x1a, 0x0a],
            offset: 0,
        },
        Signature {
            format: ArchiveType::TarXz,
            pattern: vec![0xfdu8, 0x37, 0x7a, 0x58, 0x5a, 0x00],
            offset: 0,
        },
        Signature { format: ArchiveType::TarCompress, pattern: vec![0x1fu8, 0x9d], offset: 0 },
        Signature {
            format: ArchiveType::TarZstd,
            pattern: vec![0x28u8, 0xb5, 0x2f, 0xfd],
            offset: 0,
        },
    ];
    assert(signatures_view(table@) =~~= magic());
    table
}

/// Scans `table` in order and returns the format of the first signature that
/// matches `buffer`; later signatures are not looked at.
pub fn scan(table: &[Signature], buffer: &[u8]) -> (found: Option<ArchiveType>)
    ensures
        found == first_match(signatures_view(table@), buffer@),
{
    let ghost all = signatures_view(table@);
    let mut k: usize = 0;
    assert(all.subrange(0, all.len() as int) =~= all);
    while k < table.len()
        invariant
            all == signatures_view(table@),
            k <= table@.len(),
            first_match(all, buffer@) == first_match(
                all.subrange(k as int, all.len() as int),
                buffer@,
            ),
        decreases table@.len() - k,
    {
        let ghost rest = all.subrange(k as int, all.len() as int);
        assert(rest[0] == table@[k as int]@);
        if table[k].matches_buffer(buffer) {
            return Some(table[k].format);
        }
        assert(rest.drop_first() =~= all.subrange(k + 1, all.len() as int));
        k = k + 1;
    }
    assert(all.subrange(k as int, all.len() as int).len() == 0);
    None
}

/// Returns how many leading bytes of a file the signatures of `table` can
/// look at.
pub fn prefix_len(table: &[Signature]) -> (len: usize)
    requires
        table_in_bounds(signatures_view(table@)),
    ensures
        len == prefix_length(signatures_view(table@)),
{
    let ghost all = signatures_view(table@);
    let mut len: usize = 0;
    let mut k: usize = 0;
    assert(all.subrange(0, 0) =~= Seq::<SignatureView>::empty());
    while k < table.len()
        invariant
            all == signatures_view(table@),
            table_in_bounds(all),
            k <= table@.len(),
            len == prefix_length(all.subrange(0, k as int)),
        decreases table@.len() - k,
    {
        let ghost upto = all.subrange(0, k + 1);
        assert(upto.drop_last() =~= all.subrange(0, k as int));
        assert(upto.last() == all[k as int]);
        assert(all[k as int].end() <= usize::MAX);
        let end = table[k].offset + table[k].pattern.len();
        if end > len {
            len = end;
        }
        k = k + 1;
    }
    assert(all.subrange(0, k as int) =~= all);
    len
}

/// Returns how many leading bytes of a file have to be read for the
/// signature table: 262, the end of the tar marker.
pub fn magic_prefix_len() -> (len: usize)
    ensures
        len == prefix_length(magic()),
        len == 262,
{
    let table = magic_table();
    let len = prefix_len(table.as_slice());
    proof {
        lemma_magic_prefix_length();
    }
    len
}

/// Classifies a file by its leading bytes. `buffer` holds what could be read
/// of them, which may be less than was asked for, or nothing. The first
/// signature of the table that matches decides; when none does, the result is
/// `UnknownSignature`.
pub fn archive_magic(buffer: &[u8]) -> (found: Result<ArchiveType, ModuleError>)
    ensures
        found == spec_archive_magic(buffer@),
{
    let table = magic_table();
    match scan(table.as_slice(), buffer) {
        Some(format) => Ok(format),
        None => Err(ModuleError::UnknownSignature),
    }
}

/// A signature that matches pins every byte of its window: the buffer holds
/// the pattern's byte `k` at `offset + k`.
pub proof fn lemma_match_pins_bytes(signature: SignatureView, buffer: Seq<u8>, k: int)
    requires
        signature.matches(buffer),
        0 <= k < signature.pattern.len(),
    ensures
        buffer[signature.offset + k] == signature.pattern[k],
{
    let window = buffer.subrange(signature.offset as int, signature.end() as int);
    assert(window[k] == buffer[signature.offset + k]);
}

/// First match wins: a signature decides exactly when it matches and none
/// before it does.
pub proof fn lemma_first_match_at(table: Seq<SignatureView>, buffer: Seq<u8>, i: int)
    requires
        0 <= i < table.len(),
        table[i].matches(buffer),
        forall|j: int| 0 <= j < i ==> !(#[trigger] table[j]).matches(buffer),
    ensures
        first_match(table, buffer) == Some(table[i].format),
    decreases table.len(),
{
    if i > 0 {
        let rest = table.drop_first();
        assert forall|j: int| 0 <= j < i - 1 implies !(#[trigger] rest[j]).matches(buffer) by {
            assert(rest[j] == table[j + 1]);
        }
        lemma_first_match_at(rest, buffer, i - 1);
    }
}

/// A scan finds nothing exactly when no signature of the table matches.
pub proof fn lemma_first_match_none(table: Seq<SignatureView>, buffer: Seq<u8>)
    ensures
        first_match(table, buffer) is None <==> forall|j: int|
            0 <= j < table.len() ==> !(#[trigger] table[j]).matches(buffer),
    decreases table.len(),
{
    if table.len() > 0 {
        let rest = table.drop_first();
        lemma_first_match_none(rest, buffer);
        if first_match(table, buffer) is None {
            assert forall|j: int| 0 <= j < table.len() implies !(#[trigger] table[j]).matches(
                buffer,
            ) by {
                if j > 0 {
                    assert(table[j] == rest[j - 1]);
                }
            }
        } else if !table[0].matches(buffer) {
            let j = choose|j: int| 0 <= j < rest.len() && (#[trigger] rest[j]).matches(buffer);
            assert(table[j + 1] == rest[j]);
        }
    }
}

/// No signature of a table ends behind the table's prefix length.
pub proof fn lemma_prefix_length_covers(table: Seq<SignatureView>, i: int)
    requires
        0 <= i < table.len(),
    ensures
        table[i].end() <= prefix_length(table),
    decreases table.len(),
{
    if i < table.len() - 1 {
        assert(table.drop_last()[i] == table[i]);
        lemma_prefix_length_covers(table.drop_last(), i);
    }
}

/// Bytes behind the prefix length never matter: a scan of the whole buffer
/// and a scan of its first `limit` bytes find the same, for every `limit`
/// from the table's prefix length on.
pub proof fn lemma_prefix_suffices(table: Seq<SignatureView>, buffer: Seq<u8>, limit: int)
    requires
        prefix_length(table) <= limit <= buffer.len(),
    ensures
        first_match(table, buffer.subrange(0, limit)) == first_match(table, buffer),
{
    let head = buffer.subrange(0, limit);
    assert forall|k: int| 0 <= k < table.len() implies (#[trigger] table[k]).matches(head)
        == table[k].matches(buffer) by {
        lemma_prefix_length_covers(table, k);
        let from = table[k].offset as int;
        let to = table[k].end() as int;
        if to <= buffer.len() {
            assert(head.subrange(from, to) =~= buffer.subrange(from, to));
        }
    }
    lemma_scans_agree(table, head, buffer);
}

/// Two buffers that every signature of a table judges alike are scanned
/// alike.
pub proof fn lemma_scans_agree(table: Seq<SignatureView>, a: Seq<u8>, b: Seq<u8>)
    requires
        forall|k: int| 0 <= k < table.len() ==> (#[trigger] table[k]).matches(a) == table[k].matches(b),
    ensures
        first_match(table, a) == first_match(table, b),
    decreases table.len(),
{
    if table.len() > 0 {
        let rest = table.drop_first();
        assert(table[0].matches(a) == table[0].matches(b));
        assert forall|k: int| 0 <= k < rest.len() implies (#[trigger] rest[k]).matches(a)
            == rest[k].matches(b) by {
            assert(rest[k] == table[k + 1]);
        }
        lemma_scans_agree(rest, a, b);
    }
}

/// The patterns that open a file tell their formats apart: of the signatures
/// at offset 0, at most one matches a buffer. Only the tar marker, which
/// sits further in, can match together with another signature.
pub proof fn lemma_leading_patterns_exclusive(buffer: Seq<u8>, i: int, j: int)
    requires
        0 <= i < magic().len(),
        0 <= j < magic().len(),
        i != j,
        magic()[i].offset == 0,
        magic()[j].offset == 0,
        magic()[i].matches(buffer),
    ensures
        !magic()[j].matches(buffer),
{
    if magic()[j].matches(buffer) {
        lemma_match_pins_bytes(magic()[i], buffer, 0);
        lemma_match_pins_bytes(magic()[i], buffer, 1);
        lemma_match_pins_bytes(magic()[j], buffer, 0);
        lemma_match_pins_bytes(magic()[j], buffer, 1);
    }
}

/// Every signature of the table resolves to its own format on a buffer that
/// it matches and that no earlier signature matches.
pub proof fn lemma_signature_decides(buffer: Seq<u8>, i: int)
    requires
        0 <= i < magic().len(),
        magic()[i].matches(buffer),
        forall|j: int| 0 <= j < i ==> !(#[trigger] magic()[j]).matches(buffer),
    ensures
        spec_archive_magic(buffer) == Ok::<ArchiveType, ModuleError>(magic()[i].format),
{
    lemma_first_match_at(magic(), buffer, i);
}

/// A buffer of fewer than two bytes, an empty one among them, matches no
/// signature.
pub proof fn lemma_short_buffer_unknown(buffer: Seq<u8>)
    requires
        buffer.len() < 2,
    ensures
        spec_archive_magic(buffer) == Err::<ArchiveType, ModuleError>(
            ModuleError::UnknownSignature,
        ),
{
    lemma_first_match_none(magic(), buffer);
}

/// What a scan of the signature table finds depends on the first 262 bytes
/// alone.
pub proof fn lemma_magic_reads_prefix_only(buffer: Seq<u8>)
    requires
        buffer.len() >= 262,
    ensures
        spec_archive_magic(buffer.subrange(0, 262)) == spec_archive_magic(buffer),
{
    lemma_magic_prefix_length();
    lemma_prefix_suffices(magic(), buffer, 262);
}

/// The signature table asks for the first 262 bytes of a file.
pub proof fn lemma_magic_prefix_length()
    ensures
        prefix_length(magic()) == 262,
{
    reveal_with_fuel(prefix_length, 12);
    let m = magic();
    assert(m.drop_last().len() == 10);
}

} // verus!
