//! Classification by file name: the suffix behind the first dot of the final
//! path component is looked up in a fixed, ordered table of rules.

use crate::error::ModuleError;
use crate::format::ArchiveType;
use crate::text::{chars_of, holds_at};
use vstd::prelude::*;

verus! {

/// One rule of the extension table: a literal suffix and the format it names.
#[derive(Debug, Clone, Copy)]
pub struct ExtensionRule {
    pub suffix: &'static str,
    pub format: ArchiveType,
}

impl View for ExtensionRule {
    type V = (Seq<char>, ArchiveType);

    open spec fn view(&self) -> (Seq<char>, ArchiveType) {
        (self.suffix@, self.format)
    }
}

/// The rules of a table as plain pairs of suffix and format.
pub open spec fn rules_view(rules: Seq<ExtensionRule>) -> Seq<(Seq<char>, ArchiveType)> {
    Seq::new(rules.len(), |i: int| rules[i]@)
}

/// The extension table. Several suffixes may name one format; no suffix
/// stands in it twice.
pub open spec fn extension_table() -> Seq<(Seq<char>, ArchiveType)> {
    seq![
        ("zip"@, ArchiveType::Zip),
        ("rar"@, ArchiveType::Rar),
        ("7z"@, ArchiveType::SevenZip),
        ("tar"@, ArchiveType::Tar),
        ("tar.bz2"@, ArchiveType::TarBzip2),
        ("tar.gz"@, ArchiveType::TarGzip),
        ("tar.lz"@, ArchiveType::TarLzip),
        ("tar.lzo"@, ArchiveType::TarLzop),
        ("tar.xz"@, ArchiveType::TarXz),
        ("tar.Z"@, ArchiveType::TarCompress),
        ("tar.zst"@, ArchiveType::TarZstd),
    ]
}

/// Where the final component of `path` begins: behind its last `/`, or at the
/// front when it has none.
pub open spec fn base_name_start(path: Seq<char>) -> int
    decreases path.len(),
{
    if path.len() == 0 {
        0
    } else if path.last() == '/' {
        path.len() as int
    } else {
        base_name_start(path.drop_last())
    }
}

/// Whether the last character of a non-empty `path` ends no component: it
/// is a separator, or a `.` that is a component of its own.
pub open spec fn ends_in_filler(path: Seq<char>) -> bool {
    path.last() == '/' || (path.last() == '.' && (path.len() == 1 || path[path.len() - 2] == '/'))
}

/// `path` without the separators and `.` components at its end.
pub open spec fn trimmed(path: Seq<char>) -> Seq<char>
    decreases path.len(),
{
    if path.len() > 0 && ends_in_filler(path) {
        trimmed(path.drop_last())
    } else {
        path
    }
}

/// The name of what `path` leads to: its final component, with separators
/// and `.` components at the end passed over. It is empty where the path has
/// no component at all.
pub open spec fn file_name(path: Seq<char>) -> Seq<char> {
    let stripped = trimmed(path);
    stripped.subrange(base_name_start(stripped), stripped.len() as int)
}

/// The position of the first `.` in `name`, or its length when it has none.
pub open spec fn first_dot(name: Seq<char>) -> int
    decreases name.len(),
{
    if name.len() == 0 || name[0] == '.' {
        0
    } else {
        1 + first_dot(name.drop_first())
    }
}

/// Everything behind the first `.` of `name`; `None` when it has no `.`.
/// A compound ending such as `tar.gz` is one suffix.
pub open spec fn suffix(name: Seq<char>) -> Option<Seq<char>> {
    let dot = first_dot(name);
    if dot < name.len() {
        Some(name.subrange(dot + 1, name.len() as int))
    } else {
        None
    }
}

/// The format of the first rule in `table` whose suffix is `wanted`, letter
/// for letter.
pub open spec fn lookup(table: Seq<(Seq<char>, ArchiveType)>, wanted: Seq<char>) -> Option<
    ArchiveType,
>
    decreases table.len(),
{
    if table.len() == 0 {
        None
    } else if table[0].0 == wanted {
        Some(table[0].1)
    } else {
        lookup(table.drop_first(), wanted)
    }
}

/// The format that the name of the file at `path` stands for, if any.
pub open spec fn spec_match_extension(path: Seq<char>) -> Option<ArchiveType> {
    match suffix(file_name(path)) {
        Some(wanted) => lookup(extension_table(), wanted),
        None => None,
    }
}

/// `base_name_start` is the one position that has no `/` behind it and either
/// is the front of the path or has a `/` just before it.
pub proof fn lemma_base_name_start(path: Seq<char>, at: int)
    requires
        0 <= at <= path.len(),
        at > 0 ==> path[at - 1] == '/',
        forall|j: int| at <= j < path.len() ==> path[j] != '/',
    ensures
        base_name_start(path) == at,
    decreases path.len(),
{
    if path.len() > 0 && path.last() != '/' {
        lemma_base_name_start(path.drop_last(), at);
    }
}

/// `first_dot` is the one position that has no `.` before it and either is
/// the end of the name or holds a `.`.
pub proof fn lemma_first_dot(name: Seq<char>, at: int)
    requires
        0 <= at <= name.len(),
        at < name.len() ==> name[at] == '.',
        forall|j: int| 0 <= j < at ==> name[j] != '.',
    ensures
        first_dot(name) == at,
    decreases name.len(),
{
    if name.len() > 0 && name[0] != '.' {
        let rest = name.drop_first();
        assert forall|j: int| 0 <= j < at - 1 implies rest[j] != '.' by {
            assert(rest[j] == name[j + 1]);
        }
        lemma_first_dot(rest, at - 1);
    }
}

/// What the extension table holds, letter by letter: no suffix holds a `/`,
/// none is empty or ends in a `.`, and no two rules have the same suffix.
pub proof fn lemma_extension_table_sound()
    ensures
        forall|i: int, k: int|
            0 <= i < extension_table().len() && 0 <= k < extension_table()[i].0.len()
                ==> extension_table()[i].0[k] != '/',
        forall|i: int|
            0 <= i < extension_table().len() ==> extension_table()[i].0.len() > 0
                && extension_table()[i].0.last() != '.',
        forall|i: int, j: int|
            0 <= i < j < extension_table().len() ==> extension_table()[i].0
                != extension_table()[j].0,
{
    reveal_strlit("zip");
    reveal_strlit("rar");
    reveal_strlit("7z");
    reveal_strlit("tar");
    reveal_strlit("tar.bz2");
    reveal_strlit("tar.gz");
    reveal_strlit("tar.lz");
    reveal_strlit("tar.lzo");
    reveal_strlit("tar.xz");
    reveal_strlit("tar.Z");
    reveal_strlit("tar.zst");
    // Suffixes of one length differ in their first letter, or in the first
    // one behind `tar.`.
    assert("zip"@[0] == 'z' && "rar"@[0] == 'r' && "tar"@[0] == 't');
    assert("tar.gz"@[4] == 'g' && "tar.lz"@[4] == 'l' && "tar.xz"@[4] == 'x');
    assert("tar.bz2"@[4] == 'b' && "tar.lzo"@[4] == 'l' && "tar.zst"@[4] == 'z');
    let table = extension_table();
    assert forall|i: int, j: int| 0 <= i < j < table.len() implies table[i].0 != table[j].0 by {
        let a = table[i].0;
        let b = table[j].0;
        if a.len() == b.len() {
            assert(a[0] != b[0] || a[4] != b[4]);
        }
    }
}

/// In a table without a repeated suffix, every rule is found by its own
/// suffix.
pub proof fn lemma_lookup_finds(table: Seq<(Seq<char>, ArchiveType)>, i: int)
    requires
        0 <= i < table.len(),
        forall|j: int| 0 <= j < i ==> (#[trigger] table[j]).0 != table[i].0,
    ensures
        lookup(table, table[i].0) == Some(table[i].1),
    decreases table.len(),
{
    if i > 0 {
        let rest = table.drop_first();
        assert(table[0].0 != table[i].0);
        assert forall|j: int| 0 <= j < i - 1 implies (#[trigger] rest[j]).0 != rest[i - 1].0 by {
            assert(rest[j] == table[j + 1]);
        }
        lemma_lookup_finds(rest, i - 1);
    }
}

/// A lookup that finds a format found it in a rule of the table.
pub proof fn lemma_lookup_is_a_rule(table: Seq<(Seq<char>, ArchiveType)>, wanted: Seq<char>)
    ensures
        match lookup(table, wanted) {
            Some(format) => exists|i: int|
                0 <= i < table.len() && #[trigger] table[i] == (wanted, format),
            None => forall|i: int| 0 <= i < table.len() ==> (#[trigger] table[i]).0 != wanted,
        },
    decreases table.len(),
{
    if table.len() > 0 {
        let rest = table.drop_first();
        lemma_lookup_is_a_rule(rest, wanted);
        if table[0].0 == wanted {
            assert(table[0] == (wanted, table[0].1));
        } else {
            match lookup(rest, wanted) {
                Some(format) => {
                    let i = choose|i: int| 0 <= i < rest.len() && #[trigger] rest[i] == (wanted, format);
                    assert(table[i + 1] == rest[i]);
                },
                None => {
                    assert forall|i: int| 0 <= i < table.len() implies (#[trigger] table[i]).0
                        != wanted by {
                        if i > 0 {
                            assert(table[i] == rest[i - 1]);
                        }
                    }
                },
            }
        }
    }
}

/// The file name made of a stem without a `.`, a `.` and the suffix of any
/// rule of the extension table stands for that rule's format, in whatever
/// directory the file lies.
pub proof fn lemma_table_suffix_matches(dir: Seq<char>, stem: Seq<char>, i: int)
    requires
        dir.len() == 0 || dir.last() == '/',
        forall|k: int| 0 <= k < stem.len() ==> stem[k] != '.' && stem[k] != '/',
        0 <= i < extension_table().len(),
    ensures
        spec_match_extension(dir + stem + seq!['.'] + extension_table()[i].0) == Some(
            extension_table()[i].1,
        ),
{
    let wanted = extension_table()[i].0;
    let name = stem + seq!['.'] + wanted;
    let path = dir + stem + seq!['.'] + wanted;
    lemma_extension_table_sound();
    assert forall|j: int| dir.len() <= j < path.len() implies path[j] != '/' by {
        if j - dir.len() > stem.len() {
            assert(path[j] == wanted[j - dir.len() - stem.len() - 1]);
        }
    }
    assert(path.last() == wanted.last());
    assert(trimmed(path) == path);
    lemma_base_name_start(path, dir.len() as int);
    assert(file_name(path) =~= name);
    lemma_first_dot(name, stem.len() as int);
    assert(name.subrange(stem.len() as int + 1, name.len() as int) =~= wanted);
    lemma_lookup_finds(extension_table(), i);
}

/// The place of the rule that names `format` in the extension table.
pub open spec fn own_rule(format: ArchiveType) -> int {
    match format {
        ArchiveType::Zip => 0,
        ArchiveType::Rar => 1,
        ArchiveType::SevenZip => 2,
        ArchiveType::Tar => 3,
        ArchiveType::TarBzip2 => 4,
        ArchiveType::TarGzip => 5,
        ArchiveType::TarLzip => 6,
        ArchiveType::TarLzop => 7,
        ArchiveType::TarXz => 8,
        ArchiveType::TarCompress => 9,
        ArchiveType::TarZstd => 10,
    }
}

/// Every format has a rule of its own: the table can name each of them.
pub proof fn lemma_every_format_has_a_rule(format: ArchiveType)
    ensures
        0 <= own_rule(format) < extension_table().len(),
        extension_table()[own_rule(format)].1 == format,
{
}

/// Canonical endings lead back: the name made of a stem without a `.` and
/// the canonical ending of a format stands for that format. `TarZstd` is
/// left out: its canonical ending is `.tar.zstd`, while the table knows the
/// suffix `tar.zst`.
pub proof fn lemma_canonical_ending_matches(dir: Seq<char>, stem: Seq<char>, format: ArchiveType)
    requires
        dir.len() == 0 || dir.last() == '/',
        forall|k: int| 0 <= k < stem.len() ==> stem[k] != '.' && stem[k] != '/',
        format != ArchiveType::TarZstd,
    ensures
        spec_match_extension(dir + stem + format.spec_extension()) == Some(format),
{
    let i = own_rule(format);
    let wanted = extension_table()[i].0;
    assert(format.spec_extension() =~= seq!['.'] + wanted) by {
        reveal_strlit("zip");
        reveal_strlit("rar");
        reveal_strlit("7z");
        reveal_strlit("tar");
        reveal_strlit("tar.bz2");
        reveal_strlit("tar.gz");
        reveal_strlit("tar.lz");
        reveal_strlit("tar.lzo");
        reveal_strlit("tar.xz");
        reveal_strlit("tar.Z");
        reveal_strlit(".zip");
        reveal_strlit(".rar");
        reveal_strlit(".7z");
        reveal_strlit(".tar");
        reveal_strlit(".tar.bz2");
        reveal_strlit(".tar.gz");
        reveal_strlit(".tar.lz");
        reveal_strlit(".tar.lzo");
        reveal_strlit(".tar.xz");
        reveal_strlit(".tar.Z");
    }
    assert(dir + stem + format.spec_extension() =~= dir + stem + seq!['.'] + wanted);
    lemma_table_suffix_matches(dir, stem, i);
}

/// The canonical ending of `TarZstd` is not recognised: a name made of a
/// stem without a `.` and `.tar.zstd` stands for no format.
pub proof fn lemma_zstd_ending_is_unknown(dir: Seq<char>, stem: Seq<char>)
    requires
        dir.len() == 0 || dir.last() == '/',
        forall|k: int| 0 <= k < stem.len() ==> stem[k] != '.' && stem[k] != '/',
    ensures
        spec_match_extension(dir + stem + ArchiveType::TarZstd.spec_extension()) is None,
{
    let ending = ArchiveType::TarZstd.spec_extension();
    let wanted = ending.subrange(1, ending.len() as int);
    let name = stem + ending;
    let path = dir + stem + ending;
    reveal_strlit(".tar.zstd");
    assert forall|j: int| dir.len() <= j < path.len() implies path[j] != '/' by {
        if j - dir.len() >= stem.len() {
            assert(path[j] == ending[j - dir.len() - stem.len()]);
        }
    }
    assert(path.last() == ending.last());
    assert(trimmed(path) == path);
    lemma_base_name_start(path, dir.len() as int);
    assert(file_name(path) =~= name);
    lemma_first_dot(name, stem.len() as int);
    assert(name.subrange(stem.len() as int + 1, name.len() as int) =~= wanted);
    lemma_lookup_is_a_rule(extension_table(), wanted);
    lemma_extension_table_lengths();
    assert(wanted.len() == 8);
}

/// No suffix of the extension table is longer than seven letters.
pub proof fn lemma_extension_table_lengths()
    ensures
        forall|i: int|
            0 <= i < extension_table().len() ==> 2 <= (#[trigger] extension_table()[i]).0.len()
                <= 7,
{
    reveal_strlit("zip");
    reveal_strlit("rar");
    reveal_strlit("7z");
    reveal_strlit("tar");
    reveal_strlit("tar.bz2");
    reveal_strlit("tar.gz");
    reveal_strlit("tar.lz");
    reveal_strlit("tar.lzo");
    reveal_strlit("tar.xz");
    reveal_strlit("tar.Z");
    reveal_strlit("tar.zst");
}

/// Drops the separators and `.` components at the end of `path`.
fn strip_filler(path: Vec<char>) -> (stripped: Vec<char>)
    ensures
        stripped@ == trimmed(path@),
{
    let mut rest = path;
    loop
        invariant
            trimmed(rest@) == trimmed(path@),
        decreases rest@.len(),
    {
        let n = rest.len();
        if n == 0 {
            return rest;
        }
        let last = rest[n - 1];
        let filler = last == '/' || (last == '.' && (n == 1 || rest[n - 2] == '/'));
        if !filler {
            return rest;
        }
        rest.pop();
    }
}

/// Returns the position at which the final component of `path` begins.
fn find_base_name(path: &Vec<char>) -> (start: usize)
    ensures
        start == base_name_start(path@),
        start <= path@.len(),
{
    let mut start: usize = path.len();
    while start > 0 && path[start - 1] != '/'
        invariant
            start <= path@.len(),
            forall|j: int| start <= j < path@.len() ==> path@[j] != '/',
        decreases start,
    {
        start = start - 1;
    }
    proof {
        lemma_base_name_start(path@, start as int);
    }
    start
}

/// Returns the position of the first `.` at or behind `start`, or the length
/// of `path` when there is none.
fn find_first_dot(path: &Vec<char>, start: usize) -> (dot: usize)
    requires
        start <= path@.len(),
    ensures
        start <= dot <= path@.len(),
        dot - start == first_dot(path@.subrange(start as int, path@.len() as int)),
{
    let mut dot: usize = start;
    while dot < path.len() && path[dot] != '.'
        invariant
            start <= dot <= path@.len(),
            forall|j: int| start <= j < dot ==> path@[j] != '.',
        decreases path@.len() - dot,
    {
        dot = dot + 1;
    }
    proof {
        lemma_first_dot(path@.subrange(start as int, path@.len() as int), dot - start);
    }
    dot
}

/// Tells whether the characters of `text` from `from` on spell `word`.
fn tail_is(text: &Vec<char>, from: usize, word: &Vec<char>) -> (same: bool)
    requires
        from <= text@.len(),
    ensures
        same == (text@.subrange(from as int, text@.len() as int) == word@),
{
    text.len() - from == word.len() && holds_at(text, from, word)
}

/// Returns the extension table: the rules in the order in which they are
/// tried.
pub fn extension_rules() -> (rules: Vec<ExtensionRule>)
    ensures
        rules_view(rules@) == extension_table(),
{
    let rules = vec![
        ExtensionRule { suffix: "zip", format: ArchiveType::Zip },
        ExtensionRule { suffix: "rar", format: ArchiveType::Rar },
        ExtensionRule { suffix: "7z", format: ArchiveType::SevenZip },
        ExtensionRule { suffix: "tar", format: ArchiveType::Tar },
        ExtensionRule { suffix: "tar.bz2", format: ArchiveType::TarBzip2 },
        ExtensionRule { suffix: "tar.gz", format: ArchiveType::TarGzip },
        ExtensionRule { suffix: "tar.lz", format: ArchiveType::TarLzip },
        ExtensionRule { suffix: "tar.lzo", format: ArchiveType::TarLzop },
        ExtensionRule { suffix: "tar.xz", format: ArchiveType::TarXz },
        ExtensionRule { suffix: "tar.Z", format: ArchiveType::TarCompress },
        ExtensionRule { suffix: "tar.zst", format: ArchiveType::TarZstd },
    ];
    assert(rules_view(rules@) =~= extension_table());
    rules
}

/// Looks `path`'s characters from `from` on up in `rules`: the first rule
/// whose suffix they spell decides.
fn lookup_suffix(rules: &Vec<ExtensionRule>, path: &Vec<char>, from: usize) -> (found: Option<
    ArchiveType,
>)
    requires
        from <= path@.len(),
    ensures
        found == lookup(rules_view(rules@), path@.subrange(from as int, path@.len() as int)),
{
    let ghost table = rules_view(rules@);
    let ghost wanted = path@.subrange(from as int, path@.len() as int);
    let mut k: usize = 0;
    assert(table.subrange(0, table.len() as int) =~= table);
    while k < rules.len()
        invariant
            from <= path@.len(),
            table == rules_view(rules@),
            wanted == path@.subrange(from as int, path@.len() as int),
            k <= rules@.len(),
            lookup(table, wanted) == lookup(table.subrange(k as int, table.len() as int), wanted),
        decreases rules@.len() - k,
    {
        let rule = rules[k];
        let word = chars_of(rule.suffix);
        let ghost rest = table.subrange(k as int, table.len() as int);
        assert(rest[0] == rules@[k as int]@);
        if tail_is(path, from, &word) {
            return Some(rule.format);
        }
        assert(rest.drop_first() =~= table.subrange(k + 1, table.len() as int));
        k = k + 1;
    }
    assert(table.subrange(k as int, table.len() as int).len() == 0);
    None
}

impl ArchiveType {
    /// Classifies the file at `filepath` by its name alone: the suffix behind
    /// the first `.` of the final path component must be one of the extension
    /// table, case included. A name without a `.`, or with an unknown suffix,
    /// is an `UnknownExtension`, and so is a path that ends in `..` or has no
    /// component at all. The file is never opened.
    pub fn match_extension(filepath: &str) -> (found: Result<ArchiveType, ModuleError>)
        ensures
            match spec_match_extension(filepath@) {
                Some(format) => found == Ok::<ArchiveType, ModuleError>(format),
                None => found == Err::<ArchiveType, ModuleError>(ModuleError::UnknownExtension),
            },
    {
        let path = strip_filler(chars_of(filepath));
        let start = find_base_name(&path);
        let dot = find_first_dot(&path, start);
        if dot == path.len() {
            return Err(ModuleError::UnknownExtension);
        }
        let ghost name = file_name(filepath@);
        assert(name.subrange(dot - start + 1, name.len() as int) =~= path@.subrange(
            dot + 1,
            path@.len() as int,
        ));
        let rules = extension_rules();
        match lookup_suffix(&rules, &path, dot + 1) {
            Some(format) => Ok(format),
            None => Err(ModuleError::UnknownExtension),
        }
    }
}

} // verus!
