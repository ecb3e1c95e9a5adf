use rustible::error::ModuleError;
use rustible::extension::extension_rules;
use rustible::format::ArchiveType;

const TESTTABLE: &[(&str, ArchiveType)] = &[
    ("zip", ArchiveType::Zip),
    ("rar", ArchiveType::Rar),
    ("7z", ArchiveType::SevenZip),
    ("tar", ArchiveType::Tar),
    ("tar.bz2", ArchiveType::TarBzip2),
    ("tar.gz", ArchiveType::TarGzip),
    ("tar.lz", ArchiveType::TarLzip),
    ("tar.lzo", ArchiveType::TarLzop),
    ("tar.xz", ArchiveType::TarXz),
    ("tar.zst", ArchiveType::TarZstd),
    ("tar.Z", ArchiveType::TarCompress),
];

#[test]
fn archive_extension() {
    for (ext, archive_type) in TESTTABLE {
        let filepath = format!("resources/test.{ext}");
        let result = ArchiveType::match_extension(&filepath);
        assert!(
            result.is_ok(),
            "{} for file {}",
            result.unwrap_err().message(),
            filepath
        );
        let result = result.unwrap();
        assert_eq!(result, *archive_type);
    }
}

#[test]
fn extension_rules_hold_the_table_in_order() {
    let rules = extension_rules();
    assert_eq!(rules.len(), 11);
    let expected = [
        ("zip", ArchiveType::Zip),
        ("rar", ArchiveType::Rar),
        ("7z", ArchiveType::SevenZip),
        ("tar", ArchiveType::Tar),
        ("tar.bz2", ArchiveType::TarBzip2),
        ("tar.gz", ArchiveType::TarGzip),
        ("tar.lz", ArchiveType::TarLzip),
        ("tar.lzo", ArchiveType::TarLzop),
        ("tar.xz", ArchiveType::TarXz),
        ("tar.Z", ArchiveType::TarCompress),
        ("tar.zst", ArchiveType::TarZstd),
    ];
    for (rule, (suffix, format)) in rules.iter().zip(expected.iter()) {
        assert_eq!(rule.suffix, *suffix);
        assert_eq!(rule.format, *format);
    }
}

#[test]
fn every_rule_is_found_by_its_own_suffix() {
    for rule in extension_rules() {
        let path = format!("/srv/drop/backup.{}", rule.suffix);
        assert_eq!(ArchiveType::match_extension(&path).unwrap(), rule.format);
    }
}

#[test]
fn compound_suffix_is_one_unit() {
    assert_eq!(
        ArchiveType::match_extension("/home/alice/archive.tar.gz").unwrap(),
        ArchiveType::TarGzip
    );
    assert_eq!(
        ArchiveType::match_extension("archive.tar").unwrap(),
        ArchiveType::Tar
    );
}

#[test]
fn suffix_starts_at_the_first_dot() {
    assert!(matches!(
        ArchiveType::match_extension("/tmp/my.archive.zip"),
        Err(ModuleError::UnknownExtension)
    ));
    assert!(matches!(
        ArchiveType::match_extension("/tmp/backup.2024.tar.gz"),
        Err(ModuleError::UnknownExtension)
    ));
}

#[test]
fn lookup_is_case_sensitive() {
    assert!(matches!(
        ArchiveType::match_extension("/tmp/a.ZIP"),
        Err(ModuleError::UnknownExtension)
    ));
    assert!(matches!(
        ArchiveType::match_extension("/tmp/a.tar.z"),
        Err(ModuleError::UnknownExtension)
    ));
    assert_eq!(
        ArchiveType::match_extension("/tmp/a.tar.Z").unwrap(),
        ArchiveType::TarCompress
    );
}

#[test]
fn name_without_a_dot_has_no_extension() {
    assert!(matches!(
        ArchiveType::match_extension("/usr/bin/tar"),
        Err(ModuleError::UnknownExtension)
    ));
    assert!(matches!(
        ArchiveType::match_extension(""),
        Err(ModuleError::UnknownExtension)
    ));
}

#[test]
fn name_ending_in_a_bare_dot_has_no_extension() {
    assert!(matches!(
        ArchiveType::match_extension("/tmp/archive."),
        Err(ModuleError::UnknownExtension)
    ));
    assert!(matches!(
        ArchiveType::match_extension("/tmp/.."),
        Err(ModuleError::UnknownExtension)
    ));
}

#[test]
fn unknown_suffix_is_rejected() {
    assert!(matches!(
        ArchiveType::match_extension("/tmp/notes.txt"),
        Err(ModuleError::UnknownExtension)
    ));
    assert!(matches!(
        ArchiveType::match_extension("/tmp/a.tar.lzma"),
        Err(ModuleError::UnknownExtension)
    ));
    assert!(matches!(
        ArchiveType::match_extension("/tmp/a.zipx"),
        Err(ModuleError::UnknownExtension)
    ));
}

#[test]
fn only_the_final_component_counts() {
    assert_eq!(
        ArchiveType::match_extension("/home/a.b/test.zip").unwrap(),
        ArchiveType::Zip
    );
    assert!(matches!(
        ArchiveType::match_extension("/home/pack.zip/readme"),
        Err(ModuleError::UnknownExtension)
    ));
}

#[test]
fn separators_and_dot_components_at_the_end_are_passed_over() {
    assert_eq!(
        ArchiveType::match_extension("resources/test.zip/").unwrap(),
        ArchiveType::Zip
    );
    assert_eq!(
        ArchiveType::match_extension("resources/test.tar.xz/.").unwrap(),
        ArchiveType::TarXz
    );
    assert_eq!(
        ArchiveType::match_extension("resources/test.rar/.//./").unwrap(),
        ArchiveType::Rar
    );
    assert!(matches!(
        ArchiveType::match_extension("resources/test.zip/.."),
        Err(ModuleError::UnknownExtension)
    ));
}

#[test]
fn path_without_a_component_has_no_extension() {
    for path in ["/", ".", "./", "..", "//", "/."] {
        assert!(matches!(
            ArchiveType::match_extension(path),
            Err(ModuleError::UnknownExtension)
        ));
    }
}

#[test]
fn hidden_file_named_by_suffix_alone() {
    assert_eq!(
        ArchiveType::match_extension("/tmp/.zip").unwrap(),
        ArchiveType::Zip
    );
}

#[test]
fn non_ascii_names_are_read_by_character() {
    assert_eq!(
        ArchiveType::match_extension("/tmp/übung/größe.7z").unwrap(),
        ArchiveType::SevenZip
    );
}

#[test]
fn extension_of_each_format() {
    assert_eq!(ArchiveType::Zip.extension(), ".zip");
    assert_eq!(ArchiveType::Rar.extension(), ".rar");
    assert_eq!(ArchiveType::SevenZip.extension(), ".7z");
    assert_eq!(ArchiveType::Tar.extension(), ".tar");
    assert_eq!(ArchiveType::TarBzip2.extension(), ".tar.bz2");
    assert_eq!(ArchiveType::TarGzip.extension(), ".tar.gz");
    assert_eq!(ArchiveType::TarLzip.extension(), ".tar.lz");
    assert_eq!(ArchiveType::TarLzop.extension(), ".tar.lzo");
    assert_eq!(ArchiveType::TarXz.extension(), ".tar.xz");
    assert_eq!(ArchiveType::TarCompress.extension(), ".tar.Z");
    assert_eq!(ArchiveType::TarZstd.extension(), ".tar.zstd");
}

#[test]
fn name_of_each_format() {
    assert_eq!(ArchiveType::Zip.name(), "Zip");
    assert_eq!(ArchiveType::SevenZip.name(), "SevenZip");
    assert_eq!(ArchiveType::TarBzip2.name(), "TarBzip2");
    assert_eq!(ArchiveType::TarCompress.name(), "TarCompress");
    for (_, archive_type) in TESTTABLE {
        assert_eq!(archive_type.name(), format!("{:?}", archive_type));
    }
}
