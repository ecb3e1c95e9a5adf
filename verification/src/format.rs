//! The closed set of formats that can be identified.

use vstd::prelude::*;

verus! {

/// An archive or container format. The variants carry no data: two values are
/// equal exactly when they are the same variant.
#[derive(Debug, Clone, Copy, PartialEq, Eq, Structural)]
pub enum ArchiveType {
    Zip,
    Rar,
    SevenZip,
    Tar,
    TarBzip2,
    TarGzip,
    TarLzip,
    TarLzop,
    TarXz,
    TarCompress,
    TarZstd,
}

impl ArchiveType {
    /// The canonical file name ending of a format, leading dot included.
    pub open spec fn spec_extension(self) -> Seq<char> {
        match self {
            ArchiveType::Zip => ".zip"@,
            ArchiveType::Rar => ".rar"@,
            ArchiveType::SevenZip => ".7z"@,
            ArchiveType::Tar => ".tar"@,
            ArchiveType::TarBzip2 => ".tar.bz2"@,
            ArchiveType::TarGzip => ".tar.gz"@,
            ArchiveType::TarLzip => ".tar.lz"@,
            ArchiveType::TarLzop => ".tar.lzo"@,
            ArchiveType::TarXz => ".tar.xz"@,
            ArchiveType::TarCompress => ".tar.Z"@,
            ArchiveType::TarZstd => ".tar.zstd"@,
        }
    }

    /// The name of a format, as its variant is written.
    pub open spec fn spec_name(self) -> Seq<char> {
        match self {
            ArchiveType::Zip => "Zip"@,
            ArchiveType::Rar => "Rar"@,
            ArchiveType::SevenZip => "SevenZip"@,
            ArchiveType::Tar => "Tar"@,
            ArchiveType::TarBzip2 => "TarBzip2"@,
            ArchiveType::TarGzip => "TarGzip"@,
            ArchiveType::TarLzip => "TarLzip"@,
            ArchiveType::TarLzop => "TarLzop"@,
            ArchiveType::TarXz => "TarXz"@,
            ArchiveType::TarCompress => "TarCompress"@,
            ArchiveType::TarZstd => "TarZstd"@,
        }
    }

    /// Returns the name of the format for a reader.
    pub fn name(&self) -> (name: &'static str)
        ensures
            name@ == self.spec_name(),
    {
        match self {
            ArchiveType::Zip => "Zip",
            ArchiveType::Rar => "Rar",
            ArchiveType::SevenZip => "SevenZip",
            ArchiveType::Tar => "Tar",
            ArchiveType::TarBzip2 => "TarBzip2",
            ArchiveType::TarGzip => "TarGzip",
            ArchiveType::TarLzip => "TarLzip",
            ArchiveType::TarLzop => "TarLzop",
            ArchiveType::TarXz => "TarXz",
            ArchiveType::TarCompress => "TarCompress",
            ArchiveType::TarZstd => "TarZstd",
        }
    }

    /// Returns the canonical file name ending of the format.
    pub fn extension(&self) -> (ending: &'static str)
        ensures
            ending@ == self.spec_extension(),
    {
        match self {
            ArchiveType::Zip => ".zip",
            ArchiveType::Rar => ".rar",
            ArchiveType::SevenZip => ".7z",
            ArchiveType::Tar => ".tar",
            ArchiveType::TarBzip2 => ".tar.bz2",
            ArchiveType::TarGzip => ".tar.gz",
            ArchiveType::TarLzip => ".tar.lz",
            ArchiveType::TarLzop => ".tar.lzo",
            ArchiveType::TarXz => ".tar.xz",
            ArchiveType::TarCompress => ".tar.Z",
            ArchiveType::TarZstd => ".tar.zstd",
        }
    }
}

} // verus!
