//! Host platform classification and the platform → release-asset table.
//!
//! A host is identified by an (operating system, CPU architecture) pair.  The
//! supported pairs are {Mac, Linux} × {Aarch64, X8664} and Windows × {X8664};
//! every supported pair maps to exactly one named downloadable asset and an
//! archive kind (zip on Windows, gzipped tar elsewhere).

use vstd::prelude::*;

verus! {

/// Operating systems the host can report.
#[derive(Clone, Copy, PartialEq, Eq, Structural, Debug)]
pub enum Os {
    Mac,
    Linux,
    Windows,
}

/// CPU architectures the host can report.  Anything outside the two named
/// architectures is carried as `Other` and is unsupported.
#[derive(Clone, Copy, PartialEq, Eq, Structural, Debug)]
pub enum Arch {
    Aarch64,
    X8664,
    Other,
}

/// Archive formats a release asset can come in.
#[derive(Clone, Copy, PartialEq, Eq, Structural, Debug)]
pub enum ArchiveKind {
    GzipTar,
    Zip,
}

/// The asset filename for a platform pair, or `None` when the pair is
/// unsupported.
pub open spec fn asset_name_spec(os: Os, arch: Arch) -> Option<Seq<char>> {
    match (os, arch) {
        (Os::Mac, Arch::Aarch64) => Some("crates-lsp-aarch64-apple-darwin.tar.gz"@),
        (Os::Mac, Arch::X8664) => Some("crates-lsp-x86_64-apple-darwin.tar.gz"@),
        (Os::Linux, Arch::Aarch64) => Some("crates-lsp-aarch64-unknown-linux-gnu.tar.gz"@),
        (Os::Linux, Arch::X8664) => Some("crates-lsp-x86_64-unknown-linux-gnu.tar.gz"@),
        (Os::Windows, Arch::X8664) => Some("crates-lsp-x86_64-pc-windows-msvc.zip"@),
        _ => None,
    }
}

/// Whether an (operating system, architecture) pair has a published asset.
pub open spec fn supported(os: Os, arch: Arch) -> bool {
    asset_name_spec(os, arch) is Some
}

/// The archive kind used for an operating system: zip on Windows, gzipped tar
/// elsewhere.
pub open spec fn archive_kind_spec(os: Os) -> ArchiveKind {
    if os is Windows {
        ArchiveKind::Zip
    } else {
        ArchiveKind::GzipTar
    }
}

/// Maps a platform pair to its asset filename and archive kind; returns
/// `None` exactly on the unsupported pairs.
pub fn asset_for(os: Os, arch: Arch) -> (r: Option<(String, ArchiveKind)>)
    ensures
        match r {
            Some(t) => asset_name_spec(os, arch) == Some(t.0@) && t.1 == archive_kind_spec(os),
            None => !supported(os, arch),
        },
{
    match (os, arch) {
        (Os::Mac, Arch::Aarch64) => Some((
            String::from_str("crates-lsp-aarch64-apple-darwin.tar.gz"),
            ArchiveKind::GzipTar,
        )),
        (Os::Mac, Arch::X8664) => Some((
            String::from_str("crates-lsp-x86_64-apple-darwin.tar.gz"),
            ArchiveKind::GzipTar,
        )),
        (Os::Linux, Arch::Aarch64) => Some((
            String::from_str("crates-lsp-aarch64-unknown-linux-gnu.tar.gz"),
            ArchiveKind::GzipTar,
        )),
        (Os::Linux, Arch::X8664) => Some((
            String::from_str("crates-lsp-x86_64-unknown-linux-gnu.tar.gz"),
            ArchiveKind::GzipTar,
        )),
        (Os::Windows, Arch::X8664) => Some((
            String::from_str("crates-lsp-x86_64-pc-windows-msvc.zip"),
            ArchiveKind::Zip,
        )),
        _ => None,
    }
}

/// Asset-name mapping is injective within one operating system: two supported
/// pairs of the same operating system with the same asset filename have the
/// same architecture.
pub proof fn lemma_asset_names_injective_per_os(os: Os, a1: Arch, a2: Arch)
    requires
        supported(os, a1),
        supported(os, a2),
        asset_name_spec(os, a1) == asset_name_spec(os, a2),
    ensures
        a1 == a2,
{
    if a1 != a2 {
        match os {
            Os::Mac => {
                reveal_strlit("crates-lsp-aarch64-apple-darwin.tar.gz");
                reveal_strlit("crates-lsp-x86_64-apple-darwin.tar.gz");
                assert("crates-lsp-aarch64-apple-darwin.tar.gz"@.len() == 38);
                assert("crates-lsp-x86_64-apple-darwin.tar.gz"@.len() == 37);
            }
            Os::Linux => {
                reveal_strlit("crates-lsp-aarch64-unknown-linux-gnu.tar.gz");
                reveal_strlit("crates-lsp-x86_64-unknown-linux-gnu.tar.gz");
                assert("crates-lsp-aarch64-unknown-linux-gnu.tar.gz"@.len() == 43);
                assert("crates-lsp-x86_64-unknown-linux-gnu.tar.gz"@.len() == 42);
            }
            Os::Windows => {
                assert(a1 == Arch::X8664 && a2 == Arch::X8664);
            }
        }
    }
}

} // verus!
