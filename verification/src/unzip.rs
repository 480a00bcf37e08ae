use vstd::prelude::*;
use crate::filenamechunker::{extension, path_extension, path_with_extension, with_extension};
use crate::text::same_text;

verus! {

/// What the file an archive unzips to is.
#[derive(Clone, Copy, Debug, PartialEq, Eq, Structural)]
pub enum UnzipTarget {
    /// It has no extension: nothing to do.
    NoExtension,
    /// It is not a `.pgn` file: skip it.
    NotPgn,
    /// It is a `.pgn` file.
    Pgn,
}

/// The path an archive unzips to: the archive's path without its last extension
/// (`x.pgn.zst` gives `x.pgn`).
pub open spec fn unzipped_path(path: Seq<char>) -> Seq<char> {
    path_with_extension(path, ""@)
}

/// What the unzipped file is, by its extension.
pub open spec fn spec_unzip_kind(path: Seq<char>) -> UnzipTarget {
    match path_extension(unzipped_path(path)) {
        None => UnzipTarget::NoExtension,
        Some(e) => if e == "pgn"@ {
            UnzipTarget::Pgn
        } else {
            UnzipTarget::NotPgn
        },
    }
}

/// The path an archive unzips to and what file that is; only `.pgn.zst` archives are
/// unzipped.
pub fn unzip_target(path: &str) -> (r: (String, UnzipTarget))
    ensures
        r.0@ == unzipped_path(path@),
        r.1 == spec_unzip_kind(path@),
        r.1 == UnzipTarget::Pgn <==> path_extension(r.0@) == Some("pgn"@),
        r.1 == UnzipTarget::NoExtension <==> path_extension(r.0@) is None,
{
    proof {
        reveal_strlit("");
    }
    let target = with_extension(path, "");
    let kind = match extension(target.as_str()) {
        None => UnzipTarget::NoExtension,
        Some(e) => if same_text(e.as_str(), "pgn") {
            UnzipTarget::Pgn
        } else {
            UnzipTarget::NotPgn
        },
    };
    proof {
        lemma_unzip_kind(path@);
    }
    (target, kind)
}

/// What an archive is taken for is read off the path it unzips to: a `.pgn` file exactly
/// when that path has the extension `pgn`, and nothing to do exactly when it has none.
pub proof fn lemma_unzip_kind(path: Seq<char>)
    ensures
        spec_unzip_kind(path) == UnzipTarget::Pgn <==> path_extension(unzipped_path(path))
            == Some("pgn"@),
        spec_unzip_kind(path) == UnzipTarget::NoExtension <==> path_extension(
            unzipped_path(path),
        ) is None,
{
}

/// Whether to unzip: when the unzipped file does not exist yet, or when forced.
pub fn unzip_needed(present: bool, force: bool) -> (b: bool)
    ensures
        b == (!present || force),
{
    !present || force
}

} // verus!
