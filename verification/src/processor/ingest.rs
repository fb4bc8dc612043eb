//! Turning `.nzb` files found in the ingest directory into queued downloads.

use vstd::prelude::*;
use crate::database::{inserted_row, DbCommand, DownloadState};
use crate::text::{
    extension_of, file_extension, is_dot_component, last_dot, replace_all, replaced, str_equals,
};

verus! {

/// The name a download gets when its file has no usable name.
pub const FALLBACK_FILE_NAME: &'static str = "Unknown file name";

/// The name of the download made from a file named `file_name` (or the
/// fallback name when it has none): every occurrence of `.nzb` is removed.
pub open spec fn ingest_name_of(file_name: Option<Seq<char>>) -> Seq<char> {
    replaced(
        match file_name {
            Some(n) => n,
            None => FALLBACK_FILE_NAME@,
        },
        ".nzb"@,
        Seq::empty(),
    )
}

/// The name of the download made from a file.
pub fn ingest_name(file_name: Option<&str>) -> (res: String)
    ensures
        res@ == ingest_name_of(
            match file_name {
                Some(n) => Some(n@),
                None => None,
            },
        ),
{
    proof {
        reveal_strlit(".nzb");
        reveal_strlit("");
        assert(""@ =~= Seq::<char>::empty());
    }
    let source = match file_name {
        Some(n) => n,
        None => FALLBACK_FILE_NAME,
    };
    replace_all(source, ".nzb", "")
}

/// The table update that records a file found in the ingest directory: the
/// insertion of a new download named after the file, holding its content,
/// which starts queued, unlocked, without progress, TorBox id or retries.
pub fn ingest_update(file_name: Option<&str>, content: String) -> (res: DbCommand)
    ensures
        res matches DbCommand::CreateDownload { name, nzb } && name@ == ingest_name_of(
            match file_name {
                Some(n) => Some(n@),
                None => None,
            },
        ) && nzb == content,
        forall|id: i64|
            #[trigger] inserted_row(res, id) matches Some(row) && {
                &&& row.id == id
                &&& row.name@ == ingest_name_of(
                    match file_name {
                        Some(n) => Some(n@),
                        None => None,
                    },
                )
                &&& row.nzb == content
                &&& row.state == DownloadState::Queued
                &&& row.progress_bits == 0
                &&& row.download_id == 0
                &&& row.retries == 0
                &&& !row.lock
            },
{
    DbCommand::CreateDownload { name: ingest_name(file_name), nzb: content }
}

/// Whether the file named `file_name` is an `.nzb` file: its extension is
/// exactly `nzb`.
pub open spec fn is_nzb_name(file_name: Seq<char>) -> bool {
    extension_of(file_name) == Some("nzb"@)
}

/// Whether a file found in the ingest directory is an `.nzb` file to ingest.
pub fn is_nzb_file(file_name: &str) -> (res: bool)
    ensures
        res == is_nzb_name(file_name@),
        res <==> extension_of(file_name@) == Some("nzb"@),
{
    match file_extension(file_name) {
        Some(ext) => str_equals(ext.as_str(), "nzb"),
        None => false,
    }
}

/// Whether a file is an `.nzb` file depends on its extension alone: a name is
/// one exactly when its extension is `nzb`, and any non-empty name followed by
/// `.nzb` is one, whatever characters it holds.
pub proof fn lemma_nzb_names(name: Seq<char>, stem: Seq<char>)
    requires
        stem.len() > 0,
    ensures
        is_nzb_name(name) <==> extension_of(name) == Some("nzb"@),
        is_nzb_name(stem + ".nzb"@),
{
    reveal_strlit(".nzb");
    reveal_strlit("nzb");
    let full = stem + ".nzb"@;
    let n: int = stem.len() as int;
    assert(full.len() == n + 4);
    assert(full.drop_last() =~= stem + seq!['.', 'n', 'z']);
    assert((stem + seq!['.', 'n', 'z']).drop_last() =~= stem + seq!['.', 'n']);
    assert((stem + seq!['.', 'n']).drop_last() =~= stem + seq!['.']);
    let s3 = stem + seq!['.', 'n', 'z'];
    let s2 = stem + seq!['.', 'n'];
    let s1 = stem + seq!['.'];
    assert(s1.last() == '.' && s1.len() == n + 1);
    assert(last_dot(s1) == n);
    assert(s2.last() == 'n' && s2.len() > 0);
    assert(last_dot(s2) == last_dot(s1));
    assert(s3.last() == 'z' && s3.len() > 0);
    assert(last_dot(s3) == last_dot(s2));
    assert(full.last() == 'b' && full.len() > 0);
    assert(last_dot(full) == last_dot(s3));
    assert(last_dot(full) == n);
    assert(!is_dot_component(full)) by {
        assert(full.len() != 0 && full.len() != 1 && full.len() != 2);
    }
    assert(full.skip(n + 1 as int) =~= "nzb"@);
}

} // verus!
