//! Decisions about the files found while unpacking an archive: which are
//! videos, which are nested archives, how split archives are named, and what
//! each archive entry becomes.

use vstd::prelude::*;
use crate::fs_path::strings_view;
use crate::text::{
    chars_of, extension_of, file_extension, file_stem, lowercase_of, stem_of,
    str_equals, to_lowercase, two_digit_decimal, two_digit_string,
};

verus! {

/// The extensions of video files, in lowercase.
pub open spec fn video_extensions() -> Seq<Seq<char>> {
    seq![
        "mp4"@,
        "mkv"@,
        "avi"@,
        "mov"@,
        "wmv"@,
        "flv"@,
        "webm"@,
        "m4v"@,
        "mpg"@,
        "mpeg"@,
        "ts"@,
        "3gp"@,
        "ogv"@,
    ]
}

fn video_extension_list() -> (res: Vec<&'static str>)
    ensures
        res@.map_values(|s: &str| s@) == video_extensions(),
{
    let res = vec![
        "mp4",
        "mkv",
        "avi",
        "mov",
        "wmv",
        "flv",
        "webm",
        "m4v",
        "mpg",
        "mpeg",
        "ts",
        "3gp",
        "ogv",
    ];
    assert(res@.map_values(|s: &str| s@) =~= video_extensions());
    res
}

/// Whether the file named `file_name` is a video: its extension, lowercased,
/// is one of the video extensions.
pub open spec fn is_video_name(file_name: Seq<char>) -> bool {
    extension_of(file_name) matches Some(e) && video_extensions().contains(lowercase_of(e))
}

/// Whether a lowercase extension is one of the video extensions.
pub fn is_video_extension(lowercase_ext: &str) -> (res: bool)
    ensures
        res == video_extensions().contains(lowercase_ext@),
{
    let list = video_extension_list();
    let ghost listv = list@.map_values(|s: &str| s@);
    let mut i: usize = 0;
    while i < list.len()
        invariant
            i <= list.len(),
            listv == list@.map_values(|s: &str| s@),
            listv == video_extensions(),
            forall|k: int| 0 <= k < i ==> listv[k] != lowercase_ext@,
        decreases list.len() - i,
    {
        if str_equals(list[i], lowercase_ext) {
            assert(listv[i as int] == lowercase_ext@);
            return true;
        }
        i = i + 1;
    }
    false
}

/// Whether the file named `file_name` is a video file.
pub fn is_video_file(file_name: &str) -> (res: bool)
    ensures
        res == is_video_name(file_name@),
{
    match file_extension(file_name) {
        Some(ext) => {
            let lower = to_lowercase(ext.as_str());
            is_video_extension(lower.as_str())
        },
        None => false,
    }
}

/// Whether the file named `file_name` is a zip archive: its extension is
/// exactly `zip`.
pub open spec fn is_zip_name(file_name: Seq<char>) -> bool {
    extension_of(file_name) == Some("zip"@)
}

/// Whether the file named `file_name` is a zip archive.
pub fn is_zip_archive(file_name: &str) -> (res: bool)
    ensures
        res == is_zip_name(file_name@),
{
    match file_extension(file_name) {
        Some(ext) => str_equals(ext.as_str(), "zip"),
        None => false,
    }
}

/// The name of the `n`-th part of a split archive whose main file has stem
/// `stem`: `{stem}.z{n:02}`.
pub open spec fn part_file_name(stem: Seq<char>, n: nat) -> Seq<char> {
    stem + ".z"@ + two_digit_decimal(n)
}

/// The name of the `n`-th part of a split archive.
pub fn part_name(stem: &str, n: u64) -> (res: String)
    ensures
        res@ == part_file_name(stem@, n as nat),
{
    let mut s = String::new();
    s.append(stem);
    s.append(".z");
    let digits = two_digit_string(n);
    s.append(digits.as_str());
    proof {
        assert(s@ =~= part_file_name(stem@, n as nat));
    }
    s
}

/// The name of the first part that accompanies the archive named `zip_name`
/// when it is split: its stem followed by `.z01`.
pub fn first_part_name(zip_name: &str) -> (res: String)
    requires
        stem_of(zip_name@) is Some,
    ensures
        res@ == part_file_name(stem_of(zip_name@)->0, 1),
{
    match file_stem(zip_name) {
        Some(stem) => part_name(stem.as_str(), 1),
        None => String::new(),
    }
}

/// The files a split archive is joined from, in order: its `parts` parts
/// `{stem}.z01`, `{stem}.z02`, ... followed by the main archive `main`.
pub open spec fn merge_order(stem: Seq<char>, main: Seq<char>, parts: nat) -> Seq<Seq<char>> {
    Seq::new(parts, |i: int| part_file_name(stem, (i + 1) as nat)).push(main)
}

/// The files a split archive is joined from, in order (see [`merge_order`]),
/// given how many parts lie beside it, numbered from one without a gap.
pub fn merge_sources(stem: &str, main_name: &str, parts: usize) -> (res: Vec<String>)
    ensures
        strings_view(res@) == merge_order(stem@, main_name@, parts as nat),
{
    let mut res: Vec<String> = Vec::new();
    let mut i: usize = 0;
    proof {
        assert(strings_view(res@) =~= Seq::new(0, |k: int| part_file_name(stem@, (k + 1) as nat)));
    }
    while i < parts
        invariant
            i <= parts,
            strings_view(res@) == Seq::new(i as nat, |k: int| part_file_name(stem@, (k + 1) as nat)),
        decreases parts - i,
    {
        let name = part_name(stem, (i as u64) + 1);
        proof {
            assert(strings_view(res@.push(name)) =~= strings_view(res@).push(name@));
            assert(name@ == part_file_name(stem@, (i + 1) as nat));
            assert(strings_view(res@.push(name)) =~= Seq::new(
                (i + 1) as nat,
                |k: int| part_file_name(stem@, (k + 1) as nat),
            ));
        }
        res.push(name);
        i = i + 1;
    }
    let main = String::from_str(main_name);
    proof {
        assert(strings_view(res@.push(main)) =~= strings_view(res@).push(main@));
        assert(strings_view(res@.push(main)) =~= merge_order(stem@, main_name@, parts as nat));
    }
    res.push(main);
    res
}

/// The name of the archive that the parts of a split archive with stem `stem`
/// are joined into: `{stem}_merged.zip`.
pub open spec fn merged_file_name(stem: Seq<char>) -> Seq<char> {
    stem + "_merged.zip"@
}

/// The name of the archive the parts of a split archive are joined into.
pub fn merged_name(stem: &str) -> (res: String)
    ensures
        res@ == merged_file_name(stem@),
{
    let mut s = String::new();
    s.append(stem);
    s.append("_merged.zip");
    proof {
        assert(s@ =~= merged_file_name(stem@));
    }
    s
}

/// What becomes of an entry of an archive.
#[derive(Debug, Clone, Copy, PartialEq, Eq, Structural)]
pub enum ArchiveEntryKind {
    /// The entry's path would leave the output directory; it is skipped.
    Skip,
    /// The entry is a directory; it is created.
    Directory,
    /// The entry is a file; its parent directories are created and it is written.
    File,
}

/// What becomes of an archive entry whose path can be kept within the output
/// directory (`has_enclosed_path`) and whose raw name is `name`: skipped when
/// its path would escape, a directory when the name ends with `/`, and a file
/// otherwise.
pub open spec fn archive_entry_kind_of(has_enclosed_path: bool, name: Seq<char>) -> ArchiveEntryKind {
    if !has_enclosed_path {
        ArchiveEntryKind::Skip
    } else if name.len() > 0 && name.last() == '/' {
        ArchiveEntryKind::Directory
    } else {
        ArchiveEntryKind::File
    }
}

/// What becomes of an archive entry.
pub fn archive_entry_kind(has_enclosed_path: bool, name: &str) -> (res: ArchiveEntryKind)
    ensures
        res == archive_entry_kind_of(has_enclosed_path, name@),
        res == ArchiveEntryKind::Skip <==> !has_enclosed_path,
        has_enclosed_path && name@.len() > 0 && name@.last() == '/' ==> res
            == ArchiveEntryKind::Directory,
        has_enclosed_path && !(name@.len() > 0 && name@.last() == '/') ==> res
            == ArchiveEntryKind::File,
{
    if !has_enclosed_path {
        return ArchiveEntryKind::Skip;
    }
    let chars = chars_of(name);
    if chars.len() > 0 && chars[chars.len() - 1] == '/' {
        ArchiveEntryKind::Directory
    } else {
        ArchiveEntryKind::File
    }
}

/// What the scan for nested archives does with a directory entry.
#[derive(Debug, Clone, Copy, PartialEq, Eq, Structural)]
pub enum NestedScanStep {
    /// A zip archive to unpack in place.
    CollectArchive,
    /// A directory to scan in turn.
    Descend,
    /// Anything else; left as it is.
    Skip,
}

/// What the scan for nested archives does with an entry that is a regular file
/// (`is_file`) or a directory (`is_dir`) and is named `file_name`.
pub open spec fn nested_scan_step_of(is_file: bool, is_dir: bool, file_name: Option<Seq<char>>) -> NestedScanStep {
    if is_file {
        if file_name matches Some(n) && is_zip_name(n) {
            NestedScanStep::CollectArchive
        } else {
            NestedScanStep::Skip
        }
    } else if is_dir {
        NestedScanStep::Descend
    } else {
        NestedScanStep::Skip
    }
}

/// What the scan for nested archives does with a directory entry.
pub fn nested_scan_step(is_file: bool, is_dir: bool, file_name: Option<&str>) -> (res: NestedScanStep)
    ensures
        res == nested_scan_step_of(
            is_file,
            is_dir,
            match file_name {
                Some(n) => Some(n@),
                None => None,
            },
        ),
{
    if is_file {
        match file_name {
            Some(n) => {
                if is_zip_archive(n) {
                    NestedScanStep::CollectArchive
                } else {
                    NestedScanStep::Skip
                }
            },
            None => NestedScanStep::Skip,
        }
    } else if is_dir {
        NestedScanStep::Descend
    } else {
        NestedScanStep::Skip
    }
}

/// What moving the video files out of an extracted tree does with an entry.
#[derive(Debug, Clone, Copy, PartialEq, Eq, Structural)]
pub enum FlattenStep {
    /// A directory to search in turn.
    Descend,
    /// A video file to move into the destination under its own name, replacing
    /// a file of that name.
    MoveVideo,
    /// Anything else; left where it is.
    Skip,
}

/// What moving the video files out does with an entry that is a directory
/// (`is_dir`) or a regular file (`is_file`) and is named `file_name`.
pub open spec fn flatten_step_of(is_dir: bool, is_file: bool, file_name: Option<Seq<char>>) -> FlattenStep {
    if is_dir {
        FlattenStep::Descend
    } else if is_file && (file_name matches Some(n) && is_video_name(n)) {
        FlattenStep::MoveVideo
    } else {
        FlattenStep::Skip
    }
}

/// What moving the video files out does with an entry.
pub fn flatten_step(is_dir: bool, is_file: bool, file_name: Option<&str>) -> (res: FlattenStep)
    ensures
        res == flatten_step_of(
            is_dir,
            is_file,
            match file_name {
                Some(n) => Some(n@),
                None => None,
            },
        ),
        is_dir ==> res == FlattenStep::Descend,
        !is_dir && is_file && file_name is Some ==> (res == FlattenStep::MoveVideo
            <==> is_video_name(file_name->0@)),
        !is_dir && (!is_file || file_name is None) ==> res == FlattenStep::Skip,
{
    if is_dir {
        FlattenStep::Descend
    } else if is_file {
        match file_name {
            Some(n) => {
                if is_video_file(n) {
                    FlattenStep::MoveVideo
                } else {
                    FlattenStep::Skip
                }
            },
            None => FlattenStep::Skip,
        }
    } else {
        FlattenStep::Skip
    }
}

/// The most passes the scan for nested archives makes over a directory.
pub const NESTED_SCAN_MAX_PASSES: u32 = 5;

/// Whether the scan for nested archives makes another pass over a directory
/// after pass `pass` (counted from zero): only when that pass unpacked an
/// archive, since it may have brought out further archives, and never beyond
/// [`NESTED_SCAN_MAX_PASSES`] passes.
pub fn rescan_nested(pass: u32, unpacked_any: bool) -> (res: bool)
    ensures
        res == (unpacked_any && pass + 1 < NESTED_SCAN_MAX_PASSES),
{
    unpacked_any && pass < NESTED_SCAN_MAX_PASSES - 1
}

/// How a nested archive is unpacked.
#[derive(Debug, Clone, Copy, PartialEq, Eq, Structural)]
pub enum NestedArchiveMethod {
    /// Its parts (`.z01`, `.z02`, ...) are joined with it into one archive,
    /// which is unpacked beside it.
    CombineParts,
    /// It is unpacked beside it as it is.
    ExtractInPlace,
}

/// How a nested archive is unpacked: as a split archive when its first part
/// lies beside it, else on its own.
pub open spec fn nested_archive_method_of(first_part_exists: bool) -> NestedArchiveMethod {
    if first_part_exists {
        NestedArchiveMethod::CombineParts
    } else {
        NestedArchiveMethod::ExtractInPlace
    }
}

/// How a nested archive is unpacked (see [`nested_archive_method_of`]).
pub fn nested_archive_method(first_part_exists: bool) -> (res: NestedArchiveMethod)
    ensures
        res == nested_archive_method_of(first_part_exists),
{
    if first_part_exists {
        NestedArchiveMethod::CombineParts
    } else {
        NestedArchiveMethod::ExtractInPlace
    }
}

/// What follows the unpacking of a nested archive.
#[derive(Debug, Clone, Copy, PartialEq, Eq, Structural)]
pub enum NestedArchiveFollowUp {
    /// The archive is removed; a failure of that ends the whole extraction.
    RemoveArchive,
    /// The whole extraction fails with the unpacking error.
    Abort,
    /// The archive is left where it is, with a warning, and the scan goes on.
    KeepArchive,
}

/// What follows the unpacking of a nested archive: after success it is
/// removed; a split archive that could not be joined or unpacked ends the
/// extraction, while an archive that could not be unpacked on its own is kept.
pub open spec fn nested_archive_follow_up_of(
    method: NestedArchiveMethod,
    unpacked: bool,
) -> NestedArchiveFollowUp {
    if unpacked {
        NestedArchiveFollowUp::RemoveArchive
    } else if method == NestedArchiveMethod::CombineParts {
        NestedArchiveFollowUp::Abort
    } else {
        NestedArchiveFollowUp::KeepArchive
    }
}

/// What follows the unpacking of a nested archive (see [`nested_archive_follow_up_of`]).
pub fn nested_archive_follow_up(method: NestedArchiveMethod, unpacked: bool) -> (res:
    NestedArchiveFollowUp)
    ensures
        res == nested_archive_follow_up_of(method, unpacked),
        res == NestedArchiveFollowUp::RemoveArchive <==> unpacked,
        !unpacked && method == NestedArchiveMethod::CombineParts ==> res
            == NestedArchiveFollowUp::Abort,
        !unpacked && method == NestedArchiveMethod::ExtractInPlace ==> res
            == NestedArchiveFollowUp::KeepArchive,
{
    if unpacked {
        NestedArchiveFollowUp::RemoveArchive
    } else {
        match method {
            NestedArchiveMethod::CombineParts => NestedArchiveFollowUp::Abort,
            NestedArchiveMethod::ExtractInPlace => NestedArchiveFollowUp::KeepArchive,
        }
    }
}

/// The number of passes the scan for nested archives makes when pass `k`
/// (counted from zero) unpacks an archive exactly when `unpacked(k)` holds.
pub open spec fn nested_scan_passes(unpacked: spec_fn(nat) -> bool, from: nat) -> nat
    decreases NESTED_SCAN_MAX_PASSES - from,
{
    if from + 1 < NESTED_SCAN_MAX_PASSES && unpacked(from) {
        nested_scan_passes(unpacked, from + 1)
    } else {
        from + 1
    }
}

/// The scan for nested archives always ends: it makes at least one pass and
/// never more than [`NESTED_SCAN_MAX_PASSES`], and it stops after the first
/// pass that unpacks nothing.
pub proof fn lemma_nested_scan_bounded(unpacked: spec_fn(nat) -> bool, from: nat)
    requires
        from < NESTED_SCAN_MAX_PASSES,
    ensures
        from < nested_scan_passes(unpacked, from) <= NESTED_SCAN_MAX_PASSES,
        !unpacked(from) ==> nested_scan_passes(unpacked, from) == from + 1,
    decreases NESTED_SCAN_MAX_PASSES - from,
{
    if from + 1 < NESTED_SCAN_MAX_PASSES && unpacked(from) {
        lemma_nested_scan_bounded(unpacked, from + 1);
    }
}

/// An archive entry is skipped exactly when its path would leave the output
/// directory; every other entry is written out, as a directory when its name
/// ends with `/` and as a file otherwise, wherever it lies in the archive.
pub proof fn lemma_archive_entries_kept(has_enclosed_path: bool, name: Seq<char>)
    ensures
        archive_entry_kind_of(has_enclosed_path, name) == ArchiveEntryKind::Skip
            <==> !has_enclosed_path,
        has_enclosed_path ==> (archive_entry_kind_of(has_enclosed_path, name)
            == ArchiveEntryKind::Directory <==> (name.len() > 0 && name.last() == '/')),
        has_enclosed_path ==> (archive_entry_kind_of(has_enclosed_path, name)
            == ArchiveEntryKind::File <==> !(name.len() > 0 && name.last() == '/')),
{
}

/// Moving the video files out agrees with the video test: a regular file is
/// moved exactly when [`is_video_file`] holds of its name, and whether a name
/// is a video depends on its extension only up to case.
pub proof fn lemma_flatten_moves_videos(name: Seq<char>, other: Seq<char>)
    ensures
        flatten_step_of(false, true, Some(name)) == FlattenStep::MoveVideo <==> is_video_name(name),
        flatten_step_of(false, true, Some(name)) == FlattenStep::Skip <==> !is_video_name(name),
        (extension_of(name) matches Some(e) && extension_of(other) matches Some(f) && lowercase_of(e)
            == lowercase_of(f)) ==> is_video_name(name) == is_video_name(other),
        is_video_name(name) ==> (extension_of(name) matches Some(e) && video_extensions().contains(
            lowercase_of(e),
        )),
{
}

/// After unpacking a nested archive, it is removed exactly when the unpacking
/// succeeded, whichever way it was unpacked; a failure ends the extraction for
/// a split archive and leaves a single archive in place.
pub proof fn lemma_unpacked_archives_removed(method: NestedArchiveMethod, unpacked: bool)
    ensures
        nested_archive_follow_up_of(method, unpacked) == NestedArchiveFollowUp::RemoveArchive
            <==> unpacked,
        nested_archive_follow_up_of(NestedArchiveMethod::CombineParts, false)
            == NestedArchiveFollowUp::Abort,
        nested_archive_follow_up_of(NestedArchiveMethod::ExtractInPlace, false)
            == NestedArchiveFollowUp::KeepArchive,
{
}

} // verus!
