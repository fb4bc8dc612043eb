//! Handing queued downloads over to TorBox while the account has free slots.

use vstd::prelude::*;
use crate::database::{apply_all, DbCommand, Download, DownloadState};
use crate::fs_path::{joined, FsPath};
use crate::text::{i64_to_string, signed_decimal};
use crate::torbox::request::Request;
use crate::torbox::usenet::{create_download_request, create_download_view, CreateDownloadData};
use crate::torbox::TorBoxApiState;

verus! {

/// Whether another download may be handed to TorBox while `active` downloads
/// are being grabbed and the account allows `max_downloads`: the limit is
/// compared as an unsigned size, so a negative limit wraps around to a huge
/// one and never stops the queue.
pub open spec fn has_room(active: usize, max_downloads: i32) -> bool {
    !(active >= (max_downloads as usize))
}

/// Whether another download may be handed to TorBox.
pub fn has_download_capacity(active: usize, max_downloads: i32) -> (res: bool)
    ensures
        res == has_room(active, max_downloads),
        max_downloads >= 0 ==> (res <==> active < max_downloads),
{
    let limit = max_downloads as usize;
    !(active >= limit)
}

/// How many of `queued` waiting downloads are handed to TorBox while `active`
/// downloads are being grabbed and the account allows `max_downloads`: as
/// many as fit below the limit, taken in order, and none once the limit is
/// reached. As in [`has_room`], the limit is compared as an unsigned size.
pub open spec fn start_count(active: usize, max_downloads: i32, queued: usize) -> int {
    let limit = max_downloads as usize;
    if active >= limit {
        0
    } else if queued <= limit - active {
        queued as int
    } else {
        limit - active
    }
}

/// How many queued downloads to hand to TorBox in this pass (see [`start_count`]).
pub fn downloads_to_start(active: usize, max_downloads: i32, queued: usize) -> (res: usize)
    ensures
        res == start_count(active, max_downloads, queued),
{
    let limit = max_downloads as usize;
    if active >= limit {
        0
    } else if queued <= limit - active {
        queued
    } else {
        limit - active
    }
}

/// The queue keeps within the account's limit: no more downloads are started
/// than are waiting, none when the account has no room, and when it has room
/// the downloads being grabbed afterwards do not exceed the limit; and when all
/// the waiting downloads fit, all of them are started.
pub proof fn lemma_queue_within_limit(active: usize, max_downloads: i32, queued: usize)
    ensures
        0 <= start_count(active, max_downloads, queued) <= queued,
        !has_room(active, max_downloads) ==> start_count(active, max_downloads, queued) == 0,
        has_room(active, max_downloads) ==> active + start_count(active, max_downloads, queued)
            <= (max_downloads as usize),
        max_downloads >= 0 ==> active + start_count(active, max_downloads, queued)
            <= if active >= max_downloads { active as int } else { max_downloads as int },
        has_room(active, max_downloads) && active + queued <= (max_downloads as usize)
            ==> start_count(active, max_downloads, queued) == queued,
{
}

/// The name of the temporary file a queued download's `.nzb` content is
/// written to: `tbh_{id}.nzb`.
pub open spec fn temp_nzb_file_name(id: i64) -> Seq<char> {
    "tbh_"@ + signed_decimal(id as int) + ".nzb"@
}

/// The name of the temporary `.nzb` file of a queued download.
pub fn temp_nzb_name(id: i64) -> (res: String)
    ensures
        res@ == temp_nzb_file_name(id),
{
    let mut s = String::new();
    s.append("tbh_");
    let digits = i64_to_string(id);
    s.append(digits.as_str());
    s.append(".nzb");
    proof {
        assert(s@ =~= temp_nzb_file_name(id));
    }
    s
}

/// How a queued download is handed to TorBox: its `.nzb` content is written
/// to a temporary file, which is uploaded with the create-download request.
pub struct QueuePlan {
    /// The temporary file the `.nzb` content is written to.
    pub temp_file: FsPath,
    /// The `.nzb` content.
    pub nzb: String,
    /// The create-download request that uploads the temporary file.
    pub request: Request<()>,
}

/// The plan for handing `download` to TorBox: the temporary file
/// `tbh_{id}.nzb` in `temp_dir`, and a create-download request that uploads it
/// under the download's name, with post-processing option 2, not queued and
/// not restricted to cached content.
pub fn queue_plan(download: &Download, temp_dir: &FsPath, state: &TorBoxApiState) -> (res: QueuePlan)
    ensures
        res.temp_file@ == joined(temp_dir@, temp_nzb_file_name(download.id)),
        res.nzb@ == download.nzb@,
        ({
            let expected = create_download_view(
                state@,
                Some(res.temp_file),
                None,
                Some(download.name),
                None,
                2,
                false,
                false,
            );
            res.request@ == expected
        }),
{
    let name = temp_nzb_name(download.id);
    let temp_file = temp_dir.join(name.as_str());
    let upload = temp_file.duplicate();
    let download_name = download.name.clone();
    let request = create_download_request(
        state,
        Some(upload),
        None,
        Some(download_name),
        None,
        2,
        false,
        false,
    );
    QueuePlan { temp_file, nzb: download.nzb.clone(), request }
}

/// The table updates once TorBox accepted a download: it is marked as being
/// grabbed and remembers the TorBox id it was given.
pub open spec fn accepted_updates(download: Download, created: CreateDownloadData) -> Seq<DbCommand> {
    seq![
        DbCommand::SetState { id: download.id, state: DownloadState::Grabbing },
        DbCommand::SetDownloadId { id: download.id, download_id: created.usenetdownload_id as i64 },
    ]
}

/// The table updates once TorBox accepted a download (see [`accepted_updates`]).
pub fn queued_updates(download: &Download, created: &CreateDownloadData) -> (res: Vec<DbCommand>)
    ensures
        res@ == accepted_updates(*download, *created),
{
    let mut updates: Vec<DbCommand> = Vec::new();
    updates.push(DbCommand::SetState { id: download.id, state: DownloadState::Grabbing });
    updates.push(
        DbCommand::SetDownloadId { id: download.id, download_id: created.usenetdownload_id as i64 },
    );
    proof {
        assert(updates@ =~= accepted_updates(*download, *created));
    }
    updates
}

/// A download TorBox accepted ends up being grabbed, remembering the TorBox id
/// it was given, with its retries reset, once the updates have been carried out.
pub proof fn lemma_accepted_download_is_grabbing(download: Download, created: CreateDownloadData, row: Download)
    requires
        row.id == download.id,
    ensures
        ({
            let after = apply_all(accepted_updates(download, created), row);
            &&& after.state == DownloadState::Grabbing
            &&& after.download_id == created.usenetdownload_id as i64
            &&& after.retries == 0
            &&& after.lock == row.lock
        }),
{
    reveal_with_fuel(apply_all, 3);
}

} // verus!
