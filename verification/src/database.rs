//! The download records kept in the database, the encoding of their states in
//! the table, and the updates the processors issue against them.

use vstd::prelude::*;

verus! {

/// Defines the state of a download.
#[derive(Debug, Clone, Copy, PartialEq, Eq, Structural)]
pub enum DownloadState {
    /// Download is queued
    Queued,
    /// Download is currently being prepared by torbox
    Grabbing,
    /// File is ready to be downloaded from torbox
    Ready,
    /// File is currently downloading to the target directory
    Downloading,
    /// File has been downloaded successfully
    Completed,
    /// The download has failed on local or torbox's end
    Failed,
    /// Files are currently being extracted from the zip file
    Extracting,
    /// Files have been extracted and the download is complete
    Extracted,
}

/// The integer a state is stored as in the `state` column.
pub open spec fn state_code(state: DownloadState) -> int {
    match state {
        DownloadState::Queued => 0,
        DownloadState::Grabbing => 1,
        DownloadState::Ready => 2,
        DownloadState::Downloading => 3,
        DownloadState::Completed => 4,
        DownloadState::Failed => 5,
        DownloadState::Extracting => 6,
        DownloadState::Extracted => 7,
    }
}

/// The state a stored integer stands for, if any.
pub open spec fn state_of_code(code: int) -> Option<DownloadState> {
    if code == 0 {
        Some(DownloadState::Queued)
    } else if code == 1 {
        Some(DownloadState::Grabbing)
    } else if code == 2 {
        Some(DownloadState::Ready)
    } else if code == 3 {
        Some(DownloadState::Downloading)
    } else if code == 4 {
        Some(DownloadState::Completed)
    } else if code == 5 {
        Some(DownloadState::Failed)
    } else if code == 6 {
        Some(DownloadState::Extracting)
    } else if code == 7 {
        Some(DownloadState::Extracted)
    } else {
        None
    }
}

impl DownloadState {
    /// The integer this state is stored as.
    pub fn to_i32(&self) -> (res: i32)
        ensures
            res == state_code(*self),
    {
        match self {
            DownloadState::Queued => 0,
            DownloadState::Grabbing => 1,
            DownloadState::Ready => 2,
            DownloadState::Downloading => 3,
            DownloadState::Completed => 4,
            DownloadState::Failed => 5,
            DownloadState::Extracting => 6,
            DownloadState::Extracted => 7,
        }
    }

    /// The state a stored integer stands for; `None` for integers outside `0..=7`.
    pub fn from_i64(code: i64) -> (res: Option<DownloadState>)
        ensures
            res == state_of_code(code as int),
    {
        if code == 0 {
            Some(DownloadState::Queued)
        } else if code == 1 {
            Some(DownloadState::Grabbing)
        } else if code == 2 {
            Some(DownloadState::Ready)
        } else if code == 3 {
            Some(DownloadState::Downloading)
        } else if code == 4 {
            Some(DownloadState::Completed)
        } else if code == 5 {
            Some(DownloadState::Failed)
        } else if code == 6 {
            Some(DownloadState::Extracting)
        } else if code == 7 {
            Some(DownloadState::Extracted)
        } else {
            None
        }
    }
}

/// Decoding a stored state gives back the state that was stored.
pub proof fn lemma_state_code_round_trip(state: DownloadState)
    ensures
        state_of_code(state_code(state)) == Some(state),
{
}

/// An integer decodes to a state exactly when it lies in `0..=7`, and then it
/// is the integer that state is stored as; so distinct states are stored as
/// distinct integers.
pub proof fn lemma_state_code_decoding(code: int)
    ensures
        state_of_code(code) is Some <==> 0 <= code <= 7,
        state_of_code(code) matches Some(s) ==> state_code(s) == code,
{
}

/// Download database model definition.
#[derive(Debug, Clone)]
pub struct Download {
    /// Generated download ID
    pub id: i64,
    /// Original .nzb file name for manual investigation
    pub name: String,
    /// Content of .nzb file to be downloaded
    pub nzb: String,
    /// Progress of download on torbox, as the bit pattern of the stored 32-bit float
    pub progress_bits: u32,
    /// Torbox download ID
    pub download_id: i64,
    /// Amount of times the download has been retried (resets on state change)
    pub retries: i64,
    /// If true, the download is currently locked due to file operations in other threads
    pub lock: bool,
    /// State of the download
    pub state: DownloadState,
}

/// The columns of a `downloads` row as they are read from the table.
#[derive(Debug, Clone)]
pub struct DownloadRow {
    pub id: i64,
    pub name: String,
    pub nzb: String,
    pub progress_bits: u32,
    pub download_id: i64,
    pub retries: i64,
    pub lock: i32,
    pub state: i64,
}

impl Download {
    /// Decodes a row: the lock column holds `1` when locked, the state column
    /// holds a state's code.
    pub fn from_row(row: DownloadRow) -> (res: Download)
        requires
            state_of_code(row.state as int) is Some,
        ensures
            res.id == row.id,
            res.name == row.name,
            res.nzb == row.nzb,
            res.progress_bits == row.progress_bits,
            res.download_id == row.download_id,
            res.retries == row.retries,
            res.lock == (row.lock == 1),
            Some(res.state) == state_of_code(row.state as int),
    {
        let state = match DownloadState::from_i64(row.state) {
            Some(s) => s,
            None => DownloadState::Queued,
        };
        Download {
            id: row.id,
            name: row.name,
            nzb: row.nzb,
            progress_bits: row.progress_bits,
            download_id: row.download_id,
            retries: row.retries,
            lock: row.lock == 1,
            state,
        }
    }
}

/// An update of the `downloads` table.
#[derive(Debug, Clone)]
pub enum DbCommand {
    /// Inserts a new download with the given name and `.nzb` content; the
    /// values not given are set to their defaults (see [`inserted_row`]): the
    /// download is queued, unlocked, without progress, TorBox id or retries.
    CreateDownload { name: String, nzb: String },
    /// Sets the state of a download, which resets its retries.
    SetState { id: i64, state: DownloadState },
    /// Sets the TorBox download id of a download.
    SetDownloadId { id: i64, download_id: i64 },
    /// Sets the retries of a download.
    SetRetries { id: i64, retries: i64 },
    /// Sets the lock of a download.
    SetLock { id: i64, lock: bool },
}

/// The row that `command` inserts when the table gives it the id `id`: a
/// [`DbCommand::CreateDownload`] inserts a queued download with its name and
/// content, progress 0, TorBox download id 0, no retries and no lock; the
/// other commands insert nothing.
pub open spec fn inserted_row(command: DbCommand, id: i64) -> Option<Download> {
    match command {
        DbCommand::CreateDownload { name, nzb } => Some(
            Download {
                id,
                name,
                nzb,
                progress_bits: 0,
                download_id: 0,
                retries: 0,
                lock: false,
                state: DownloadState::Queued,
            },
        ),
        _ => None,
    }
}

/// The row `row` after `command` has been carried out on the table: an update
/// addressed to another id leaves it unchanged, and an insertion creates a new
/// row.
pub open spec fn apply_to_row(command: DbCommand, row: Download) -> Download {
    match command {
        DbCommand::SetState { id, state } => if id == row.id {
            Download { state, retries: 0, ..row }
        } else {
            row
        },
        DbCommand::SetDownloadId { id, download_id } => if id == row.id {
            Download { download_id, ..row }
        } else {
            row
        },
        DbCommand::SetRetries { id, retries } => if id == row.id {
            Download { retries, ..row }
        } else {
            row
        },
        DbCommand::SetLock { id, lock } => if id == row.id {
            Download { lock, ..row }
        } else {
            row
        },
        DbCommand::CreateDownload { .. } => row,
    }
}

/// The row `row` after all of `commands` have been carried out, in order.
pub open spec fn apply_all(commands: Seq<DbCommand>, row: Download) -> Download
    decreases commands.len(),
{
    if commands.len() == 0 {
        row
    } else {
        apply_all(commands.drop_first(), apply_to_row(commands[0], row))
    }
}

/// Carrying out two lists of commands one after the other has the effect of
/// their concatenation.
pub proof fn lemma_apply_all_concat(a: Seq<DbCommand>, b: Seq<DbCommand>, row: Download)
    ensures
        apply_all(a + b, row) == apply_all(b, apply_all(a, row)),
    decreases a.len(),
{
    if a.len() > 0 {
        assert((a + b).drop_first() =~= a.drop_first() + b);
        lemma_apply_all_concat(a.drop_first(), b, apply_to_row(a[0], row));
    } else {
        assert(a + b =~= b);
    }
}

/// Changing the state of a download resets its retry count.
pub proof fn lemma_state_change_resets_retries(id: i64, state: DownloadState, row: Download)
    requires
        row.id == id,
    ensures
        apply_to_row(DbCommand::SetState { id, state }, row).state == state,
        apply_to_row(DbCommand::SetState { id, state }, row).retries == 0,
        apply_to_row(DbCommand::SetState { id, state }, row).lock == row.lock,
{
}

/// A table update together with what a failure of it does: abort the work in
/// progress, or be ignored.
#[derive(Debug, Clone)]
pub struct DbStep {
    pub command: DbCommand,
    pub ignore_failure: bool,
}

} // verus!
