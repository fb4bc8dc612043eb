//! Extracting downloaded archives and moving the video files they hold to the
//! output directory.

use vstd::prelude::*;
use crate::database::{apply_all, lemma_apply_all_concat, DbCommand, DbStep, Download, DownloadState};
use crate::fs_path::{
    is_sanitized_from, joined, path_text, plain_name, sanitize, without_unsafe_chars, FsPath,
    FsPathView,
};
use crate::processor::download::{
    archive_name, archive_path, download_events, download_next, download_trace, step_commands,
    DownloadActionView, DownloadJobView, DownloadPhase,
};

verus! {

/// The name of the scratch directory a download is extracted into:
/// `_temp_` followed by the sanitized download name.
pub open spec fn scratch_dir_name(sanitized: Seq<char>) -> Seq<char> {
    "_temp_"@ + sanitized
}

/// The name of the scratch directory a download is extracted into.
pub fn scratch_name(sanitized: &str) -> (res: String)
    ensures
        res@ == scratch_dir_name(sanitized@),
{
    let mut s = String::new();
    s.append("_temp_");
    s.append(sanitized);
    proof {
        assert(s@ =~= scratch_dir_name(sanitized@));
    }
    s
}

/// Where an extraction job stands.
#[derive(Debug, Clone, Copy, PartialEq, Eq, Structural)]
pub enum ExtractPhase {
    /// Nothing has been done yet.
    Start,
    /// Waiting to learn whether the archive exists.
    AwaitingArchiveCheck,
    /// Waiting to learn whether the scratch directory exists.
    AwaitingScratchCheck,
    /// The scratch directory is being prepared.
    AwaitingPreparation,
    /// The archive is being extracted.
    AwaitingExtraction,
    /// The video files are being moved out.
    AwaitingFlatten,
    /// The job has finished.
    Finished,
}

/// Why an extraction job failed.
#[derive(Debug, Clone)]
pub enum ExtractError {
    /// The archive is not where it was downloaded to.
    ArchiveMissing(FsPath),
    /// The scratch directory could not be cleared or created.
    PreparationFailed(String),
    /// Extracting the archive failed.
    ExtractionFailed(String),
    /// Moving the video files out failed.
    FlattenFailed(String),
}

/// The abstract content of an extraction error.
pub enum ExtractErrorView {
    ArchiveMissing(FsPathView),
    PreparationFailed(Seq<char>),
    ExtractionFailed(Seq<char>),
    FlattenFailed(Seq<char>),
}

impl View for ExtractError {
    type V = ExtractErrorView;

    open spec fn view(&self) -> ExtractErrorView {
        match self {
            ExtractError::ArchiveMissing(p) => ExtractErrorView::ArchiveMissing(p@),
            ExtractError::PreparationFailed(e) => ExtractErrorView::PreparationFailed(e@),
            ExtractError::ExtractionFailed(e) => ExtractErrorView::ExtractionFailed(e@),
            ExtractError::FlattenFailed(e) => ExtractErrorView::FlattenFailed(e@),
        }
    }
}

/// The text an extraction error is reported with.
pub open spec fn extract_error_message(e: ExtractErrorView) -> Seq<char> {
    match e {
        ExtractErrorView::ArchiveMissing(p) => "File not found: "@ + path_text(p),
        ExtractErrorView::PreparationFailed(m) => m,
        ExtractErrorView::ExtractionFailed(m) => "Failed to extract file: "@ + m,
        ExtractErrorView::FlattenFailed(m) => "Failed to flatten files: "@ + m,
    }
}

impl ExtractError {
    /// The message this error is reported with: the missing archive's path,
    /// the error of preparing the scratch directory as it is, or the error of
    /// extracting or of moving the files out after a short description.
    pub fn message(&self) -> (res: String)
        ensures
            res@ == extract_error_message(self@),
    {
        let mut s = String::new();
        match self {
            ExtractError::ArchiveMissing(p) => {
                s.append("File not found: ");
                let text = p.display_text();
                s.append(text.as_str());
            },
            ExtractError::PreparationFailed(m) => {
                s.append(m.as_str());
            },
            ExtractError::ExtractionFailed(m) => {
                s.append("Failed to extract file: ");
                s.append(m.as_str());
            },
            ExtractError::FlattenFailed(m) => {
                s.append("Failed to flatten files: ");
                s.append(m.as_str());
            },
        }
        proof {
            assert(s@ =~= extract_error_message(self@));
        }
        s
    }
}

/// What the caller reports back to an extraction job.
pub enum ExtractEvent {
    /// The job is to begin.
    Begin,
    /// Whether the archive exists.
    ArchiveChecked(bool),
    /// Whether the scratch directory exists.
    ScratchChecked(bool),
    /// The outcome of preparing the scratch directory.
    ScratchPrepared(Result<(), String>),
    /// The outcome of extracting the archive into the scratch directory.
    Extracted(Result<(), String>),
    /// The outcome of moving the video files out of the scratch directory.
    Flattened(Result<(), String>),
}

/// The abstract content of an extraction event.
pub enum ExtractEventView {
    Begin,
    ArchiveChecked(bool),
    ScratchChecked(bool),
    ScratchPrepared(Result<(), Seq<char>>),
    Extracted(Result<(), Seq<char>>),
    Flattened(Result<(), Seq<char>>),
}

/// The abstract content of the outcome of a step.
pub open spec fn result_view(r: Result<(), String>) -> Result<(), Seq<char>> {
    match r {
        Ok(()) => Ok(()),
        Err(e) => Err(e@),
    }
}

impl View for ExtractEvent {
    type V = ExtractEventView;

    open spec fn view(&self) -> ExtractEventView {
        match self {
            ExtractEvent::Begin => ExtractEventView::Begin,
            ExtractEvent::ArchiveChecked(b) => ExtractEventView::ArchiveChecked(*b),
            ExtractEvent::ScratchChecked(b) => ExtractEventView::ScratchChecked(*b),
            ExtractEvent::ScratchPrepared(r) => ExtractEventView::ScratchPrepared(result_view(*r)),
            ExtractEvent::Extracted(r) => ExtractEventView::Extracted(result_view(*r)),
            ExtractEvent::Flattened(r) => ExtractEventView::Flattened(result_view(*r)),
        }
    }
}

/// What an extraction job asks the caller to do, in order.
pub enum ExtractAction {
    /// Carry out a table update; if it fails, the job fails with that error.
    Update(DbCommand),
    /// Report whether the archive exists, as [`ExtractEvent::ArchiveChecked`].
    CheckArchive(FsPath),
    /// Report whether the scratch directory exists, as [`ExtractEvent::ScratchChecked`].
    CheckScratch(FsPath),
    /// Remove the scratch directory with its content first when `clear` is set,
    /// then create it; report the outcome as [`ExtractEvent::ScratchPrepared`].
    PrepareScratch { path: FsPath, clear: bool },
    /// Extract `archive` into `into`, including nested archives; report the
    /// outcome as [`ExtractEvent::Extracted`].
    ExtractArchive { archive: FsPath, into: FsPath },
    /// Move the video files found anywhere below `from` into `into`; report the
    /// outcome as [`ExtractEvent::Flattened`].
    FlattenFiles { from: FsPath, into: FsPath },
    /// Remove the scratch directory with its content; a failure is ignored.
    RemoveScratch(FsPath),
    /// Remove the archive; a failure is ignored.
    RemoveArchive(FsPath),
    /// The job is over, with this result.
    Finish(Result<(), ExtractError>),
}

/// The abstract content of an extraction action.
pub enum ExtractActionView {
    Update(DbCommand),
    CheckArchive(FsPathView),
    CheckScratch(FsPathView),
    PrepareScratch { path: FsPathView, clear: bool },
    ExtractArchive { archive: FsPathView, into: FsPathView },
    FlattenFiles { from: FsPathView, into: FsPathView },
    RemoveScratch(FsPathView),
    RemoveArchive(FsPathView),
    Finish(Result<(), ExtractErrorView>),
}

impl View for ExtractAction {
    type V = ExtractActionView;

    open spec fn view(&self) -> ExtractActionView {
        match self {
            ExtractAction::Update(c) => ExtractActionView::Update(*c),
            ExtractAction::CheckArchive(p) => ExtractActionView::CheckArchive(p@),
            ExtractAction::CheckScratch(p) => ExtractActionView::CheckScratch(p@),
            ExtractAction::PrepareScratch { path, clear } => ExtractActionView::PrepareScratch {
                path: path@,
                clear: *clear,
            },
            ExtractAction::ExtractArchive { archive, into } => ExtractActionView::ExtractArchive {
                archive: archive@,
                into: into@,
            },
            ExtractAction::FlattenFiles { from, into } => ExtractActionView::FlattenFiles {
                from: from@,
                into: into@,
            },
            ExtractAction::RemoveScratch(p) => ExtractActionView::RemoveScratch(p@),
            ExtractAction::RemoveArchive(p) => ExtractActionView::RemoveArchive(p@),
            ExtractAction::Finish(Ok(())) => ExtractActionView::Finish(Ok(())),
            ExtractAction::Finish(Err(e)) => ExtractActionView::Finish(Err(e@)),
        }
    }
}

/// The abstract content of a list of extraction actions.
pub open spec fn extract_actions_view(actions: Seq<ExtractAction>) -> Seq<ExtractActionView> {
    actions.map_values(|a: ExtractAction| a@)
}

/// Extracts one downloaded archive: locks the download, marks it as
/// extracting, checks the archive is there, extracts it into a fresh scratch
/// directory below the output directory, moves the video files into the
/// output directory, removes the scratch directory and the archive, marks the
/// download as extracted and unlocks it. A download that is locked by other
/// work is left alone.
pub struct ExtractJob {
    id: i64,
    locked: bool,
    archive: FsPath,
    scratch: FsPath,
    output: FsPath,
    phase: ExtractPhase,
}

/// The abstract content of an extraction job.
pub struct ExtractJobView {
    pub id: i64,
    pub locked: bool,
    pub archive: FsPathView,
    pub scratch: FsPathView,
    pub output: FsPathView,
    pub phase: ExtractPhase,
}

impl View for ExtractJob {
    type V = ExtractJobView;

    closed spec fn view(&self) -> ExtractJobView {
        ExtractJobView {
            id: self.id,
            locked: self.locked,
            archive: self.archive@,
            scratch: self.scratch@,
            output: self.output@,
            phase: self.phase,
        }
    }
}

/// What an extraction job does on `event`: the job afterwards and the actions
/// it asks for. An event the job does not wait for changes nothing.
#[verifier::opaque]
pub open spec fn extract_next(job: ExtractJobView, event: ExtractEventView) -> (
    ExtractJobView,
    Seq<ExtractActionView>,
) {
    let id = job.id;
    let finished = ExtractJobView { phase: ExtractPhase::Finished, ..job };
    match (job.phase, event) {
        (ExtractPhase::Start, ExtractEventView::Begin) => if job.locked {
            (finished, seq![ExtractActionView::Finish(Ok(()))])
        } else {
            (
                ExtractJobView { phase: ExtractPhase::AwaitingArchiveCheck, ..job },
                seq![
                    ExtractActionView::Update(DbCommand::SetLock { id, lock: true }),
                    ExtractActionView::Update(
                        DbCommand::SetState { id, state: DownloadState::Extracting },
                    ),
                    ExtractActionView::CheckArchive(job.archive),
                ],
            )
        },
        (ExtractPhase::AwaitingArchiveCheck, ExtractEventView::ArchiveChecked(exists)) => if exists {
            (
                ExtractJobView { phase: ExtractPhase::AwaitingScratchCheck, ..job },
                seq![ExtractActionView::CheckScratch(job.scratch)],
            )
        } else {
            (
                finished,
                seq![
                    ExtractActionView::Update(DbCommand::SetLock { id, lock: false }),
                    ExtractActionView::Finish(Err(ExtractErrorView::ArchiveMissing(job.archive))),
                ],
            )
        },
        (ExtractPhase::AwaitingScratchCheck, ExtractEventView::ScratchChecked(exists)) => (
            ExtractJobView { phase: ExtractPhase::AwaitingPreparation, ..job },
            seq![ExtractActionView::PrepareScratch { path: job.scratch, clear: exists }],
        ),
        (ExtractPhase::AwaitingPreparation, ExtractEventView::ScratchPrepared(r)) => match r {
            Ok(()) => (
                ExtractJobView { phase: ExtractPhase::AwaitingExtraction, ..job },
                seq![ExtractActionView::ExtractArchive { archive: job.archive, into: job.scratch }],
            ),
            Err(e) => (
                finished,
                seq![ExtractActionView::Finish(Err(ExtractErrorView::PreparationFailed(e)))],
            ),
        },
        (ExtractPhase::AwaitingExtraction, ExtractEventView::Extracted(r)) => match r {
            Ok(()) => (
                ExtractJobView { phase: ExtractPhase::AwaitingFlatten, ..job },
                seq![ExtractActionView::FlattenFiles { from: job.scratch, into: job.output }],
            ),
            Err(e) => (
                finished,
                seq![
                    ExtractActionView::Update(DbCommand::SetLock { id, lock: false }),
                    ExtractActionView::RemoveScratch(job.scratch),
                    ExtractActionView::Finish(Err(ExtractErrorView::ExtractionFailed(e))),
                ],
            ),
        },
        (ExtractPhase::AwaitingFlatten, ExtractEventView::Flattened(r)) => match r {
            Ok(()) => (
                finished,
                seq![
                    ExtractActionView::RemoveScratch(job.scratch),
                    ExtractActionView::RemoveArchive(job.archive),
                    ExtractActionView::Update(
                        DbCommand::SetState { id, state: DownloadState::Extracted },
                    ),
                    ExtractActionView::Update(DbCommand::SetLock { id, lock: false }),
                    ExtractActionView::Finish(Ok(())),
                ],
            ),
            Err(e) => (
                finished,
                seq![
                    ExtractActionView::Update(DbCommand::SetLock { id, lock: false }),
                    ExtractActionView::RemoveScratch(job.scratch),
                    ExtractActionView::Finish(Err(ExtractErrorView::FlattenFailed(e))),
                ],
            ),
        },
        _ => (job, Seq::empty()),
    }
}

impl ExtractJob {
    /// The job for `download` once its name has been sanitized to `sanitized`:
    /// the archive lies in `download_dir` under `sanitized` with `.zip`
    /// appended, and is extracted into `_temp_` followed by `sanitized` below
    /// `output_dir`.
    pub fn with_sanitized_name(
        download: &Download,
        download_dir: &FsPath,
        output_dir: &FsPath,
        sanitized: &str,
    ) -> (res: ExtractJob)
        ensures
            res@.phase == ExtractPhase::Start,
            res@.id == download.id,
            res@.locked == download.lock,
            res@.output == output_dir@,
            res@.archive == archive_path(download_dir@, sanitized@),
            res@.scratch == joined(output_dir@, scratch_dir_name(sanitized@)),
    {
        let archive = download_dir.join(archive_name(sanitized).as_str());
        let scratch = output_dir.join(scratch_name(sanitized).as_str());
        ExtractJob {
            id: download.id,
            locked: download.lock,
            archive,
            scratch,
            output: output_dir.duplicate(),
            phase: ExtractPhase::Start,
        }
    }

    /// The job for `download`, whose archive lies in `download_dir` under the
    /// sanitized download name with `.zip` appended, and which is extracted into
    /// `_temp_` followed by the sanitized name below `output_dir`; for a plain
    /// name, the sanitized name is the name without its unsafe characters, the
    /// same that [`DownloadJob::new`](crate::processor::download::DownloadJob::new)
    /// stores the archive under.
    pub fn new(download: &Download, download_dir: &FsPath, output_dir: &FsPath) -> (res: ExtractJob)
        ensures
            res@.phase == ExtractPhase::Start,
            res@.id == download.id,
            res@.locked == download.lock,
            res@.output == output_dir@,
            exists|s: Seq<char>|
                {
                    &&& is_sanitized_from(s, download.name@)
                    &&& res@.archive == archive_path(download_dir@, s)
                    &&& res@.scratch == joined(output_dir@, scratch_dir_name(s))
                },
            plain_name(without_unsafe_chars(download.name@)) ==> {
                &&& res@.archive == archive_path(download_dir@, without_unsafe_chars(download.name@))
                &&& res@.scratch == joined(
                    output_dir@,
                    scratch_dir_name(without_unsafe_chars(download.name@)),
                )
            },
    {
        let sanitized = sanitize(download.name.as_str());
        let res = ExtractJob::with_sanitized_name(download, download_dir, output_dir, sanitized.as_str());
        assert(is_sanitized_from(sanitized@, download.name@) && res@.archive == archive_path(
            download_dir@,
            sanitized@,
        ) && res@.scratch == joined(output_dir@, scratch_dir_name(sanitized@)));
        res
    }

    /// Where the job stands.
    pub fn phase(&self) -> (res: ExtractPhase)
        ensures
            res == self@.phase,
    {
        self.phase
    }

    /// Advances the job on `event` and returns the actions to carry out, in order.
    pub fn step(&mut self, event: ExtractEvent) -> (actions: Vec<ExtractAction>)
        ensures
            (final(self)@, extract_actions_view(actions@)) == extract_next(old(self)@, event@),
    {
        let ghost old_view = self@;
        let ghost event_view = event@;
        let id = self.id;
        let mut actions: Vec<ExtractAction> = Vec::new();
        match (self.phase, event) {
            (ExtractPhase::Start, ExtractEvent::Begin) => {
                self.phase = ExtractPhase::Finished;
                if self.locked {
                    actions.push(ExtractAction::Finish(Ok(())));
                } else {
                    self.phase = ExtractPhase::AwaitingArchiveCheck;
                    actions.push(ExtractAction::Update(DbCommand::SetLock { id, lock: true }));
                    actions.push(
                        ExtractAction::Update(
                            DbCommand::SetState { id, state: DownloadState::Extracting },
                        ),
                    );
                    actions.push(ExtractAction::CheckArchive(self.archive.duplicate()));
                }
            },
            (ExtractPhase::AwaitingArchiveCheck, ExtractEvent::ArchiveChecked(exists)) => {
                if exists {
                    self.phase = ExtractPhase::AwaitingScratchCheck;
                    actions.push(ExtractAction::CheckScratch(self.scratch.duplicate()));
                } else {
                    self.phase = ExtractPhase::Finished;
                    actions.push(ExtractAction::Update(DbCommand::SetLock { id, lock: false }));
                    actions.push(
                        ExtractAction::Finish(
                            Err(ExtractError::ArchiveMissing(self.archive.duplicate())),
                        ),
                    );
                }
            },
            (ExtractPhase::AwaitingScratchCheck, ExtractEvent::ScratchChecked(exists)) => {
                self.phase = ExtractPhase::AwaitingPreparation;
                actions.push(
                    ExtractAction::PrepareScratch { path: self.scratch.duplicate(), clear: exists },
                );
            },
            (ExtractPhase::AwaitingPreparation, ExtractEvent::ScratchPrepared(r)) => {
                match r {
                    Ok(()) => {
                        self.phase = ExtractPhase::AwaitingExtraction;
                        actions.push(
                            ExtractAction::ExtractArchive {
                                archive: self.archive.duplicate(),
                                into: self.scratch.duplicate(),
                            },
                        );
                    },
                    Err(e) => {
                        self.phase = ExtractPhase::Finished;
                        actions.push(
                            ExtractAction::Finish(Err(ExtractError::PreparationFailed(e))),
                        );
                    },
                }
            },
            (ExtractPhase::AwaitingExtraction, ExtractEvent::Extracted(r)) => {
                self.phase = ExtractPhase::Finished;
                match r {
                    Ok(()) => {
                        self.phase = ExtractPhase::AwaitingFlatten;
                        actions.push(
                            ExtractAction::FlattenFiles {
                                from: self.scratch.duplicate(),
                                into: self.output.duplicate(),
                            },
                        );
                    },
                    Err(e) => {
                        actions.push(ExtractAction::Update(DbCommand::SetLock { id, lock: false }));
                        actions.push(ExtractAction::RemoveScratch(self.scratch.duplicate()));
                        actions.push(ExtractAction::Finish(Err(ExtractError::ExtractionFailed(e))));
                    },
                }
            },
            (ExtractPhase::AwaitingFlatten, ExtractEvent::Flattened(r)) => {
                self.phase = ExtractPhase::Finished;
                match r {
                    Ok(()) => {
                        actions.push(ExtractAction::RemoveScratch(self.scratch.duplicate()));
                        actions.push(ExtractAction::RemoveArchive(self.archive.duplicate()));
                        actions.push(
                            ExtractAction::Update(
                                DbCommand::SetState { id, state: DownloadState::Extracted },
                            ),
                        );
                        actions.push(ExtractAction::Update(DbCommand::SetLock { id, lock: false }));
                        actions.push(ExtractAction::Finish(Ok(())));
                    },
                    Err(e) => {
                        actions.push(ExtractAction::Update(DbCommand::SetLock { id, lock: false }));
                        actions.push(ExtractAction::RemoveScratch(self.scratch.duplicate()));
                        actions.push(ExtractAction::Finish(Err(ExtractError::FlattenFailed(e))));
                    },
                }
            },
            _ => {},
        }
        proof {
            reveal(extract_next);
            let (expected_job, expected_actions) = extract_next(old_view, event_view);
            assert(extract_actions_view(actions@) =~= expected_actions);
        }
        actions
    }
}

/// What a failed extraction leads to: the download is unlocked (a failure of
/// that is ignored) and marked as failed.
pub open spec fn extract_failure_plan(download_id: i64) -> Seq<DbStep> {
    seq![
        DbStep { command: DbCommand::SetLock { id: download_id, lock: false }, ignore_failure: true },
        DbStep {
            command: DbCommand::SetState { id: download_id, state: DownloadState::Failed },
            ignore_failure: false,
        },
    ]
}

/// The table updates that follow a failed extraction (see [`extract_failure_plan`]).
pub fn extract_failure_steps(download: &Download) -> (res: Vec<DbStep>)
    ensures
        res@ == extract_failure_plan(download.id),
{
    let mut steps: Vec<DbStep> = Vec::new();
    steps.push(
        DbStep { command: DbCommand::SetLock { id: download.id, lock: false }, ignore_failure: true },
    );
    steps.push(
        DbStep {
            command: DbCommand::SetState { id: download.id, state: DownloadState::Failed },
            ignore_failure: false,
        },
    );
    proof {
        assert(steps@ =~= extract_failure_plan(download.id));
    }
    steps
}

/// The table updates among `actions`, in order.
pub open spec fn extract_updates(actions: Seq<ExtractActionView>) -> Seq<DbCommand>
    decreases actions.len(),
{
    if actions.len() == 0 {
        Seq::empty()
    } else {
        (match actions[0] {
            ExtractActionView::Update(c) => seq![c],
            _ => Seq::empty(),
        }) + extract_updates(actions.drop_first())
    }
}

proof fn lemma_extract_updates_concat(a: Seq<ExtractActionView>, b: Seq<ExtractActionView>)
    ensures
        extract_updates(a + b) == extract_updates(a) + extract_updates(b),
    decreases a.len(),
{
    if a.len() == 0 {
        assert(a + b =~= b);
        assert(extract_updates(a) + extract_updates(b) =~= extract_updates(b));
    } else {
        assert((a + b).drop_first() =~= a.drop_first() + b);
        lemma_extract_updates_concat(a.drop_first(), b);
        let head = match a[0] {
            ExtractActionView::Update(c) => seq![c],
            _ => Seq::<DbCommand>::empty(),
        };
        assert(head + (extract_updates(a.drop_first()) + extract_updates(b)) =~= (head
            + extract_updates(a.drop_first())) + extract_updates(b));
    }
}

/// Everything an extraction job asks for when it is fed `events` in order.
pub open spec fn extract_trace(job: ExtractJobView, events: Seq<ExtractEventView>) -> Seq<
    ExtractActionView,
>
    decreases events.len(),
{
    if events.len() == 0 {
        Seq::empty()
    } else {
        let (next_job, actions) = extract_next(job, events[0]);
        actions + extract_trace(next_job, events.drop_first())
    }
}

/// The events an extraction job is fed when it runs to its end: it begins, and
/// then learns whether the archive and the scratch directory exist and the
/// outcomes of preparing the scratch directory, extracting and moving the
/// files out. Events that come after the job has finished change nothing.
pub open spec fn extract_events(
    archive_exists: bool,
    scratch_exists: bool,
    prepared: Result<(), Seq<char>>,
    extracted: Result<(), Seq<char>>,
    flattened: Result<(), Seq<char>>,
) -> Seq<ExtractEventView> {
    seq![
        ExtractEventView::Begin,
        ExtractEventView::ArchiveChecked(archive_exists),
        ExtractEventView::ScratchChecked(scratch_exists),
        ExtractEventView::ScratchPrepared(prepared),
        ExtractEventView::Extracted(extracted),
        ExtractEventView::Flattened(flattened),
    ]
}

/// Whether an extraction succeeds with these outcomes.
pub open spec fn extraction_succeeds(
    archive_exists: bool,
    prepared: Result<(), Seq<char>>,
    extracted: Result<(), Seq<char>>,
    flattened: Result<(), Seq<char>>,
) -> bool {
    archive_exists && prepared is Ok && extracted is Ok && flattened is Ok
}

proof fn lemma_finished_extract_trace(job: ExtractJobView, events: Seq<ExtractEventView>)
    requires
        job.phase == ExtractPhase::Finished,
    ensures
        extract_trace(job, events) == Seq::<ExtractActionView>::empty(),
    decreases events.len(),
{
    if events.len() > 0 {
        reveal(extract_next);
        lemma_finished_extract_trace(job, events.drop_first());
        assert(Seq::<ExtractActionView>::empty() + Seq::<ExtractActionView>::empty()
            =~= Seq::<ExtractActionView>::empty());
    }
}

/// A download locked by other work is left alone: whatever the caller reports
/// afterwards, the extraction job finishes at once, successfully, without
/// touching the table.
pub proof fn lemma_locked_extraction_left_alone(job: ExtractJobView, events: Seq<ExtractEventView>)
    requires
        job.phase == ExtractPhase::Start,
        job.locked,
        events.len() > 0,
        events[0] == ExtractEventView::Begin,
    ensures
        extract_trace(job, events) == seq![ExtractActionView::Finish(Ok(()))],
        extract_updates(extract_trace(job, events)) == Seq::<DbCommand>::empty(),
{
    reveal(extract_next);
    let (j1, a1) = extract_next(job, events[0]);
    lemma_finished_extract_trace(j1, events.drop_first());
    assert(a1 + Seq::<ExtractActionView>::empty() =~= a1);
    reveal_with_fuel(extract_updates, 2);
}

/// The updates, the end state and the final result of an unlocked extraction
/// job's run, step by step.
proof fn lemma_unlocked_extract_trace(
    job: ExtractJobView,
    archive_exists: bool,
    scratch_exists: bool,
    prepared: Result<(), Seq<char>>,
    extracted: Result<(), Seq<char>>,
    flattened: Result<(), Seq<char>>,
)
    requires
        job.phase == ExtractPhase::Start,
        !job.locked,
    ensures
        ({
            let id = job.id;
            let run = extract_trace(
                job,
                extract_events(archive_exists, scratch_exists, prepared, extracted, flattened),
            );
            let start = seq![
                DbCommand::SetLock { id, lock: true },
                DbCommand::SetState { id, state: DownloadState::Extracting },
            ];
            let unlock = seq![DbCommand::SetLock { id, lock: false }];
            let done = seq![
                DbCommand::SetState { id, state: DownloadState::Extracted },
                DbCommand::SetLock { id, lock: false },
            ];
            &&& run.len() > 0
            &&& run.last() matches ExtractActionView::Finish(r) && (r is Ok <==> extraction_succeeds(
                archive_exists,
                prepared,
                extracted,
                flattened,
            ))
            &&& extract_updates(run) == if !archive_exists {
                start + unlock
            } else if prepared is Err {
                start
            } else if extracted is Err || flattened is Err {
                start + unlock
            } else {
                start + done
            }
        }),
{
    let id = job.id;
    let events = extract_events(archive_exists, scratch_exists, prepared, extracted, flattened);
    let start = seq![
        DbCommand::SetLock { id, lock: true },
        DbCommand::SetState { id, state: DownloadState::Extracting },
    ];
    let unlock = seq![DbCommand::SetLock { id, lock: false }];
    let none = Seq::<DbCommand>::empty();
    let rest1 = events.drop_first();
    let rest2 = rest1.drop_first();
    let rest3 = rest2.drop_first();
    let rest4 = rest3.drop_first();
    let rest5 = rest4.drop_first();
    let rest6 = rest5.drop_first();
    let (j1, a1) = extract_next(job, events[0]);
    let (j2, a2) = extract_next(j1, rest1[0]);
    let (j3, a3) = extract_next(j2, rest2[0]);
    let (j4, a4) = extract_next(j3, rest3[0]);
    let (j5, a5) = extract_next(j4, rest4[0]);
    let (j6, a6) = extract_next(j5, rest5[0]);
    assert(rest6.len() == 0);
    let t6 = extract_trace(j6, rest6);
    let t5 = a6 + t6;
    let t4 = a5 + t5;
    let t3 = a4 + t4;
    let t2 = a3 + t3;
    let t1 = a2 + t2;
    assert(extract_trace(j5, rest5) == t5);
    assert(extract_trace(j4, rest4) == t4);
    assert(extract_trace(j3, rest3) == t3);
    assert(extract_trace(j2, rest2) == t2);
    assert(extract_trace(j1, rest1) == t1);
    assert(extract_trace(job, events) == a1 + t1);
    assert(j1.phase == ExtractPhase::AwaitingArchiveCheck && j1.id == id && extract_updates(a1)
        == start && a1.len() > 0) by {
        reveal(extract_next);
        reveal_with_fuel(extract_updates, 4);
    }
    lemma_extract_updates_concat(a1, t1);
    if !archive_exists {
        assert(j2.phase == ExtractPhase::Finished && extract_updates(a2) == unlock && a2.len() > 0
            && a2.last() == ExtractActionView::Finish(
            Err(ExtractErrorView::ArchiveMissing(job.archive)),
        )) by {
            reveal(extract_next);
            reveal_with_fuel(extract_updates, 3);
        }
        lemma_finished_extract_trace(j2, rest2);
        assert(t1 =~= a2);
    } else {
        assert(j2.phase == ExtractPhase::AwaitingScratchCheck && j2.id == id && extract_updates(a2)
            == none) by {
            reveal(extract_next);
            reveal_with_fuel(extract_updates, 3);
        }
        assert(j3.phase == ExtractPhase::AwaitingPreparation && j3.id == id && extract_updates(a3)
            == none) by {
            reveal(extract_next);
            reveal_with_fuel(extract_updates, 3);
        }
        lemma_extract_updates_concat(a2, t2);
        lemma_extract_updates_concat(a3, t3);
        if prepared is Err {
            assert(j4.phase == ExtractPhase::Finished && extract_updates(a4) == none && a4.len() > 0
                && a4.last() matches ExtractActionView::Finish(Err(_))) by {
                reveal(extract_next);
                reveal_with_fuel(extract_updates, 3);
            }
            lemma_finished_extract_trace(j4, rest4);
            assert(t3 =~= a4);
            assert(t1 =~= a2 + a3 + a4);
            lemma_extract_updates_concat(a2 + a3, a4);
            lemma_extract_updates_concat(a2, a3);
            assert(start + (none + none + none) =~= start);
        } else {
            assert(j4.phase == ExtractPhase::AwaitingExtraction && j4.id == id && extract_updates(a4)
                == none) by {
                reveal(extract_next);
                reveal_with_fuel(extract_updates, 3);
            }
            lemma_extract_updates_concat(a4, t4);
            if extracted is Err {
                assert(j5.phase == ExtractPhase::Finished && extract_updates(a5) == unlock
                    && a5.len() > 0 && a5.last() matches ExtractActionView::Finish(Err(_))) by {
                    reveal(extract_next);
                    reveal_with_fuel(extract_updates, 4);
                }
                lemma_finished_extract_trace(j5, rest5);
                assert(t4 =~= a5);
                assert(start + (none + (none + (none + unlock))) =~= start + unlock);
            } else {
                assert(j5.phase == ExtractPhase::AwaitingFlatten && j5.id == id && extract_updates(a5)
                    == none) by {
                    reveal(extract_next);
                    reveal_with_fuel(extract_updates, 3);
                }
                lemma_extract_updates_concat(a5, t5);
                lemma_extract_updates_concat(a6, t6);
                let done = seq![
                    DbCommand::SetState { id, state: DownloadState::Extracted },
                    DbCommand::SetLock { id, lock: false },
                ];
                if flattened is Err {
                    assert(extract_updates(a6) == unlock && a6.len() > 0 && a6.last() matches ExtractActionView::Finish(Err(_))) by {
                        reveal(extract_next);
                        reveal_with_fuel(extract_updates, 4);
                    }
                    assert(start + (none + (none + (none + (none + (unlock + none)))))
                        =~= start + unlock);
                } else {
                    assert(extract_updates(a6) == done && a6.len() > 0 && a6.last()
                        == ExtractActionView::Finish(Ok(()))) by {
                        reveal(extract_next);
                        reveal_with_fuel(extract_updates, 6);
                    }
                    assert(start + (none + (none + (none + (none + (done + none)))))
                        =~= start + done);
                }
                assert(t5 =~= a6);
            }
        }
    }
}

/// The extraction processor never leaves a download locked: once the job's
/// table updates, and after a failure the failure updates, have all been
/// carried out, the download is unlocked, marked as extracted when every step
/// succeeded and as failed otherwise, and its retries are reset. The job on
/// its own unlocks the download on every path except a failed preparation of
/// the scratch directory, after which only the failure updates unlock it.
pub proof fn lemma_extraction_releases_lock(
    job: ExtractJobView,
    row: Download,
    archive_exists: bool,
    scratch_exists: bool,
    prepared: Result<(), Seq<char>>,
    extracted: Result<(), Seq<char>>,
    flattened: Result<(), Seq<char>>,
)
    requires
        job.phase == ExtractPhase::Start,
        !job.locked,
        row.id == job.id,
    ensures
        ({
            let run = extract_trace(
                job,
                extract_events(archive_exists, scratch_exists, prepared, extracted, flattened),
            );
            let ok = extraction_succeeds(archive_exists, prepared, extracted, flattened);
            let job_only = apply_all(extract_updates(run), row);
            let after = apply_all(
                extract_updates(run) + (if ok {
                    Seq::empty()
                } else {
                    step_commands(extract_failure_plan(job.id))
                }),
                row,
            );
            &&& run.last() matches ExtractActionView::Finish(r) && (r is Ok <==> ok)
            &&& !after.lock
            &&& after.retries == 0
            &&& after.state == (if ok {
                DownloadState::Extracted
            } else {
                DownloadState::Failed
            })
            &&& (archive_exists && prepared is Err) <==> job_only.lock
        }),
{
    lemma_unlocked_extract_trace(job, archive_exists, scratch_exists, prepared, extracted, flattened);
    reveal_with_fuel(apply_all, 3);
    let id = job.id;
    let run = extract_trace(
        job,
        extract_events(archive_exists, scratch_exists, prepared, extracted, flattened),
    );
    let start = seq![
        DbCommand::SetLock { id, lock: true },
        DbCommand::SetState { id, state: DownloadState::Extracting },
    ];
    let unlock = seq![DbCommand::SetLock { id, lock: false }];
    let done = seq![
        DbCommand::SetState { id, state: DownloadState::Extracted },
        DbCommand::SetLock { id, lock: false },
    ];
    let fail = seq![
        DbCommand::SetLock { id, lock: false },
        DbCommand::SetState { id, state: DownloadState::Failed },
    ];
    assert(step_commands(extract_failure_plan(id)) =~= fail);
    let ok = extraction_succeeds(archive_exists, prepared, extracted, flattened);
    if ok {
        lemma_apply_all_concat(start, done, row);
        assert(extract_updates(run) + Seq::<DbCommand>::empty() =~= start + done);
    } else if archive_exists && prepared is Err {
        lemma_apply_all_concat(start, fail, row);
    } else {
        lemma_apply_all_concat(start, unlock, row);
        lemma_apply_all_concat(start + unlock, fail, row);
    }
}

/// The extraction processor works on the archive the download processor
/// stored: for the same download directory and sanitized download name, the
/// file a successful download run fetches the archive into is the file a
/// successful extraction run checks, extracts into its scratch directory and
/// finally removes. For a plain download name, both `new` constructors use the
/// name without its unsafe characters as the sanitized name, so this holds of
/// the jobs they build.
pub proof fn lemma_extraction_reads_downloaded_archive(
    download_job: DownloadJobView,
    extract_job: ExtractJobView,
    download_dir: FsPathView,
    sanitized: Seq<char>,
    url: Seq<char>,
    scratch_exists: bool,
)
    requires
        download_job.wf(),
        download_job.phase == DownloadPhase::Start,
        !download_job.locked,
        download_job.archive == archive_path(download_dir, sanitized),
        extract_job.phase == ExtractPhase::Start,
        !extract_job.locked,
        extract_job.archive == archive_path(download_dir, sanitized),
    ensures
        ({
            let path = archive_path(download_dir, sanitized);
            let fetching = download_trace(download_job, download_events(Ok(url), Ok(())));
            let extracting = extract_trace(
                extract_job,
                extract_events(true, scratch_exists, Ok(()), Ok(()), Ok(())),
            );
            &&& fetching.contains(DownloadActionView::FetchFile { url, path })
            &&& extracting.contains(ExtractActionView::CheckArchive(path))
            &&& extracting.contains(
                ExtractActionView::ExtractArchive { archive: path, into: extract_job.scratch },
            )
            &&& extracting.contains(ExtractActionView::RemoveArchive(path))
        }),
{
    let path = archive_path(download_dir, sanitized);
    let d = download_events(Ok(url), Ok(()));
    let d1 = d.drop_first();
    let d2 = d1.drop_first();
    let d3 = d2.drop_first();
    let (k1, b1) = download_next(download_job, d[0]);
    let (k2, b2) = download_next(k1, d1[0]);
    let (k3, b3) = download_next(k2, d2[0]);
    assert(d3.len() == 0);
    let dt2 = b3 + download_trace(k3, d3);
    let dt1 = b2 + dt2;
    assert(download_trace(k2, d2) == dt2);
    assert(download_trace(k1, d1) == dt1);
    assert(download_trace(download_job, d) == b1 + dt1);
    assert(b1.len() == 3 && k1.phase == DownloadPhase::AwaitingLink && k1.archive == path) by {
        reveal(download_next);
    }
    assert(b2.len() == 2 && b2[1] == DownloadActionView::FetchFile { url, path }) by {
        reveal(download_next);
    }
    assert((b1 + dt1)[4] == DownloadActionView::FetchFile { url, path });

    let e = extract_events(true, scratch_exists, Ok(()), Ok(()), Ok(()));
    let e1 = e.drop_first();
    let e2 = e1.drop_first();
    let e3 = e2.drop_first();
    let e4 = e3.drop_first();
    let e5 = e4.drop_first();
    let e6 = e5.drop_first();
    let (j1, a1) = extract_next(extract_job, e[0]);
    let (j2, a2) = extract_next(j1, e1[0]);
    let (j3, a3) = extract_next(j2, e2[0]);
    let (j4, a4) = extract_next(j3, e3[0]);
    let (j5, a5) = extract_next(j4, e4[0]);
    let (j6, a6) = extract_next(j5, e5[0]);
    assert(e6.len() == 0);
    let t5 = a6 + extract_trace(j6, e6);
    let t4 = a5 + t5;
    let t3 = a4 + t4;
    let t2 = a3 + t3;
    let t1 = a2 + t2;
    assert(extract_trace(j5, e5) == t5);
    assert(extract_trace(j4, e4) == t4);
    assert(extract_trace(j3, e3) == t3);
    assert(extract_trace(j2, e2) == t2);
    assert(extract_trace(j1, e1) == t1);
    assert(extract_trace(extract_job, e) == a1 + t1);
    assert(a1.len() == 3 && a1[2] == ExtractActionView::CheckArchive(path) && j1.phase
        == ExtractPhase::AwaitingArchiveCheck && j1.archive == path && j1.scratch
        == extract_job.scratch) by {
        reveal(extract_next);
    }
    assert(a2.len() == 1 && j2.phase == ExtractPhase::AwaitingScratchCheck && j2.archive == path
        && j2.scratch == extract_job.scratch) by {
        reveal(extract_next);
    }
    assert(a3.len() == 1 && j3.phase == ExtractPhase::AwaitingPreparation && j3.archive == path
        && j3.scratch == extract_job.scratch) by {
        reveal(extract_next);
    }
    assert(a4.len() == 1 && a4[0] == ExtractActionView::ExtractArchive {
        archive: path,
        into: extract_job.scratch,
    } && j4.phase == ExtractPhase::AwaitingExtraction && j4.archive == path && j4.scratch
        == extract_job.scratch) by {
        reveal(extract_next);
    }
    assert(a5.len() == 1 && j5.phase == ExtractPhase::AwaitingFlatten && j5.archive == path) by {
        reveal(extract_next);
    }
    assert(a6.len() == 5 && a6[1] == ExtractActionView::RemoveArchive(path)) by {
        reveal(extract_next);
    }
    let whole = a1 + t1;
    assert(whole[2] == ExtractActionView::CheckArchive(path));
    assert(whole[5] == ExtractActionView::ExtractArchive { archive: path, into: extract_job.scratch });
    assert(whole[8] == ExtractActionView::RemoveArchive(path));
}

} // verus!
