//! Downloading ready archives from TorBox to the download directory.

use vstd::prelude::*;
use crate::database::{apply_all, lemma_apply_all_concat, DbCommand, DbStep, Download, DownloadState};
use crate::fs_path::{
    is_sanitized_from, joined, plain_name, sanitize, without_unsafe_chars, FsPath, FsPathView,
};
use crate::torbox::request::{endpoint_url, FormFieldView, HttpMethod, Request, RequestView};
use crate::torbox::usenet::{request_dl_request, RequestDlQuery};
use crate::torbox::{ApiConfigView, TorBoxApiState};

verus! {

/// The file name a download's archive is stored under: the sanitized download
/// name followed by `.zip`.
pub open spec fn archive_file_name(sanitized: Seq<char>) -> Seq<char> {
    sanitized + ".zip"@
}

/// Where a download's archive is stored: in the download directory, under
/// the sanitized download name followed by `.zip`.
pub open spec fn archive_path(download_dir: FsPathView, sanitized: Seq<char>) -> FsPathView {
    joined(download_dir, archive_file_name(sanitized))
}

/// The file name a download's archive is stored under.
pub fn archive_name(sanitized: &str) -> (res: String)
    ensures
        res@ == archive_file_name(sanitized@),
{
    let mut s = String::new();
    s.append(sanitized);
    s.append(".zip");
    proof {
        assert(s@ =~= archive_file_name(sanitized@));
    }
    s
}

/// Whether `r` asks TorBox for a zip link to the whole usenet download
/// `usenet_id`: a `GET` of `api/usenet/requestdl` whose query carries the API
/// key as token, no file id, `zip_link` set and no user IP.
pub open spec fn is_zip_link_request(
    r: RequestView<RequestDlQuery>,
    api: ApiConfigView,
    usenet_id: i32,
) -> bool {
    &&& r.url == endpoint_url(api, "api/usenet/requestdl"@)
    &&& r.method == HttpMethod::Get
    &&& r.auth_key == Seq::<char>::empty()
    &&& r.body == Seq::<u8>::empty()
    &&& r.multipart == Seq::<FormFieldView>::empty()
    &&& r.query matches Some(q) && q.token@ == api.api_key && q.usenet_id == usenet_id
        && q.file_id is None && q.zip_link && q.user_ip is None
}

/// Where a download job stands.
#[derive(Debug, Clone, Copy, PartialEq, Eq, Structural)]
pub enum DownloadPhase {
    /// Nothing has been done yet.
    Start,
    /// The download link has been requested.
    AwaitingLink,
    /// The archive is being fetched.
    AwaitingFile,
    /// The job has finished.
    Finished,
}

/// Why a download job failed.
#[derive(Debug, Clone)]
pub enum DownloadError {
    /// TorBox did not hand out a download link.
    LinkRequestFailed(String),
    /// Fetching the archive failed.
    FetchFailed(String),
}

/// The abstract content of a download error.
pub enum DownloadErrorView {
    LinkRequestFailed(Seq<char>),
    FetchFailed(Seq<char>),
}

impl View for DownloadError {
    type V = DownloadErrorView;

    open spec fn view(&self) -> DownloadErrorView {
        match self {
            DownloadError::LinkRequestFailed(e) => DownloadErrorView::LinkRequestFailed(e@),
            DownloadError::FetchFailed(e) => DownloadErrorView::FetchFailed(e@),
        }
    }
}

/// The text a download error is reported with.
pub open spec fn download_error_message(e: DownloadErrorView) -> Seq<char> {
    match e {
        DownloadErrorView::LinkRequestFailed(m) => "Failed to request download link: "@ + m,
        DownloadErrorView::FetchFailed(m) => "Failed to download file: "@ + m,
    }
}

impl DownloadError {
    /// The message this error is reported with.
    pub fn message(&self) -> (res: String)
        ensures
            res@ == download_error_message(self@),
    {
        let mut s = String::new();
        match self {
            DownloadError::LinkRequestFailed(m) => {
                s.append("Failed to request download link: ");
                s.append(m.as_str());
            },
            DownloadError::FetchFailed(m) => {
                s.append("Failed to download file: ");
                s.append(m.as_str());
            },
        }
        proof {
            assert(s@ =~= download_error_message(self@));
        }
        s
    }
}

/// What the caller reports back to a download job.
pub enum DownloadEvent {
    /// The job is to begin.
    Begin,
    /// The outcome of the download-link request: the link, or why there is none.
    LinkReceived(Result<String, String>),
    /// The outcome of fetching the archive.
    FileFetched(Result<(), String>),
}

/// The abstract content of a download event.
pub enum DownloadEventView {
    Begin,
    LinkReceived(Result<Seq<char>, Seq<char>>),
    FileFetched(Result<(), Seq<char>>),
}

impl View for DownloadEvent {
    type V = DownloadEventView;

    open spec fn view(&self) -> DownloadEventView {
        match self {
            DownloadEvent::Begin => DownloadEventView::Begin,
            DownloadEvent::LinkReceived(Ok(l)) => DownloadEventView::LinkReceived(Ok(l@)),
            DownloadEvent::LinkReceived(Err(e)) => DownloadEventView::LinkReceived(Err(e@)),
            DownloadEvent::FileFetched(Ok(())) => DownloadEventView::FileFetched(Ok(())),
            DownloadEvent::FileFetched(Err(e)) => DownloadEventView::FileFetched(Err(e@)),
        }
    }
}

/// What a download job asks the caller to do, in order.
pub enum DownloadAction {
    /// Carry out a table update; if it fails, the job fails with that error.
    Update(DbCommand),
    /// Send the download-link request; its outcome is reported as [`DownloadEvent::LinkReceived`].
    RequestLink(Request<RequestDlQuery>),
    /// Delete the file left by an earlier attempt; a failure is ignored.
    RemoveStaleArchive(FsPath),
    /// Fetch `url` into `path`; the outcome is reported as [`DownloadEvent::FileFetched`].
    FetchFile { url: String, path: FsPath },
    /// The job is over, with this result.
    Finish(Result<(), DownloadError>),
}

/// The abstract content of a download action.
pub enum DownloadActionView {
    Update(DbCommand),
    RequestLink(RequestView<RequestDlQuery>),
    RemoveStaleArchive(FsPathView),
    FetchFile { url: Seq<char>, path: FsPathView },
    Finish(Result<(), DownloadErrorView>),
}

impl View for DownloadAction {
    type V = DownloadActionView;

    open spec fn view(&self) -> DownloadActionView {
        match self {
            DownloadAction::Update(c) => DownloadActionView::Update(*c),
            DownloadAction::RequestLink(r) => DownloadActionView::RequestLink(r@),
            DownloadAction::RemoveStaleArchive(p) => DownloadActionView::RemoveStaleArchive(p@),
            DownloadAction::FetchFile { url, path } => DownloadActionView::FetchFile {
                url: url@,
                path: path@,
            },
            DownloadAction::Finish(Ok(())) => DownloadActionView::Finish(Ok(())),
            DownloadAction::Finish(Err(e)) => DownloadActionView::Finish(Err(e@)),
        }
    }
}

/// The abstract content of a list of download actions.
pub open spec fn download_actions_view(actions: Seq<DownloadAction>) -> Seq<DownloadActionView> {
    actions.map_values(|a: DownloadAction| a@)
}

/// Downloads one ready archive: locks the download, marks it as downloading,
/// asks TorBox for a zip link, fetches the archive into the download directory,
/// marks the download as completed and unlocks it. A download that is locked
/// by other work is left alone.
pub struct DownloadJob {
    id: i64,
    locked: bool,
    archive: FsPath,
    link_request: Option<Request<RequestDlQuery>>,
    phase: DownloadPhase,
}

/// The abstract content of a download job.
pub struct DownloadJobView {
    pub id: i64,
    pub locked: bool,
    pub archive: FsPathView,
    pub link_request: Option<RequestView<RequestDlQuery>>,
    pub phase: DownloadPhase,
}

impl View for DownloadJob {
    type V = DownloadJobView;

    closed spec fn view(&self) -> DownloadJobView {
        DownloadJobView {
            id: self.id,
            locked: self.locked,
            archive: self.archive@,
            link_request: match self.link_request {
                Some(r) => Some(r@),
                None => None,
            },
            phase: self.phase,
        }
    }
}

impl DownloadJobView {
    /// A job that has not begun still holds the request it is to send.
    pub open spec fn wf(self) -> bool {
        self.phase == DownloadPhase::Start ==> self.link_request is Some
    }
}

/// What a download job does on `event`: the job afterwards and the actions it
/// asks for. An event the job does not wait for changes nothing.
#[verifier::opaque]
pub open spec fn download_next(job: DownloadJobView, event: DownloadEventView) -> (
    DownloadJobView,
    Seq<DownloadActionView>,
) {
    let id = job.id;
    match job.phase {
        DownloadPhase::Start => match event {
            DownloadEventView::Begin => if job.locked {
                (
                    DownloadJobView { phase: DownloadPhase::Finished, ..job },
                    seq![DownloadActionView::Finish(Ok(()))],
                )
            } else {
                (
                    DownloadJobView {
                        phase: DownloadPhase::AwaitingLink,
                        link_request: None,
                        ..job
                    },
                    seq![
                        DownloadActionView::Update(DbCommand::SetLock { id, lock: true }),
                        DownloadActionView::Update(
                            DbCommand::SetState { id, state: DownloadState::Downloading },
                        ),
                        DownloadActionView::RequestLink(job.link_request->0),
                    ],
                )
            },
            _ => (job, Seq::empty()),
        },
        DownloadPhase::AwaitingLink => match event {
            DownloadEventView::LinkReceived(Err(e)) => (
                DownloadJobView { phase: DownloadPhase::Finished, ..job },
                seq![
                    DownloadActionView::Update(DbCommand::SetLock { id, lock: false }),
                    DownloadActionView::Finish(Err(DownloadErrorView::LinkRequestFailed(e))),
                ],
            ),
            DownloadEventView::LinkReceived(Ok(url)) => (
                DownloadJobView { phase: DownloadPhase::AwaitingFile, ..job },
                seq![
                    DownloadActionView::RemoveStaleArchive(job.archive),
                    DownloadActionView::FetchFile { url, path: job.archive },
                ],
            ),
            _ => (job, Seq::empty()),
        },
        DownloadPhase::AwaitingFile => match event {
            DownloadEventView::FileFetched(Err(e)) => (
                DownloadJobView { phase: DownloadPhase::Finished, ..job },
                seq![
                    DownloadActionView::Update(DbCommand::SetLock { id, lock: false }),
                    DownloadActionView::Finish(Err(DownloadErrorView::FetchFailed(e))),
                ],
            ),
            DownloadEventView::FileFetched(Ok(())) => (
                DownloadJobView { phase: DownloadPhase::Finished, ..job },
                seq![
                    DownloadActionView::Update(
                        DbCommand::SetState { id, state: DownloadState::Completed },
                    ),
                    DownloadActionView::Update(DbCommand::SetLock { id, lock: false }),
                    DownloadActionView::Finish(Ok(())),
                ],
            ),
            _ => (job, Seq::empty()),
        },
        DownloadPhase::Finished => (job, Seq::empty()),
    }
}

impl DownloadJob {
    /// The job for `download` once its name has been sanitized to `sanitized`:
    /// the archive goes to `download_dir` under `sanitized` with `.zip`
    /// appended, and the link is requested as a zip link for the download's
    /// TorBox id.
    pub fn with_sanitized_name(
        download: &Download,
        download_dir: &FsPath,
        state: &TorBoxApiState,
        sanitized: &str,
    ) -> (res: DownloadJob)
        ensures
            res@.wf(),
            res@.phase == DownloadPhase::Start,
            res@.id == download.id,
            res@.locked == download.lock,
            res@.archive == archive_path(download_dir@, sanitized@),
            res@.link_request matches Some(r) && is_zip_link_request(r, state@, download.download_id as i32),
    {
        let file_name = archive_name(sanitized);
        let archive = download_dir.join(file_name.as_str());
        let link_request = request_dl_request(
            state,
            download.download_id as i32,
            None,
            true,
            None,
        );
        DownloadJob {
            id: download.id,
            locked: download.lock,
            archive,
            link_request: Some(link_request),
            phase: DownloadPhase::Start,
        }
    }

    /// The job for `download`, whose archive goes to `download_dir` under the
    /// sanitized download name with `.zip` appended (for a plain name, the name
    /// without its unsafe characters), and whose link is requested as a zip link
    /// for the download's TorBox id.
    pub fn new(download: &Download, download_dir: &FsPath, state: &TorBoxApiState) -> (res:
        DownloadJob)
        ensures
            res@.wf(),
            res@.phase == DownloadPhase::Start,
            res@.id == download.id,
            res@.locked == download.lock,
            exists|s: Seq<char>|
                is_sanitized_from(s, download.name@) && res@.archive == archive_path(
                    download_dir@,
                    s,
                ),
            plain_name(without_unsafe_chars(download.name@)) ==> res@.archive == archive_path(
                download_dir@,
                without_unsafe_chars(download.name@),
            ),
            res@.link_request matches Some(r) && is_zip_link_request(r, state@, download.download_id as i32),
    {
        let sanitized = sanitize(download.name.as_str());
        let res = DownloadJob::with_sanitized_name(download, download_dir, state, sanitized.as_str());
        assert(is_sanitized_from(sanitized@, download.name@) && res@.archive == archive_path(
            download_dir@,
            sanitized@,
        ));
        res
    }

    /// Where the job stands.
    pub fn phase(&self) -> (res: DownloadPhase)
        ensures
            res == self@.phase,
    {
        self.phase
    }

    /// Advances the job on `event` and returns the actions to carry out, in order.
    pub fn step(&mut self, event: DownloadEvent) -> (actions: Vec<DownloadAction>)
        requires
            old(self)@.wf(),
        ensures
            final(self)@.wf(),
            (final(self)@, download_actions_view(actions@)) == download_next(old(self)@, event@),
    {
        let ghost old_view = self@;
        let ghost event_view = event@;
        let id = self.id;
        let mut actions: Vec<DownloadAction> = Vec::new();
        match self.phase {
            DownloadPhase::Start => {
                match event {
                    DownloadEvent::Begin => {
                        if self.locked {
                            self.phase = DownloadPhase::Finished;
                            actions.push(DownloadAction::Finish(Ok(())));
                        } else {
                            let request = self.link_request.take();
                            self.phase = DownloadPhase::AwaitingLink;
                            actions.push(DownloadAction::Update(DbCommand::SetLock { id, lock: true }));
                            actions.push(
                                DownloadAction::Update(
                                    DbCommand::SetState { id, state: DownloadState::Downloading },
                                ),
                            );
                            match request {
                                Some(r) => actions.push(DownloadAction::RequestLink(r)),
                                None => {},
                            }
                        }
                    },
                    _ => {},
                }
            },
            DownloadPhase::AwaitingLink => {
                match event {
                    DownloadEvent::LinkReceived(Err(e)) => {
                        self.phase = DownloadPhase::Finished;
                        actions.push(DownloadAction::Update(DbCommand::SetLock { id, lock: false }));
                        actions.push(
                            DownloadAction::Finish(Err(DownloadError::LinkRequestFailed(e))),
                        );
                    },
                    DownloadEvent::LinkReceived(Ok(url)) => {
                        self.phase = DownloadPhase::AwaitingFile;
                        actions.push(DownloadAction::RemoveStaleArchive(self.archive.duplicate()));
                        actions.push(
                            DownloadAction::FetchFile { url, path: self.archive.duplicate() },
                        );
                    },
                    _ => {},
                }
            },
            DownloadPhase::AwaitingFile => {
                match event {
                    DownloadEvent::FileFetched(Err(e)) => {
                        self.phase = DownloadPhase::Finished;
                        actions.push(DownloadAction::Update(DbCommand::SetLock { id, lock: false }));
                        actions.push(DownloadAction::Finish(Err(DownloadError::FetchFailed(e))));
                    },
                    DownloadEvent::FileFetched(Ok(())) => {
                        self.phase = DownloadPhase::Finished;
                        actions.push(
                            DownloadAction::Update(
                                DbCommand::SetState { id, state: DownloadState::Completed },
                            ),
                        );
                        actions.push(DownloadAction::Update(DbCommand::SetLock { id, lock: false }));
                        actions.push(DownloadAction::Finish(Ok(())));
                    },
                    _ => {},
                }
            },
            DownloadPhase::Finished => {},
        }
        proof {
            reveal(download_next);
            let (expected_job, expected_actions) = download_next(old_view, event_view);
            assert(download_actions_view(actions@) =~= expected_actions);
        }
        actions
    }
}

/// The table updates among `actions`, in order.
pub open spec fn download_updates(actions: Seq<DownloadActionView>) -> Seq<DbCommand>
    decreases actions.len(),
{
    if actions.len() == 0 {
        Seq::empty()
    } else {
        (match actions[0] {
            DownloadActionView::Update(c) => seq![c],
            _ => Seq::empty(),
        }) + download_updates(actions.drop_first())
    }
}

proof fn lemma_download_updates_concat(a: Seq<DownloadActionView>, b: Seq<DownloadActionView>)
    ensures
        download_updates(a + b) == download_updates(a) + download_updates(b),
    decreases a.len(),
{
    if a.len() == 0 {
        assert(a + b =~= b);
        assert(download_updates(a) + download_updates(b) =~= download_updates(b));
    } else {
        assert((a + b).drop_first() =~= a.drop_first() + b);
        lemma_download_updates_concat(a.drop_first(), b);
        let head = match a[0] {
            DownloadActionView::Update(c) => seq![c],
            _ => Seq::<DbCommand>::empty(),
        };
        assert(head + (download_updates(a.drop_first()) + download_updates(b)) =~= (head
            + download_updates(a.drop_first())) + download_updates(b));
    }
}

/// Everything a download job asks for when it is fed `events` in order.
pub open spec fn download_trace(job: DownloadJobView, events: Seq<DownloadEventView>) -> Seq<
    DownloadActionView,
>
    decreases events.len(),
{
    if events.len() == 0 {
        Seq::empty()
    } else {
        let (next_job, actions) = download_next(job, events[0]);
        actions + download_trace(next_job, events.drop_first())
    }
}

/// The events a download job is fed when it runs to its end: it begins, the
/// link request has outcome `link`, and fetching the archive has outcome
/// `fetch`. Events that come after the job has finished change nothing.
pub open spec fn download_events(
    link: Result<Seq<char>, Seq<char>>,
    fetch: Result<(), Seq<char>>,
) -> Seq<DownloadEventView> {
    seq![
        DownloadEventView::Begin,
        DownloadEventView::LinkReceived(link),
        DownloadEventView::FileFetched(fetch),
    ]
}

proof fn lemma_finished_download_trace(job: DownloadJobView, events: Seq<DownloadEventView>)
    requires
        job.phase == DownloadPhase::Finished,
    ensures
        download_trace(job, events) == Seq::<DownloadActionView>::empty(),
    decreases events.len(),
{
    if events.len() > 0 {
        reveal(download_next);
        lemma_finished_download_trace(job, events.drop_first());
        assert(Seq::<DownloadActionView>::empty() + Seq::<DownloadActionView>::empty()
            =~= Seq::<DownloadActionView>::empty());
    }
}

/// A download locked by other work is left alone: whatever the caller reports
/// afterwards, the download job finishes at once, successfully, without
/// touching the table.
pub proof fn lemma_locked_download_left_alone(job: DownloadJobView, events: Seq<DownloadEventView>)
    requires
        job.wf(),
        job.phase == DownloadPhase::Start,
        job.locked,
        events.len() > 0,
        events[0] == DownloadEventView::Begin,
    ensures
        download_trace(job, events) == seq![DownloadActionView::Finish(Ok(()))],
        download_updates(download_trace(job, events)) == Seq::<DbCommand>::empty(),
{
    reveal(download_next);
    let (j1, a1) = download_next(job, events[0]);
    lemma_finished_download_trace(j1, events.drop_first());
    assert(a1 + Seq::<DownloadActionView>::empty() =~= a1);
    reveal_with_fuel(download_updates, 2);
}

/// A download job never leaves its download locked once its table updates
/// have all been carried out: whatever the link request and the fetch give,
/// the download ends unlocked with its retries reset, completed when both
/// succeeded and still marked as downloading otherwise; and the job ends by
/// reporting success exactly when both succeeded.
pub proof fn lemma_download_job_releases_lock(
    job: DownloadJobView,
    row: Download,
    link: Result<Seq<char>, Seq<char>>,
    fetch: Result<(), Seq<char>>,
)
    requires
        job.wf(),
        job.phase == DownloadPhase::Start,
        !job.locked,
        row.id == job.id,
    ensures
        ({
            let run = download_trace(job, download_events(link, fetch));
            let after = apply_all(download_updates(run), row);
            &&& !after.lock
            &&& after.retries == 0
            &&& after.state == (if link is Ok && fetch is Ok {
                DownloadState::Completed
            } else {
                DownloadState::Downloading
            })
            &&& run.last() matches DownloadActionView::Finish(r) && (r is Ok <==> (link is Ok
                && fetch is Ok))
        }),
{
    reveal_with_fuel(apply_all, 3);
    let id = job.id;
    let events = download_events(link, fetch);
    let rest1 = events.drop_first();
    let rest2 = rest1.drop_first();
    let rest3 = rest2.drop_first();
    let (j1, a1) = download_next(job, events[0]);
    let (j2, a2) = download_next(j1, rest1[0]);
    let (j3, a3) = download_next(j2, rest2[0]);
    assert(rest3.len() == 0);
    let t3 = download_trace(j3, rest3);
    let t2 = a3 + t3;
    let t1 = a2 + t2;
    assert(download_trace(j2, rest2) == t2);
    assert(download_trace(j1, rest1) == t1);
    assert(download_trace(job, events) == a1 + t1);
    let none = Seq::<DbCommand>::empty();
    let start = seq![
        DbCommand::SetLock { id, lock: true },
        DbCommand::SetState { id, state: DownloadState::Downloading },
    ];
    let unlock = seq![DbCommand::SetLock { id, lock: false }];
    let done = seq![
        DbCommand::SetState { id, state: DownloadState::Completed },
        DbCommand::SetLock { id, lock: false },
    ];
    assert(j1.phase == DownloadPhase::AwaitingLink && j1.id == id && download_updates(a1) == start)
        by {
        reveal(download_next);
        reveal_with_fuel(download_updates, 4);
    }
    lemma_download_updates_concat(a1, t1);
    lemma_download_updates_concat(a2, t2);
    lemma_download_updates_concat(a3, t3);
    match link {
        Err(e) => {
            assert(j2.phase == DownloadPhase::Finished && download_updates(a2) == unlock && a2.len()
                > 0 && a2.last() matches DownloadActionView::Finish(Err(_))) by {
                reveal(download_next);
                reveal_with_fuel(download_updates, 3);
            }
            lemma_finished_download_trace(j2, rest2);
            assert(t1 =~= a2);
            lemma_apply_all_concat(start, unlock, row);
            assert(start + (unlock + none) =~= start + unlock);
        },
        Ok(url) => {
            assert(j2.phase == DownloadPhase::AwaitingFile && j2.id == id && download_updates(a2)
                == none) by {
                reveal(download_next);
                reveal_with_fuel(download_updates, 3);
            }
            assert(t3 == Seq::<DownloadActionView>::empty());
            assert(t2 =~= a3);
            match fetch {
                Err(e) => {
                    assert(download_updates(a3) == unlock && a3.len() > 0 && a3.last() matches DownloadActionView::Finish(Err(_))) by {
                        reveal(download_next);
                        reveal_with_fuel(download_updates, 3);
                    }
                    lemma_apply_all_concat(start, unlock, row);
                    assert(start + (none + (unlock + none)) =~= start + unlock);
                },
                Ok(()) => {
                    assert(download_updates(a3) == done && a3.len() > 0 && a3.last()
                        == DownloadActionView::Finish(Ok(()))) by {
                        reveal(download_next);
                        reveal_with_fuel(download_updates, 4);
                    }
                    lemma_apply_all_concat(start, done, row);
                    assert(start + (none + (done + none)) =~= start + done);
                },
            }
        },
    }
}

/// What a failed download attempt leads to: after more than five retries the
/// download is evicted, marked as failed; otherwise it is marked as ready
/// again, unlocked (a failure of that is ignored), and its retries are counted
/// up last, so that the change of state, which resets the retries, does not
/// wipe out the count.
pub open spec fn download_failure_plan(download: Download) -> Seq<DbStep> {
    if download.retries > 5 {
        seq![
            DbStep {
                command: DbCommand::SetState { id: download.id, state: DownloadState::Failed },
                ignore_failure: false,
            },
        ]
    } else {
        seq![
            DbStep {
                command: DbCommand::SetState { id: download.id, state: DownloadState::Ready },
                ignore_failure: false,
            },
            DbStep {
                command: DbCommand::SetLock { id: download.id, lock: false },
                ignore_failure: true,
            },
            DbStep {
                command: DbCommand::SetRetries { id: download.id, retries: (download.retries + 1) as i64 },
                ignore_failure: false,
            },
        ]
    }
}

/// The table updates that follow a failed download attempt (see
/// [`download_failure_plan`]).
pub fn download_failure_steps(download: &Download) -> (res: Vec<DbStep>)
    ensures
        res@ == download_failure_plan(*download),
{
    let mut steps: Vec<DbStep> = Vec::new();
    if download.retries > 5 {
        steps.push(
            DbStep {
                command: DbCommand::SetState { id: download.id, state: DownloadState::Failed },
                ignore_failure: false,
            },
        );
    } else {
        steps.push(
            DbStep {
                command: DbCommand::SetState { id: download.id, state: DownloadState::Ready },
                ignore_failure: false,
            },
        );
        steps.push(
            DbStep {
                command: DbCommand::SetLock { id: download.id, lock: false },
                ignore_failure: true,
            },
        );
        steps.push(
            DbStep {
                command: DbCommand::SetRetries { id: download.id, retries: download.retries + 1 },
                ignore_failure: false,
            },
        );
    }
    proof {
        assert(steps@ =~= download_failure_plan(*download));
    }
    steps
}

/// The updates of a list of table steps, in order.
pub open spec fn step_commands(steps: Seq<DbStep>) -> Seq<DbCommand> {
    steps.map_values(|s: DbStep| s.command)
}

/// What a failed download attempt leaves in the table once its updates have
/// all been carried out: a download that had been retried more than five
/// times is evicted, marked as failed; any other one is unlocked, ready for
/// another attempt, and counts one retry more than before. So a download whose
/// attempts keep failing is evicted after at most seven failed attempts when
/// it started with no retries.
pub proof fn lemma_download_failure_outcome(download: Download, row: Download)
    requires
        row.id == download.id,
    ensures
        ({
            let after = apply_all(step_commands(download_failure_plan(download)), row);
            &&& download.retries > 5 ==> after.state == DownloadState::Failed && after.retries == 0
            &&& download.retries <= 5 ==> {
                &&& after.state == DownloadState::Ready
                &&& !after.lock
                &&& after.retries == download.retries + 1
            }
        }),
{
    reveal_with_fuel(apply_all, 4);
    let plan = download_failure_plan(download);
    if download.retries > 5 {
        assert(step_commands(plan) =~= seq![
            DbCommand::SetState { id: download.id, state: DownloadState::Failed },
        ]);
    } else {
        assert(step_commands(plan) =~= seq![
            DbCommand::SetState { id: download.id, state: DownloadState::Ready },
            DbCommand::SetLock { id: download.id, lock: false },
            DbCommand::SetRetries { id: download.id, retries: (download.retries + 1) as i64 },
        ]);
    }
}

/// The row of a download after `n` failed attempts, each read afresh from the
/// table and followed by the failure updates, until it is evicted.
pub open spec fn after_failed_attempts(row: Download, n: nat) -> Download
    decreases n,
{
    if n == 0 || row.state == DownloadState::Failed {
        row
    } else {
        after_failed_attempts(apply_all(step_commands(download_failure_plan(row)), row), (n - 1) as nat)
    }
}

/// A download whose attempts keep failing is evicted: with `r` retries
/// recorded (at most six), `7 - r` failed attempts leave it failed; one that
/// starts with no retries is evicted after seven.
pub proof fn lemma_repeated_failures_evict(row: Download)
    requires
        0 <= row.retries <= 6,
        row.state != DownloadState::Failed,
    ensures
        after_failed_attempts(row, (7 - row.retries) as nat).state == DownloadState::Failed,
    decreases 7 - row.retries,
{
    lemma_download_failure_outcome(row, row);
    let next = apply_all(step_commands(download_failure_plan(row)), row);
    assert(after_failed_attempts(row, (7 - row.retries) as nat) == after_failed_attempts(
        next,
        (7 - row.retries - 1) as nat,
    ));
    if row.retries <= 5 {
        lemma_repeated_failures_evict(next);
    }
}

} // verus!
