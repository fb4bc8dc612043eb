use std::collections::HashMap;
use torboxhole::config::{Config, DirectoriesPart, TorBoxPart};
use torboxhole::database::{DbCommand, DbStep, Download, DownloadRow, DownloadState};
use torboxhole::fs_path::FsPath;
use torboxhole::processor::archive::{
    archive_entry_kind, first_part_name, flatten_step, is_video_extension, is_video_file,
    is_zip_archive, merge_sources, merged_name, nested_archive_follow_up, nested_archive_method,
    nested_scan_step, part_name, rescan_nested, ArchiveEntryKind, FlattenStep,
    NestedArchiveFollowUp, NestedArchiveMethod, NestedScanStep, NESTED_SCAN_MAX_PASSES,
};
use torboxhole::processor::check_ready::{ready_check_request, ready_check_updates};
use torboxhole::processor::download::{
    archive_name, download_failure_steps, DownloadAction, DownloadError, DownloadEvent,
    DownloadJob, DownloadPhase,
};
use torboxhole::processor::extract::{
    extract_failure_steps, scratch_name, ExtractAction, ExtractError, ExtractEvent, ExtractJob,
    ExtractPhase,
};
use torboxhole::processor::ingest::{ingest_name, ingest_update, is_nzb_file};
use torboxhole::processor::queue::{
    downloads_to_start, has_download_capacity, queue_plan, queued_updates, temp_nzb_name,
};
use torboxhole::text::{
    bool_to_string, file_extension, file_stem, i64_to_string, replace_all, str_equals,
    two_digit_string, u64_to_string,
};
use torboxhole::torbox::basic;
use torboxhole::torbox::download_limit::{checked_download_limit, resolve_download_limit};
use torboxhole::torbox::request::{tb_url, FormField, FormValue, HttpMethod, OptionalForm, Request};
use torboxhole::torbox::usenet::{
    create_download_request, list_all_request, list_request, request_dl_request,
    CreateDownloadData, ListData, ListQuery, MY_LIST_URL,
};
use torboxhole::torbox::user::{me_request, UserData, UserQuery};
use torboxhole::torbox::{GenericTorBoxJson, Timestamp, TorBoxApiConfig, TorBoxError};

fn api() -> TorBoxApiConfig {
    TorBoxApiConfig::new(
        "https://api.torbox.app".to_string(),
        "v1".to_string(),
        "secret".to_string(),
    )
}

fn download(id: i64, name: &str, lock: bool, retries: i64) -> Download {
    Download {
        id,
        name: name.to_string(),
        nzb: "<nzb/>".to_string(),
        progress_bits: 0,
        download_id: 77,
        retries,
        lock,
        state: DownloadState::Ready,
    }
}

fn user(plan: i8, slots: i64) -> UserData {
    let t = Timestamp { seconds: 0, nanoseconds: 0 };
    UserData {
        id: 1,
        created_at: t,
        updated_at: t,
        email: "a@b.c".to_string(),
        plan,
        total_downloaded: 0,
        customer: "c".to_string(),
        server: 0,
        additional_concurrent_slots: slots,
        is_subscribed: true,
        premium_expires_at: None,
        cooldown_until: None,
        auth_id: "x".to_string(),
        user_referral: None,
        base_email: "a@b.c".to_string(),
        settings: HashMap::new(),
    }
}

fn path_string(p: &FsPath) -> String {
    let mut s = p.base().to_string();
    for c in p.components() {
        s.push('/');
        s.push_str(c);
    }
    s
}

fn text_fields(fields: &[FormField]) -> Vec<(String, String)> {
    fields
        .iter()
        .map(|f| match &f.value {
            FormValue::Text(t) => (f.name.clone(), t.clone()),
            FormValue::File(p) => (f.name.clone(), format!("file:{}", path_string(p))),
            FormValue::Bytes(b) => (f.name.clone(), format!("bytes:{}", b.len())),
        })
        .collect()
}

#[test]
fn decimal_formatting() {
    assert_eq!(u64_to_string(0), "0");
    assert_eq!(u64_to_string(1234567890), "1234567890");
    assert_eq!(u64_to_string(u64::MAX), u64::MAX.to_string());
    assert_eq!(i64_to_string(-42), "-42");
    assert_eq!(i64_to_string(i64::MIN), i64::MIN.to_string());
    assert_eq!(i64_to_string(i64::MAX), i64::MAX.to_string());
    assert_eq!(two_digit_string(1), "01");
    assert_eq!(two_digit_string(0), "00");
    assert_eq!(two_digit_string(12), "12");
    assert_eq!(two_digit_string(123), "123");
    assert_eq!(bool_to_string(true), "true");
    assert_eq!(bool_to_string(false), "false");
}

#[test]
fn replacement_matches_str_replace() {
    for (s, from, to) in [
        ("show.nzb", ".nzb", ""),
        ("a.nzb.nzb", ".nzb", ""),
        ("..nzbnzb", ".nzb", ""),
        ("aaaa", "aa", "b"),
        ("", "x", "y"),
        ("abc", "abcd", "z"),
        ("abc", "", "-"),
        ("", "", "-"),
        ("résumé", "", ""),
    ] {
        assert_eq!(replace_all(s, from, to), s.replace(from, to));
    }
    assert_eq!(replace_all("ab", "", "X"), "XaXbX");
}

#[test]
fn file_name_parts() {
    assert_eq!(file_extension("movie.mkv"), Some("mkv".to_string()));
    assert_eq!(file_extension("archive.tar.gz"), Some("gz".to_string()));
    assert_eq!(file_extension(".hidden"), None);
    assert_eq!(file_extension("noext"), None);
    assert_eq!(file_extension("trailing."), Some("".to_string()));
    assert_eq!(file_extension(".."), None);
    assert_eq!(file_stem("archive.tar.gz"), Some("archive.tar".to_string()));
    assert_eq!(file_stem(".hidden"), Some(".hidden".to_string()));
    assert_eq!(file_stem("noext"), Some("noext".to_string()));
    assert_eq!(file_stem("."), None);
    assert!(str_equals("abc", "abc"));
    assert!(!str_equals("abc", "abd"));
    assert!(!str_equals("abc", "ab"));
}

#[test]
fn endpoint_urls() {
    let state = api();
    assert_eq!(tb_url(&state, "api/user/me"), "https://api.torbox.app/v1/api/user/me");
    assert_eq!(
        basic::request::tb_url(&state, "api/usenet/mylist".to_string()),
        "https://api.torbox.app/v1/api/usenet/mylist"
    );
}

#[test]
fn generic_response_results() {
    let ok: GenericTorBoxJson<i32> = GenericTorBoxJson::new(true, None, None, Some(5));
    assert!(matches!(ok.into_result(), Ok(5)));

    let failed: GenericTorBoxJson<i32> =
        GenericTorBoxJson::new(false, Some("bad key".to_string()), None, Some(5));
    match failed.into_result() {
        Err(e) => assert_eq!(e.message(), "torbox error: bad key"),
        Ok(_) => panic!("an unsuccessful response has no data"),
    }

    let unknown: GenericTorBoxJson<i32> = GenericTorBoxJson::new(false, None, None, None);
    match unknown.into_result() {
        Err(TorBoxError::Api(m)) => assert_eq!(m, "unknown error"),
        _ => panic!("an unsuccessful response is an API error"),
    }

    let empty: GenericTorBoxJson<i32> = GenericTorBoxJson::new(true, None, None, None);
    match empty.into_result() {
        Err(e) => {
            assert!(matches!(e, TorBoxError::MissingData));
            assert_eq!(e.message(), "data = None");
        }
        Ok(_) => panic!("no data was sent"),
    }
}

#[test]
fn request_builder_settings() {
    let fresh: Request<()> = Request::builder().build();
    assert_eq!(fresh.url(), "");
    assert_eq!(fresh.method(), HttpMethod::Get);
    assert_eq!(fresh.auth_key(), "");
    assert!(fresh.body().is_empty());
    assert!(fresh.multipart().is_empty());
    assert!(fresh.query().is_none());

    let form = OptionalForm::new()
        .text("a", Some("1".to_string()))
        .text("b", None)
        .part("c", Some(FormValue::Bytes(vec![1, 2, 3])))
        .part("d", None)
        .file("e", None)
        .inner();
    let built = Request::<ListQuery>::builder()
        .with_url("http://x/y")
        .with_method(HttpMethod::Post)
        .with_auth_key("k")
        .with_body(vec![9])
        .with_multipart(form)
        .with_query(ListQuery { bypass_cache: true, id: None, offset: 1, limit: 2 })
        .build();
    assert_eq!(built.url(), "http://x/y");
    assert_eq!(built.method(), HttpMethod::Post);
    assert_eq!(built.auth_key(), "k");
    assert_eq!(built.body(), &[9]);
    assert_eq!(
        text_fields(built.multipart()),
        vec![("a".to_string(), "1".to_string()), ("c".to_string(), "bytes:3".to_string())]
    );
    assert_eq!(
        *built.query(),
        Some(ListQuery { bypass_cache: true, id: None, offset: 1, limit: 2 })
    );
}

#[test]
fn create_download_request_form() {
    let state = api();
    let request = create_download_request(
        &state,
        Some(FsPath::new("/tmp").join("tbh_3.nzb")),
        None,
        Some("Show".to_string()),
        None,
        2,
        false,
        true,
    );
    assert_eq!(request.url(), "https://api.torbox.app/v1/api/usenet/createusenetdownload");
    assert_eq!(request.method(), HttpMethod::Post);
    assert_eq!(request.auth_key(), "secret");
    assert_eq!(
        text_fields(request.multipart()),
        vec![
            ("file".to_string(), "file:/tmp/tbh_3.nzb".to_string()),
            ("name".to_string(), "Show".to_string()),
            ("post_processing".to_string(), "2".to_string()),
            ("as_queued".to_string(), "false".to_string()),
            ("add_only_if_cached".to_string(), "true".to_string()),
        ]
    );
    let negative = create_download_request(&state, None, Some("l".to_string()), None, Some("p".to_string()), -1, true, false);
    assert_eq!(
        text_fields(negative.multipart()),
        vec![
            ("link".to_string(), "l".to_string()),
            ("password".to_string(), "p".to_string()),
            ("post_processing".to_string(), "-1".to_string()),
            ("as_queued".to_string(), "true".to_string()),
            ("add_only_if_cached".to_string(), "false".to_string()),
        ]
    );
    let small = basic::usenet::create_download_request(&state, None, Some("n".to_string()), None, 0, false, false);
    assert_eq!(text_fields(small.multipart())[0], ("name".to_string(), "n".to_string()));
}

#[test]
fn listing_and_link_requests() {
    let state = api();
    let link = request_dl_request(&state, 12, None, true, None);
    assert_eq!(link.url(), "https://api.torbox.app/v1/api/usenet/requestdl");
    assert_eq!(link.method(), HttpMethod::Get);
    assert_eq!(link.auth_key(), "");
    let q = link.query().as_ref().unwrap();
    assert_eq!(q.token, "secret");
    assert_eq!(q.usenet_id, 12);
    assert!(q.zip_link);
    assert!(q.file_id.is_none() && q.user_ip.is_none());

    let one = list_request(&state, true, 9);
    assert_eq!(one.url(), format!("https://api.torbox.app/v1/{}", MY_LIST_URL));
    assert_eq!(one.auth_key(), "secret");
    assert_eq!(*one.query(), Some(ListQuery { bypass_cache: true, id: Some(9), offset: 0, limit: 0 }));

    let all = list_all_request(&state, false, 5, 1000);
    assert_eq!(*all.query(), Some(ListQuery { bypass_cache: false, id: None, offset: 5, limit: 1000 }));

    let me = me_request(&state, true);
    assert_eq!(me.url(), "https://api.torbox.app/v1/api/user/me");
    assert_eq!(*me.query(), Some(UserQuery { settings: true }));

    let basic_me = basic::user::me_request(&state, false);
    assert_eq!(basic_me.url(), "https://api.torbox.app/v1/api/user/me?settings=false");
    assert_eq!(basic_me.auth_key(), "secret");
    assert_eq!(basic_me.method(), HttpMethod::Get);
}

#[test]
fn download_limits_by_plan() {
    assert_eq!(resolve_download_limit(&user(0, 0)), 1);
    assert_eq!(resolve_download_limit(&user(1, 0)), 3);
    assert_eq!(resolve_download_limit(&user(2, 0)), 10);
    assert_eq!(resolve_download_limit(&user(3, 2)), 7);
    assert_eq!(resolve_download_limit(&user(4, 0)), 0);
    assert_eq!(resolve_download_limit(&user(-1, 1)), 1);
    assert_eq!(resolve_download_limit(&user(0, 1 << 32)), 1);
}

#[test]
fn state_codes() {
    let states = [
        DownloadState::Queued,
        DownloadState::Grabbing,
        DownloadState::Ready,
        DownloadState::Downloading,
        DownloadState::Completed,
        DownloadState::Failed,
        DownloadState::Extracting,
        DownloadState::Extracted,
    ];
    for (i, s) in states.iter().enumerate() {
        assert_eq!(s.to_i32(), i as i32);
        assert_eq!(DownloadState::from_i64(i as i64), Some(*s));
    }
    assert_eq!(DownloadState::from_i64(8), None);
    assert_eq!(DownloadState::from_i64(-1), None);
}

#[test]
fn rows_decode() {
    let row = DownloadRow {
        id: 4,
        name: "n".to_string(),
        nzb: "z".to_string(),
        progress_bits: 0.5f32.to_bits(),
        download_id: 8,
        retries: 2,
        lock: 1,
        state: 6,
    };
    let d = Download::from_row(row);
    assert_eq!(d.id, 4);
    assert!(d.lock);
    assert_eq!(d.state, DownloadState::Extracting);
    assert_eq!(f32::from_bits(d.progress_bits), 0.5);
    let unlocked = Download::from_row(DownloadRow {
        id: 1,
        name: String::new(),
        nzb: String::new(),
        progress_bits: 0,
        download_id: 0,
        retries: 0,
        lock: 2,
        state: 0,
    });
    assert!(!unlocked.lock);
}

#[test]
fn archive_names_are_sanitized() {
    assert_eq!(archive_name("Show"), "Show.zip");
    assert_eq!(scratch_name("Show"), "_temp_Show");
    let job = DownloadJob::new(&download(1, "a/b:c", false, 0), &FsPath::new("/dl"), &api());
    let mut job = job;
    let actions = job.step(DownloadEvent::Begin);
    assert_eq!(actions.len(), 3);
    let actions = job.step(DownloadEvent::LinkReceived(Ok("https://cdn/x".to_string())));
    match &actions[1] {
        DownloadAction::FetchFile { url, path } => {
            assert_eq!(url, "https://cdn/x");
            assert_eq!(path.base(), "/dl");
            assert_eq!(path.components(), &["abc.zip".to_string()]);
        }
        _ => panic!("expected a fetch"),
    }
}

#[test]
fn jobs_share_the_archive_path() {
    let d = download(4, "ignored by both", false, 0);
    let mut fetch = DownloadJob::with_sanitized_name(&d, &FsPath::new("/dl"), &api(), "Movie");
    fetch.step(DownloadEvent::Begin);
    let fetched_into = match &fetch.step(DownloadEvent::LinkReceived(Ok("u".to_string())))[1] {
        DownloadAction::FetchFile { path, .. } => path_string(path),
        _ => panic!("expected a fetch"),
    };
    assert_eq!(fetched_into, "/dl/Movie.zip");

    let mut extract =
        ExtractJob::with_sanitized_name(&d, &FsPath::new("/dl"), &FsPath::new("/out"), "Movie");
    let begun = extract_text(&extract.step(ExtractEvent::Begin));
    assert_eq!(begun[2], format!("check:{}", fetched_into));
    extract.step(ExtractEvent::ArchiveChecked(true));
    extract.step(ExtractEvent::ScratchChecked(false));
    assert_eq!(
        extract_text(&extract.step(ExtractEvent::ScratchPrepared(Ok(())))),
        vec![format!("extract:{}->/out/_temp_Movie", fetched_into)]
    );
    extract.step(ExtractEvent::Extracted(Ok(())));
    let done = extract_text(&extract.step(ExtractEvent::Flattened(Ok(()))));
    assert_eq!(done[1], format!("rmarchive:{}", fetched_into));
}

fn updates_of(actions: &[DownloadAction]) -> Vec<String> {
    actions
        .iter()
        .map(|a| match a {
            DownloadAction::Update(c) => format!("{:?}", c),
            DownloadAction::RequestLink(_) => "link".to_string(),
            DownloadAction::RemoveStaleArchive(_) => "remove".to_string(),
            DownloadAction::FetchFile { .. } => "fetch".to_string(),
            DownloadAction::Finish(Ok(())) => "ok".to_string(),
            DownloadAction::Finish(Err(e)) => format!("err:{}", e.message()),
        })
        .collect()
}

#[test]
fn download_job_success() {
    let mut job = DownloadJob::new(&download(3, "Show", false, 0), &FsPath::new("/dl"), &api());
    assert_eq!(job.phase(), DownloadPhase::Start);
    let begin = job.step(DownloadEvent::Begin);
    assert_eq!(
        updates_of(&begin),
        vec![
            "SetLock { id: 3, lock: true }".to_string(),
            "SetState { id: 3, state: Downloading }".to_string(),
            "link".to_string(),
        ]
    );
    match &begin[2] {
        DownloadAction::RequestLink(r) => {
            assert_eq!(r.query().as_ref().unwrap().usenet_id, 77);
            assert!(r.query().as_ref().unwrap().zip_link);
        }
        _ => panic!("expected the link request"),
    }
    assert_eq!(job.phase(), DownloadPhase::AwaitingLink);
    let linked = job.step(DownloadEvent::LinkReceived(Ok("u".to_string())));
    assert_eq!(updates_of(&linked), vec!["remove".to_string(), "fetch".to_string()]);
    let fetched = job.step(DownloadEvent::FileFetched(Ok(())));
    assert_eq!(
        updates_of(&fetched),
        vec![
            "SetState { id: 3, state: Completed }".to_string(),
            "SetLock { id: 3, lock: false }".to_string(),
            "ok".to_string(),
        ]
    );
    assert_eq!(job.phase(), DownloadPhase::Finished);
    assert!(job.step(DownloadEvent::Begin).is_empty());
}

#[test]
fn download_job_failures_and_lock() {
    let mut locked = DownloadJob::new(&download(3, "Show", true, 0), &FsPath::new("/dl"), &api());
    assert_eq!(updates_of(&locked.step(DownloadEvent::Begin)), vec!["ok".to_string()]);

    let mut job = DownloadJob::new(&download(3, "Show", false, 0), &FsPath::new("/dl"), &api());
    job.step(DownloadEvent::Begin);
    assert!(job.step(DownloadEvent::FileFetched(Ok(()))).is_empty());
    let failed = job.step(DownloadEvent::LinkReceived(Err("boom".to_string())));
    assert_eq!(
        updates_of(&failed),
        vec![
            "SetLock { id: 3, lock: false }".to_string(),
            "err:Failed to request download link: boom".to_string(),
        ]
    );

    let mut job = DownloadJob::new(&download(3, "Show", false, 0), &FsPath::new("/dl"), &api());
    job.step(DownloadEvent::Begin);
    job.step(DownloadEvent::LinkReceived(Ok("u".to_string())));
    let failed = job.step(DownloadEvent::FileFetched(Err("404".to_string())));
    assert_eq!(
        updates_of(&failed),
        vec![
            "SetLock { id: 3, lock: false }".to_string(),
            "err:Failed to download file: 404".to_string(),
        ]
    );
    assert_eq!(
        DownloadError::FetchFailed("x".to_string()).message(),
        "Failed to download file: x"
    );
}

fn steps_text(steps: &[DbStep]) -> Vec<String> {
    steps
        .iter()
        .map(|s| format!("{:?}/{}", s.command, s.ignore_failure))
        .collect()
}

#[test]
fn retry_policy() {
    assert_eq!(
        steps_text(&download_failure_steps(&download(5, "x", false, 5))),
        vec![
            "SetState { id: 5, state: Ready }/false".to_string(),
            "SetLock { id: 5, lock: false }/true".to_string(),
            "SetRetries { id: 5, retries: 6 }/false".to_string(),
        ]
    );
    assert_eq!(
        steps_text(&download_failure_steps(&download(5, "x", false, 6))),
        vec!["SetState { id: 5, state: Failed }/false".to_string()]
    );
    assert_eq!(
        steps_text(&extract_failure_steps(&download(5, "x", false, 0))),
        vec![
            "SetLock { id: 5, lock: false }/true".to_string(),
            "SetState { id: 5, state: Failed }/false".to_string(),
        ]
    );
}

fn extract_text(actions: &[ExtractAction]) -> Vec<String> {
    actions
        .iter()
        .map(|a| match a {
            ExtractAction::Update(c) => format!("{:?}", c),
            ExtractAction::CheckArchive(p) => format!("check:{}", path_string(p)),
            ExtractAction::CheckScratch(p) => format!("scratch?:{}", path_string(p)),
            ExtractAction::PrepareScratch { path, clear } => {
                format!("prepare:{}:{}", path_string(path), clear)
            }
            ExtractAction::ExtractArchive { archive, into } => {
                format!("extract:{}->{}", path_string(archive), path_string(into))
            }
            ExtractAction::FlattenFiles { from, into } => {
                format!("flatten:{}->{}", path_string(from), path_string(into))
            }
            ExtractAction::RemoveScratch(p) => format!("rmscratch:{}", path_string(p)),
            ExtractAction::RemoveArchive(p) => format!("rmarchive:{}", path_string(p)),
            ExtractAction::Finish(Ok(())) => "ok".to_string(),
            ExtractAction::Finish(Err(ExtractError::ArchiveMissing(p))) => {
                format!("missing:{}", path_string(p))
            }
            ExtractAction::Finish(Err(ExtractError::PreparationFailed(e))) => format!("prep:{}", e),
            ExtractAction::Finish(Err(ExtractError::ExtractionFailed(e))) => format!("extr:{}", e),
            ExtractAction::Finish(Err(ExtractError::FlattenFailed(e))) => format!("flat:{}", e),
        })
        .collect()
}

#[test]
fn extract_job_success() {
    let mut job = ExtractJob::new(&download(2, "Sh?ow", false, 0), &FsPath::new("/dl"), &FsPath::new("/out"));
    assert_eq!(
        extract_text(&job.step(ExtractEvent::Begin)),
        vec![
            "SetLock { id: 2, lock: true }".to_string(),
            "SetState { id: 2, state: Extracting }".to_string(),
            "check:/dl/Show.zip".to_string(),
        ]
    );
    assert_eq!(extract_text(&job.step(ExtractEvent::ArchiveChecked(true))), vec!["scratch?:/out/_temp_Show".to_string()]);
    assert_eq!(extract_text(&job.step(ExtractEvent::ScratchChecked(true))), vec!["prepare:/out/_temp_Show:true".to_string()]);
    assert_eq!(
        extract_text(&job.step(ExtractEvent::ScratchPrepared(Ok(())))),
        vec!["extract:/dl/Show.zip->/out/_temp_Show".to_string()]
    );
    assert_eq!(
        extract_text(&job.step(ExtractEvent::Extracted(Ok(())))),
        vec!["flatten:/out/_temp_Show->/out".to_string()]
    );
    assert_eq!(
        extract_text(&job.step(ExtractEvent::Flattened(Ok(())))),
        vec![
            "rmscratch:/out/_temp_Show".to_string(),
            "rmarchive:/dl/Show.zip".to_string(),
            "SetState { id: 2, state: Extracted }".to_string(),
            "SetLock { id: 2, lock: false }".to_string(),
            "ok".to_string(),
        ]
    );
    assert_eq!(job.phase(), ExtractPhase::Finished);
}

#[test]
fn extract_job_failures() {
    let mut locked = ExtractJob::new(&download(2, "S", true, 0), &FsPath::new("/dl"), &FsPath::new("/out"));
    assert_eq!(extract_text(&locked.step(ExtractEvent::Begin)), vec!["ok".to_string()]);

    let mut missing = ExtractJob::new(&download(2, "S", false, 0), &FsPath::new("/dl"), &FsPath::new("/out"));
    missing.step(ExtractEvent::Begin);
    assert_eq!(
        extract_text(&missing.step(ExtractEvent::ArchiveChecked(false))),
        vec!["SetLock { id: 2, lock: false }".to_string(), "missing:/dl/S.zip".to_string()]
    );

    let mut prep = ExtractJob::new(&download(2, "S", false, 0), &FsPath::new("/dl"), &FsPath::new("/out"));
    prep.step(ExtractEvent::Begin);
    prep.step(ExtractEvent::ArchiveChecked(true));
    assert_eq!(extract_text(&prep.step(ExtractEvent::ScratchChecked(false))), vec!["prepare:/out/_temp_S:false".to_string()]);
    assert_eq!(extract_text(&prep.step(ExtractEvent::ScratchPrepared(Err("denied".to_string())))), vec!["prep:denied".to_string()]);

    let mut bad = ExtractJob::new(&download(2, "S", false, 0), &FsPath::new("/dl"), &FsPath::new("/out"));
    bad.step(ExtractEvent::Begin);
    bad.step(ExtractEvent::ArchiveChecked(true));
    bad.step(ExtractEvent::ScratchChecked(false));
    bad.step(ExtractEvent::ScratchPrepared(Ok(())));
    assert_eq!(
        extract_text(&bad.step(ExtractEvent::Extracted(Err("corrupt".to_string())))),
        vec![
            "SetLock { id: 2, lock: false }".to_string(),
            "rmscratch:/out/_temp_S".to_string(),
            "extr:corrupt".to_string(),
        ]
    );

    let mut flat = ExtractJob::new(&download(2, "S", false, 0), &FsPath::new("/dl"), &FsPath::new("/out"));
    flat.step(ExtractEvent::Begin);
    flat.step(ExtractEvent::ArchiveChecked(true));
    flat.step(ExtractEvent::ScratchChecked(false));
    flat.step(ExtractEvent::ScratchPrepared(Ok(())));
    flat.step(ExtractEvent::Extracted(Ok(())));
    assert_eq!(
        extract_text(&flat.step(ExtractEvent::Flattened(Err("busy".to_string())))),
        vec![
            "SetLock { id: 2, lock: false }".to_string(),
            "rmscratch:/out/_temp_S".to_string(),
            "flat:busy".to_string(),
        ]
    );
}

#[test]
fn video_and_archive_names() {
    assert!(is_video_file("movie.mkv"));
    assert!(is_video_file("MOVIE.MKV"));
    assert!(is_video_file("clip.Mp4"));
    assert!(is_video_file("old.3gp"));
    assert!(!is_video_file("notes.txt"));
    assert!(!is_video_file(".mp4"));
    assert!(!is_video_file("mp4"));
    assert!(is_video_extension("webm"));
    assert!(is_video_extension("ogv"));
    assert!(!is_video_extension("MKV"));
    assert!(!is_video_extension("mp"));
    assert!(is_zip_archive("a.zip"));
    assert!(!is_zip_archive("a.ZIP"));
    assert!(!is_zip_archive("a.z01"));
    assert_eq!(first_part_name("movie.zip"), "movie.z01");
    assert_eq!(part_name("movie", 1), "movie.z01");
    assert_eq!(part_name("movie", 10), "movie.z10");
    assert_eq!(part_name("movie", 100), "movie.z100");
    assert_eq!(merged_name("movie"), "movie_merged.zip");
}

#[test]
fn archive_entry_decisions() {
    assert_eq!(archive_entry_kind(false, "x"), ArchiveEntryKind::Skip);
    assert_eq!(archive_entry_kind(true, "dir/"), ArchiveEntryKind::Directory);
    assert_eq!(archive_entry_kind(true, "dir/file.mkv"), ArchiveEntryKind::File);
    assert_eq!(nested_scan_step(true, false, Some("inner.zip")), NestedScanStep::CollectArchive);
    assert_eq!(nested_scan_step(true, false, Some("inner.txt")), NestedScanStep::Skip);
    assert_eq!(nested_scan_step(false, true, Some("sub")), NestedScanStep::Descend);
    assert_eq!(nested_scan_step(false, false, None), NestedScanStep::Skip);
    assert_eq!(flatten_step(true, false, Some("a.mkv")), FlattenStep::Descend);
    assert_eq!(flatten_step(false, true, Some("a.mkv")), FlattenStep::MoveVideo);
    assert_eq!(flatten_step(false, true, Some("a.nfo")), FlattenStep::Skip);
    assert_eq!(flatten_step(false, true, None), FlattenStep::Skip);
}

#[test]
fn queue_decisions() {
    assert!(!has_download_capacity(3, 3));
    assert!(has_download_capacity(2, 3));
    assert!(!has_download_capacity(0, 0));
    assert!(has_download_capacity(1000, -1));
    assert_eq!(temp_nzb_name(5), "tbh_5.nzb");
    assert_eq!(temp_nzb_name(-5), "tbh_-5.nzb");

    let d = download(5, "Show", false, 0);
    let plan = queue_plan(&d, &FsPath::new("/tmp"), &api());
    assert_eq!(path_string(&plan.temp_file), "/tmp/tbh_5.nzb");
    assert_eq!(plan.nzb, "<nzb/>");
    assert_eq!(
        text_fields(plan.request.multipart()),
        vec![
            ("file".to_string(), "file:/tmp/tbh_5.nzb".to_string()),
            ("name".to_string(), "Show".to_string()),
            ("post_processing".to_string(), "2".to_string()),
            ("as_queued".to_string(), "false".to_string()),
            ("add_only_if_cached".to_string(), "false".to_string()),
        ]
    );
    let created = CreateDownloadData { hash: "h".to_string(), usenetdownload_id: 99, auth_id: "a".to_string() };
    let updates: Vec<String> = queued_updates(&d, &created).iter().map(|c| format!("{:?}", c)).collect();
    assert_eq!(
        updates,
        vec![
            "SetState { id: 5, state: Grabbing }".to_string(),
            "SetDownloadId { id: 5, download_id: 99 }".to_string(),
        ]
    );
}

fn list_entry(finished: bool) -> ListData {
    let t = Timestamp { seconds: 1, nanoseconds: 2 };
    ListData {
        id: 1,
        created_at: t,
        updated_at: t,
        auth_id: String::new(),
        name: String::new(),
        hash: String::new(),
        download_state: String::new(),
        download_speed: 0,
        original_url: None,
        eta: 0,
        progress: 0,
        size: 0,
        download_id: String::new(),
        files: Vec::new(),
        download_finished: finished,
    }
}

#[test]
fn ready_check_decisions() {
    let mut d = download(6, "x", false, 0);
    d.download_id = (1i64 << 32) + 5;
    let request = ready_check_request(&api(), &d);
    assert_eq!(*request.query(), Some(ListQuery { bypass_cache: true, id: Some(5), offset: 0, limit: 0 }));
    let ready: Vec<String> = ready_check_updates(&d, &list_entry(true)).iter().map(|c| format!("{:?}", c)).collect();
    assert_eq!(ready, vec!["SetState { id: 6, state: Ready }".to_string()]);
    assert!(ready_check_updates(&d, &list_entry(false)).is_empty());
}

#[test]
fn ingest_names() {
    assert_eq!(ingest_name(Some("Show.S01.nzb")), "Show.S01");
    assert_eq!(ingest_name(Some("a.nzb.nzb")), "a");
    assert_eq!(ingest_name(None), "Unknown file name");
    match ingest_update(Some("x.nzb"), "content".to_string()) {
        DbCommand::CreateDownload { name, nzb } => {
            assert_eq!(name, "x");
            assert_eq!(nzb, "content");
        }
        _ => panic!("expected an insertion"),
    }
}

#[test]
fn configuration_parts() {
    let part = TorBoxPart::new("key".to_string(), "https://base".to_string(), "v2".to_string());
    let state = TorBoxPart::into(&part);
    assert_eq!(state.api_key(), "key");
    assert_eq!(state.api_base(), "https://base");
    assert_eq!(state.api_version(), "v2");
    let dirs = DirectoriesPart::new("in".to_string(), "dl".to_string(), "out".to_string());
    let config = Config::new("db.sqlite".to_string(), part.clone(), dirs);
    assert_eq!(config.database_path(), "db.sqlite");
    assert_eq!(config.torbox().api_key(), "key");
    assert_eq!(config.directories().ingest(), "in");
    assert_eq!(config.directories().download(), "dl");
    assert_eq!(config.directories().output(), "out");
}

#[test]
fn queue_start_counts() {
    assert_eq!(downloads_to_start(0, 1, 10), 1);
    assert_eq!(downloads_to_start(1, 3, 10), 2);
    assert_eq!(downloads_to_start(1, 3, 1), 1);
    assert_eq!(downloads_to_start(3, 3, 4), 0);
    assert_eq!(downloads_to_start(5, 3, 4), 0);
    assert_eq!(downloads_to_start(0, 0, 4), 0);
    assert_eq!(downloads_to_start(7, -1, 4), 4);
}

#[test]
fn nzb_files_are_recognised() {
    assert!(is_nzb_file("Show.S01E01.nzb"));
    assert!(!is_nzb_file("Show.NZB"));
    assert!(!is_nzb_file("notes.txt"));
    assert!(!is_nzb_file(".nzb"));
    assert!(!is_nzb_file("nzb"));
}

#[test]
fn nested_archive_decisions() {
    assert_eq!(nested_archive_method(true), NestedArchiveMethod::CombineParts);
    assert_eq!(nested_archive_method(false), NestedArchiveMethod::ExtractInPlace);
    assert_eq!(
        nested_archive_follow_up(NestedArchiveMethod::CombineParts, true),
        NestedArchiveFollowUp::RemoveArchive
    );
    assert_eq!(
        nested_archive_follow_up(NestedArchiveMethod::CombineParts, false),
        NestedArchiveFollowUp::Abort
    );
    assert_eq!(
        nested_archive_follow_up(NestedArchiveMethod::ExtractInPlace, false),
        NestedArchiveFollowUp::KeepArchive
    );
    assert_eq!(NESTED_SCAN_MAX_PASSES, 5);
    assert!(rescan_nested(0, true));
    assert!(rescan_nested(3, true));
    assert!(!rescan_nested(4, true));
    assert!(!rescan_nested(0, false));
}

#[test]
fn plain_names_keep_their_archive_name() {
    let d = download(9, "Movie (2020) 1080p", false, 0);
    let mut fetch = DownloadJob::new(&d, &FsPath::new("/dl"), &api());
    fetch.step(DownloadEvent::Begin);
    match &fetch.step(DownloadEvent::LinkReceived(Ok("u".to_string())))[1] {
        DownloadAction::FetchFile { path, .. } => {
            assert_eq!(path_string(path), "/dl/Movie (2020) 1080p.zip")
        }
        _ => panic!("expected a fetch"),
    }
    let mut extract = ExtractJob::new(&d, &FsPath::new("/dl"), &FsPath::new("/out"));
    let begun = extract_text(&extract.step(ExtractEvent::Begin));
    assert_eq!(begun[2], "check:/dl/Movie (2020) 1080p.zip");
}

#[test]
fn limits_checked_for_overflow() {
    assert_eq!(checked_download_limit(&user(2, 4)), Some(14));
    assert_eq!(checked_download_limit(&user(9, 0)), Some(0));
    assert_eq!(checked_download_limit(&user(0, i64::MAX)), None);
    assert_eq!(checked_download_limit(&user(7, i64::MAX)), Some(-1));
}

#[test]
fn split_archive_sources() {
    assert_eq!(
        merge_sources("movie", "movie.zip", 2),
        vec!["movie.z01".to_string(), "movie.z02".to_string(), "movie.zip".to_string()]
    );
    assert_eq!(merge_sources("m", "m.zip", 0), vec!["m.zip".to_string()]);
}

#[test]
fn extraction_error_messages() {
    let path = FsPath::new("/dl").join("Show.zip");
    assert_eq!(path.display_text(), "/dl/Show.zip");
    assert_eq!(FsPath::new("/dl").display_text(), "/dl");
    assert_eq!(
        ExtractError::ArchiveMissing(path).message(),
        "File not found: /dl/Show.zip"
    );
    assert_eq!(ExtractError::PreparationFailed("denied".to_string()).message(), "denied");
    assert_eq!(
        ExtractError::ExtractionFailed("bad zip".to_string()).message(),
        "Failed to extract file: bad zip"
    );
    assert_eq!(
        ExtractError::FlattenFailed("busy".to_string()).message(),
        "Failed to flatten files: busy"
    );
}
