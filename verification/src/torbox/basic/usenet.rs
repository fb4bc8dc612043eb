//! Creation of usenet downloads, answered without data.

use vstd::prelude::*;
use crate::fs_path::FsPath;
use crate::torbox::TorBoxApiConfig;
use crate::torbox::request::Request;
use crate::torbox::usenet::create_download_request as full_create_download_request;

verus! {

/// The request that creates a usenet download from an `.nzb` file, with the
/// optional name and password; it is sent without expecting result data.
pub fn create_download_request(
    config: &TorBoxApiConfig,
    path: Option<FsPath>,
    name: Option<String>,
    password: Option<String>,
    post_processing: i8,
    as_queued: bool,
    add_only_if_cached: bool,
) -> (res: Request<()>)
    ensures
        res@ == crate::torbox::usenet::create_download_view(
            config@,
            path,
            None,
            name,
            password,
            post_processing,
            as_queued,
            add_only_if_cached,
        ),
{
    full_create_download_request(
        config,
        path,
        None,
        name,
        password,
        post_processing,
        as_queued,
        add_only_if_cached,
    )
}

} // verus!
