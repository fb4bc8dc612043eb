//! Usenet downloads on TorBox: the records the API answers with, and the
//! requests that create, list and fetch downloads.

use vstd::prelude::*;
use crate::fs_path::FsPath;
use crate::text::{bool_text, bool_to_string, i64_to_string, signed_decimal};
use crate::torbox::{ApiConfigView, TorBoxApiState, Timestamp};
use crate::torbox::request::{
    endpoint_url, tb_url, FormFieldView, FormValueView, HttpMethod, OptionalForm, Request,
    RequestView,
};

verus! {

/// Data returned by `api/usenet/createusenetdownload`.
#[derive(Debug, Clone)]
pub struct CreateDownloadData {
    pub hash: String,
    pub usenetdownload_id: i32,
    pub auth_id: String,
}

/// Data returned by `api/usenet/mylist` for one download.
pub struct ListData {
    pub id: i32,
    pub created_at: Timestamp,
    pub updated_at: Timestamp,
    pub auth_id: String,
    pub name: String,
    pub hash: String,
    pub download_state: String,
    pub download_speed: i32,
    pub original_url: Option<String>,
    pub eta: i32,
    pub progress: i32,
    pub size: i32,
    pub download_id: String,
    pub files: Vec<ListDataFile>,
    /// Whether TorBox has finished downloading the content.
    pub download_finished: bool,
}

/// One file of a usenet download.
#[derive(Debug, Clone)]
pub struct ListDataFile {
    pub id: i32,
    pub md5: Option<String>,
    pub hash: String,
    pub name: String,
    pub size: i32,
    pub zipped: bool,
    pub s3_path: String,
    pub infected: bool,
    pub mimetype: String,
    pub short_name: String,
    pub absolute_path: String,
    pub opensubtitles_hash: Option<String>,
}

/// The query of a download-link request.
#[derive(Debug, Clone)]
pub struct RequestDlQuery {
    pub token: String,
    pub usenet_id: i32,
    pub file_id: Option<i32>,
    pub zip_link: bool,
    pub user_ip: Option<String>,
}

/// The query of a download-list request.
#[derive(Debug, Clone, Copy, PartialEq, Eq, Structural)]
pub struct ListQuery {
    pub bypass_cache: bool,
    pub id: Option<i32>,
    pub offset: i32,
    pub limit: i32,
}

/// The path of the download-list endpoint.
pub const MY_LIST_URL: &'static str = "api/usenet/mylist";

/// The form field named `name` that a present value adds.
pub open spec fn text_field(name: Seq<char>, value: Option<String>) -> Seq<FormFieldView> {
    match value {
        Some(v) => seq![FormFieldView { name, value: FormValueView::Text(v@) }],
        None => Seq::empty(),
    }
}

/// The form of a create-download request: the `.nzb` file and the optional
/// settings that are present, in this order.
pub open spec fn create_download_form(
    path: Option<FsPath>,
    link: Option<String>,
    name: Option<String>,
    password: Option<String>,
    post_processing: i8,
    as_queued: bool,
    add_only_if_cached: bool,
) -> Seq<FormFieldView> {
    (match path {
        Some(p) => seq![FormFieldView { name: "file"@, value: FormValueView::File(p@) }],
        None => Seq::empty(),
    }) + text_field("link"@, link) + text_field("name"@, name) + text_field("password"@, password)
        + seq![
        FormFieldView {
            name: "post_processing"@,
            value: FormValueView::Text(signed_decimal(post_processing as int)),
        },
        FormFieldView { name: "as_queued"@, value: FormValueView::Text(bool_text(as_queued)) },
        FormFieldView {
            name: "add_only_if_cached"@,
            value: FormValueView::Text(bool_text(add_only_if_cached)),
        },
    ]
}

/// The request that creates a usenet download: a `POST` of the create-download
/// form to `api/usenet/createusenetdownload`, authenticated with the API key.
pub open spec fn create_download_view(
    config: ApiConfigView,
    path: Option<FsPath>,
    link: Option<String>,
    name: Option<String>,
    password: Option<String>,
    post_processing: i8,
    as_queued: bool,
    add_only_if_cached: bool,
) -> RequestView<()> {
    RequestView::<()> {
        url: endpoint_url(config, "api/usenet/createusenetdownload"@),
        method: HttpMethod::Post,
        auth_key: config.api_key,
        body: Seq::empty(),
        multipart: create_download_form(
            path,
            link,
            name,
            password,
            post_processing,
            as_queued,
            add_only_if_cached,
        ),
        query: None,
    }
}

/// The request that creates a usenet download under the account: a `POST` of
/// a multipart form to `api/usenet/createusenetdownload`, authenticated with
/// the API key. Send **either** a path to an `.nzb` file or a link to one.
///
/// ### Arguments
/// * `state` - TorBox API state
/// * `path` - Path to a .nzb file
/// * `link` - Link to a .nzb file (raw)
/// * `name` - The name you want the usenet download to be
/// * `password` - The password to send to the Usenet client, used for extracting the RAR at the end
/// * `post_processing` - The post-processing option to use
/// * `as_queued` - Tells TorBox you want this usenet download instantly queued
/// * `add_only_if_cached` - Only adds the download if it is cached on TorBox
pub fn create_download_request(
    state: &TorBoxApiState,
    path: Option<FsPath>,
    link: Option<String>,
    name: Option<String>,
    password: Option<String>,
    post_processing: i8,
    as_queued: bool,
    add_only_if_cached: bool,
) -> (res: Request<()>)
    ensures
        res@ == create_download_view(
            state@,
            path,
            link,
            name,
            password,
            post_processing,
            as_queued,
            add_only_if_cached,
        ),
{
    let ghost (gpath, glink, gname, gpassword) = (path, link, name, password);
    let url = tb_url(state, "api/usenet/createusenetdownload");
    let form = OptionalForm::new().file("file", path).text("link", link).text("name", name).text(
        "password",
        password,
    ).text("post_processing", Some(i64_to_string(post_processing as i64))).text(
        "as_queued",
        Some(bool_to_string(as_queued)),
    ).text("add_only_if_cached", Some(bool_to_string(add_only_if_cached)));
    let ghost fields = form@;
    let res = Request::<()>::builder().with_url(url.as_str()).with_method(
        HttpMethod::Post,
    ).with_multipart(form.inner()).with_auth_key(state.api_key()).build();
    proof {
        let expected = create_download_form(
            gpath,
            glink,
            gname,
            gpassword,
            post_processing,
            as_queued,
            add_only_if_cached,
        );
        assert(fields =~= expected);
        assert(res@.body =~= Seq::<u8>::empty());
    }
    res
}

/// The request for the download link of a usenet download: a `GET` of
/// `api/usenet/requestdl` carrying the API key as `token` in the query.
///
/// ### Arguments
/// * `state` - TorBox API state
/// * `usenet_id` - The usenet download's ID that you want to download
/// * `file_id` - The files' ID that you want to download. Optional if using `zip_link`
/// * `zip_link` - If you want a zip link. Takes precedence over `file_id` if both are given
/// * `user_ip` - The user's IPv4 to determine the closest CDN
pub fn request_dl_request(
    state: &TorBoxApiState,
    usenet_id: i32,
    file_id: Option<i32>,
    zip_link: bool,
    user_ip: Option<String>,
) -> (res: Request<RequestDlQuery>)
    ensures
        res@.url == endpoint_url(state@, "api/usenet/requestdl"@),
        res@.method == HttpMethod::Get,
        res@.auth_key == Seq::<char>::empty(),
        res@.body == Seq::<u8>::empty(),
        res@.multipart == Seq::<FormFieldView>::empty(),
        res@.query matches Some(q) && q.token@ == state@.api_key && q.usenet_id == usenet_id
            && q.file_id == file_id && q.zip_link == zip_link && q.user_ip == user_ip,
{
    let url = tb_url(state, "api/usenet/requestdl");
    let query = RequestDlQuery {
        token: String::from_str(state.api_key()),
        usenet_id,
        file_id,
        zip_link,
        user_ip,
    };
    Request::<RequestDlQuery>::builder().with_url(url.as_str()).with_method(
        HttpMethod::Get,
    ).with_query(query).build()
}

/// The request for one usenet download of the account: a `GET` of
/// `api/usenet/mylist` with the download's id, authenticated with the API key.
pub fn list_request(state: &TorBoxApiState, bypass_cache: bool, id: i32) -> (res: Request<
    ListQuery,
>)
    ensures
        res@ == (RequestView {
            url: endpoint_url(state@, MY_LIST_URL@),
            method: HttpMethod::Get,
            auth_key: state@.api_key,
            body: Seq::empty(),
            multipart: Seq::empty(),
            query: Some(ListQuery { bypass_cache, id: Some(id), offset: 0, limit: 0 }),
        }),
{
    let url = tb_url(state, MY_LIST_URL);
    let res = Request::<ListQuery>::builder().with_url(url.as_str()).with_method(
        HttpMethod::Get,
    ).with_query(ListQuery { bypass_cache, id: Some(id), offset: 0, limit: 0 }).with_auth_key(
        state.api_key(),
    ).build();
    proof {
        assert(res@.body =~= Seq::<u8>::empty());
        assert(res@.multipart =~= Seq::<FormFieldView>::empty());
    }
    res
}

/// The request for the account's usenet download list: a `GET` of
/// `api/usenet/mylist` with the given window, authenticated with the API key.
///
/// ### Arguments
/// * `state` - TorBox API state
/// * `bypass_cache` - Allows you to bypass the cached data, and always get fresh information
/// * `offset` - Determines the offset of items to get from the database
/// * `limit` - Determines the number of items to receive per request
pub fn list_all_request(state: &TorBoxApiState, bypass_cache: bool, offset: i32, limit: i32) -> (res:
    Request<ListQuery>)
    ensures
        res@ == (RequestView {
            url: endpoint_url(state@, MY_LIST_URL@),
            method: HttpMethod::Get,
            auth_key: state@.api_key,
            body: Seq::empty(),
            multipart: Seq::empty(),
            query: Some(ListQuery { bypass_cache, id: None, offset, limit }),
        }),
{
    let url = tb_url(state, MY_LIST_URL);
    let res = Request::<ListQuery>::builder().with_url(url.as_str()).with_method(
        HttpMethod::Get,
    ).with_query(ListQuery { bypass_cache, id: None, offset, limit }).with_auth_key(
        state.api_key(),
    ).build();
    proof {
        assert(res@.body =~= Seq::<u8>::empty());
        assert(res@.multipart =~= Seq::<FormFieldView>::empty());
    }
    res
}

} // verus!
