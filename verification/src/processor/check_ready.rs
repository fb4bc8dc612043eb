//! Noticing when TorBox has finished grabbing a download.

use vstd::prelude::*;
use crate::database::{DbCommand, Download, DownloadState};
use crate::torbox::request::{Request, RequestView};
use crate::torbox::usenet::{list_request, ListData, ListQuery, MY_LIST_URL};
use crate::torbox::request::{endpoint_url, HttpMethod};
use crate::torbox::TorBoxApiState;

verus! {

/// The request that fetches the TorBox entry of a download being grabbed,
/// bypassing TorBox's cache, by its TorBox id narrowed to `i32`.
pub fn ready_check_request(state: &TorBoxApiState, download: &Download) -> (res: Request<ListQuery>)
    ensures
        res@ == (RequestView {
            url: endpoint_url(state@, MY_LIST_URL@),
            method: HttpMethod::Get,
            auth_key: state@.api_key,
            body: Seq::empty(),
            multipart: Seq::empty(),
            query: Some(
                ListQuery {
                    bypass_cache: true,
                    id: Some(download.download_id as i32),
                    offset: 0,
                    limit: 0,
                },
            ),
        }),
{
    list_request(state, true, download.download_id as i32)
}

/// The table updates once the TorBox entry of a download being grabbed is
/// known: a download TorBox has finished is marked as ready for the local
/// download; any other is left as it is.
pub fn ready_check_updates(download: &Download, entry: &ListData) -> (res: Vec<DbCommand>)
    ensures
        entry.download_finished ==> res@ == seq![
            DbCommand::SetState { id: download.id, state: DownloadState::Ready },
        ],
        !entry.download_finished ==> res@ == Seq::<DbCommand>::empty(),
{
    let mut updates: Vec<DbCommand> = Vec::new();
    if entry.download_finished {
        updates.push(DbCommand::SetState { id: download.id, state: DownloadState::Ready });
        proof {
            assert(updates@ =~= seq![
                DbCommand::SetState { id: download.id, state: DownloadState::Ready },
            ]);
        }
    } else {
        assert(updates@ =~= Seq::<DbCommand>::empty());
    }
    updates
}

} // verus!
