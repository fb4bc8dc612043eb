//! The authenticated user's account data.

use vstd::prelude::*;
use std::collections::HashMap;
use crate::torbox::{Timestamp, TorBoxApiState};
use crate::torbox::request::{endpoint_url, tb_url, FormFieldView, HttpMethod, Request, RequestView};

verus! {

/// User data returned by `api/user/me`.
pub struct UserData {
    pub id: i64,
    pub created_at: Timestamp,
    pub updated_at: Timestamp,
    pub email: String,
    pub plan: i8,
    pub total_downloaded: i64,
    pub customer: String,
    pub server: i64,
    pub additional_concurrent_slots: i64,
    pub is_subscribed: bool,
    pub premium_expires_at: Option<Timestamp>,
    pub cooldown_until: Option<Timestamp>,
    pub auth_id: String,
    pub user_referral: Option<String>,
    pub base_email: String,
    pub settings: HashMap<String, serde_json::Value>,
}

/// The query of a user-data request.
#[derive(Debug, Clone, Copy, PartialEq, Eq, Structural)]
pub struct UserQuery {
    pub settings: bool,
}

/// The request for the user data belonging to the authenticated user: a `GET`
/// of `api/user/me`, authenticated with the API key.
///
/// ### Arguments
/// * `state` - TorBox API state
/// * `settings` - Whether to include user account settings or not
pub fn me_request(state: &TorBoxApiState, settings: bool) -> (res: Request<UserQuery>)
    ensures
        res@ == (RequestView {
            url: endpoint_url(state@, "api/user/me"@),
            method: HttpMethod::Get,
            auth_key: state@.api_key,
            body: Seq::empty(),
            multipart: Seq::empty(),
            query: Some(UserQuery { settings }),
        }),
{
    let url = tb_url(state, "api/user/me");
    let res = Request::<UserQuery>::builder().with_url(url.as_str()).with_method(
        HttpMethod::Get,
    ).with_auth_key(state.api_key()).with_query(UserQuery { settings }).build();
    proof {
        assert(res@.body =~= Seq::<u8>::empty());
        assert(res@.multipart =~= Seq::<FormFieldView>::empty());
    }
    res
}

} // verus!
