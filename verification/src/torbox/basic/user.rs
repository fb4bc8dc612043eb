//! The authenticated user's account data, fetched with a basic request.

use vstd::prelude::*;
use std::collections::HashMap;
use crate::text::{bool_text, bool_to_string};
use crate::torbox::{Timestamp, TorBoxApiConfig};
use crate::torbox::request::{endpoint_url, HttpMethod};
use crate::torbox::basic::request::{tb_url, BasicRequestView, Request};

verus! {

/// User data returned by `api/user/me`.
pub struct UserData {
    pub id: i64,
    pub created_at: Timestamp,
    pub updated_at: Timestamp,
    pub email: String,
    pub plan: i8,
    pub total_downloaded: i64,
    pub customer: String,
    pub server: i64,
    pub is_subscribed: bool,
    pub premium_expires_at: Option<Timestamp>,
    pub cooldown_until: Option<Timestamp>,
    pub auth_id: String,
    pub user_referral: Option<String>,
    pub base_email: String,
    pub settings: HashMap<String, serde_json::Value>,
}

/// The request for the user data belonging to the authenticated user: a `GET`
/// of `api/user/me?settings={settings}`, authenticated with the API key.
pub fn me_request(config: &TorBoxApiConfig, settings: bool) -> (res: Request)
    ensures
        res@ == (BasicRequestView {
            url: endpoint_url(config@, "api/user/me?settings="@ + bool_text(settings)),
            method: HttpMethod::Get,
            auth_key: config@.api_key,
        }),
{
    let mut path = String::new();
    path.append("api/user/me?settings=");
    let flag = bool_to_string(settings);
    path.append(flag.as_str());
    proof {
        assert(path@ =~= "api/user/me?settings="@ + bool_text(settings));
    }
    Request::builder().with_url(tb_url(config, path)).with_method(HttpMethod::Get).with_auth_key(
        String::from_str(config.api_key()),
    ).build()
}

} // verus!
