//! Access to the TorBox API: configuration, request descriptions and the
//! records the API answers with.

use vstd::prelude::*;

pub mod basic;
pub mod download_limit;

pub mod request;
pub mod usenet;
pub mod user;

verus! {

/// An instant in UTC, as whole seconds since the Unix epoch and the
/// nanoseconds past that second.
#[derive(Clone, Copy, Debug, PartialEq, Eq, Structural)]
pub struct Timestamp {
    pub seconds: i64,
    pub nanoseconds: u32,
}

/// Stores configuration for sending requests to the TorBox API.
#[derive(Debug, Clone)]
pub struct TorBoxApiConfig {
    api_base: String,
    api_version: String,
    api_key: String,
}

/// The name under which the API configuration is handed to the request builders.
pub type TorBoxApiState = TorBoxApiConfig;

/// The abstract content of an API configuration.
pub struct ApiConfigView {
    pub api_base: Seq<char>,
    pub api_version: Seq<char>,
    pub api_key: Seq<char>,
}

impl View for TorBoxApiConfig {
    type V = ApiConfigView;

    closed spec fn view(&self) -> ApiConfigView {
        ApiConfigView {
            api_base: self.api_base@,
            api_version: self.api_version@,
            api_key: self.api_key@,
        }
    }
}

impl TorBoxApiConfig {
    pub fn new(api_base: String, api_version: String, api_key: String) -> (res: Self)
        ensures
            res@.api_base == api_base@,
            res@.api_version == api_version@,
            res@.api_key == api_key@,
    {
        TorBoxApiConfig { api_base, api_version, api_key }
    }

    /// The API key sent as bearer token.
    pub fn api_key(&self) -> (res: &str)
        ensures
            res@ == self@.api_key,
    {
        self.api_key.as_str()
    }

    /// The base URL of the API.
    pub fn api_base(&self) -> (res: &str)
        ensures
            res@ == self@.api_base,
    {
        self.api_base.as_str()
    }

    /// The version segment of the API's URLs.
    pub fn api_version(&self) -> (res: &str)
        ensures
            res@ == self@.api_version,
    {
        self.api_version.as_str()
    }
}

/// Why a TorBox API response carries no result.
#[derive(Debug, Clone)]
pub enum TorBoxError {
    /// The API reported failure, with its error text (or `"unknown error"`).
    Api(String),
    /// The API reported success but sent no data.
    MissingData,
}

/// The text the API error is reported with.
pub open spec fn error_message(e: TorBoxError) -> Seq<char> {
    match e {
        TorBoxError::Api(m) => "torbox error: "@ + m@,
        TorBoxError::MissingData => "data = None"@,
    }
}

impl TorBoxError {
    /// The message of this error: `"torbox error: {error}"` or `"data = None"`.
    pub fn message(&self) -> (res: String)
        ensures
            res@ == error_message(*self),
    {
        match self {
            TorBoxError::Api(m) => {
                let mut s = String::new();
                s.append("torbox error: ");
                s.append(m.as_str());
                proof {
                    assert(s@ =~= "torbox error: "@ + m@);
                }
                s
            },
            TorBoxError::MissingData => {
                let mut s = String::new();
                s.append("data = None");
                proof {
                    assert(s@ =~= "data = None"@);
                }
                s
            },
        }
    }
}

/// Generic response received from the TorBox API.
#[derive(Debug, Clone)]
pub struct GenericTorBoxJson<T> {
    success: bool,
    error: Option<String>,
    detail: Option<String>,
    data: Option<T>,
}

/// The text a failed response is reported with: the API's error text, or
/// `"unknown error"` when it sent none.
pub open spec fn api_error_text(error: Option<String>) -> Seq<char> {
    match error {
        Some(e) => e@,
        None => "unknown error"@,
    }
}

impl<T> GenericTorBoxJson<T> {
    pub fn new(success: bool, error: Option<String>, detail: Option<String>, data: Option<T>) -> (res: Self)
        ensures
            res.spec_success() == success,
            res.spec_error() == error,
            res.spec_detail() == detail,
            res.spec_data() == data,
    {
        GenericTorBoxJson { success, error, detail, data }
    }

    pub closed spec fn spec_success(&self) -> bool {
        self.success
    }

    pub closed spec fn spec_error(&self) -> Option<String> {
        self.error
    }

    pub closed spec fn spec_detail(&self) -> Option<String> {
        self.detail
    }

    pub closed spec fn spec_data(&self) -> Option<T> {
        self.data
    }

    /// The result a response stands for: its data when the API reports success
    /// and sends data; otherwise why there is none.
    pub fn into_result(self) -> (res: Result<T, TorBoxError>)
        ensures
            !self.spec_success() ==> (res matches Err(TorBoxError::Api(m)) && m@ == api_error_text(
                self.spec_error(),
            )),
            self.spec_success() && self.spec_data() is None ==> res matches Err(
                TorBoxError::MissingData,
            ),
            self.spec_success() && self.spec_data() is Some ==> res == Ok::<T, TorBoxError>(
                self.spec_data()->0,
            ),
    {
        if !self.success {
            let text = match self.error {
                Some(e) => e,
                None => String::from_str("unknown error"),
            };
            return Err(TorBoxError::Api(text));
        }
        match self.data {
            Some(d) => Ok(d),
            None => Err(TorBoxError::MissingData),
        }
    }
}

} // verus!
