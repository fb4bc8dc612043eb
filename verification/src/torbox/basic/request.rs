//! Requests that carry only a URL, a method and an API key.

use vstd::prelude::*;
use crate::text::push_char;
use crate::torbox::TorBoxApiConfig;
use crate::torbox::request::{endpoint_url, HttpMethod};

verus! {

struct Config {
    url: String,
    method: HttpMethod,
    auth_key: String,
}

/// The abstract content of a request.
pub struct BasicRequestView {
    pub url: Seq<char>,
    pub method: HttpMethod,
    pub auth_key: Seq<char>,
}

/// A request to the TorBox API, ready to be sent.
pub struct Request {
    config: Config,
}

/// Builds a [`Request`] one setting at a time.
pub struct RequestBuilder {
    config: Config,
}

impl View for Request {
    type V = BasicRequestView;

    closed spec fn view(&self) -> BasicRequestView {
        BasicRequestView {
            url: self.config.url@,
            method: self.config.method,
            auth_key: self.config.auth_key@,
        }
    }
}

impl View for RequestBuilder {
    type V = BasicRequestView;

    closed spec fn view(&self) -> BasicRequestView {
        BasicRequestView {
            url: self.config.url@,
            method: self.config.method,
            auth_key: self.config.auth_key@,
        }
    }
}

impl Request {
    /// Starts building a request with no URL, `GET` and no API key.
    pub fn builder() -> (res: RequestBuilder)
        ensures
            res@ == (BasicRequestView {
                url: Seq::empty(),
                method: HttpMethod::Get,
                auth_key: Seq::empty(),
            }),
    {
        RequestBuilder {
            config: Config { url: String::new(), method: HttpMethod::Get, auth_key: String::new() },
        }
    }

    /// The URL the request is sent to.
    pub fn url(&self) -> (res: &str)
        ensures
            res@ == self@.url,
    {
        self.config.url.as_str()
    }

    /// The HTTP method of the request.
    pub fn method(&self) -> (res: HttpMethod)
        ensures
            res == self@.method,
    {
        self.config.method
    }

    /// The bearer token sent with the request.
    pub fn auth_key(&self) -> (res: &str)
        ensures
            res@ == self@.auth_key,
    {
        self.config.auth_key.as_str()
    }
}

impl RequestBuilder {
    pub fn with_url(self, url: String) -> (res: Self)
        ensures
            res@ == (BasicRequestView { url: url@, ..self@ }),
    {
        let mut config = self.config;
        config.url = url;
        RequestBuilder { config }
    }

    pub fn with_method(self, method: HttpMethod) -> (res: Self)
        ensures
            res@ == (BasicRequestView { method, ..self@ }),
    {
        let mut config = self.config;
        config.method = method;
        RequestBuilder { config }
    }

    pub fn with_auth_key(self, auth_key: String) -> (res: Self)
        ensures
            res@ == (BasicRequestView { auth_key: auth_key@, ..self@ }),
    {
        let mut config = self.config;
        config.auth_key = auth_key;
        RequestBuilder { config }
    }

    pub fn build(self) -> (res: Request)
        ensures
            res@ == self@,
    {
        Request { config: self.config }
    }
}

/// Formats a URL using the torbox configuration and a path including query parameters.
pub fn tb_url(config: &TorBoxApiConfig, path_incl_query: String) -> (res: String)
    ensures
        res@ == endpoint_url(config@, path_incl_query@),
{
    let mut url = String::new();
    url.append(config.api_base());
    push_char(&mut url, '/');
    url.append(config.api_version());
    push_char(&mut url, '/');
    url.append(path_incl_query.as_str());
    proof {
        assert(url@ =~= endpoint_url(config@, path_incl_query@));
    }
    url
}

} // verus!
