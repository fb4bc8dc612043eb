//! Descriptions of requests to the TorBox API, built step by step and handed to
//! the caller, which sends them.

use vstd::prelude::*;
use crate::fs_path::{FsPath, FsPathView};
use crate::text::push_char;
use crate::torbox::{ApiConfigView, TorBoxApiState};

verus! {

/// The HTTP method of a request.
#[derive(Clone, Copy, Debug, PartialEq, Eq, Structural)]
pub enum HttpMethod {
    Get,
    Post,
    Put,
    Delete,
    Patch,
    Head,
    Options,
    Connect,
    Trace,
}

/// The value of one field of a multipart form.
#[derive(Clone, Debug)]
pub enum FormValue {
    /// A text field.
    Text(String),
    /// A file field whose content is read from the given path when the form is sent.
    File(FsPath),
    /// A field with the given raw content.
    Bytes(Vec<u8>),
}

/// The abstract content of a form value.
pub enum FormValueView {
    Text(Seq<char>),
    File(FsPathView),
    Bytes(Seq<u8>),
}

impl View for FormValue {
    type V = FormValueView;

    open spec fn view(&self) -> FormValueView {
        match self {
            FormValue::Text(t) => FormValueView::Text(t@),
            FormValue::File(p) => FormValueView::File(p@),
            FormValue::Bytes(b) => FormValueView::Bytes(b@),
        }
    }
}

/// One named field of a multipart form.
#[derive(Clone, Debug)]
pub struct FormField {
    pub name: String,
    pub value: FormValue,
}

/// The abstract content of a form field.
pub struct FormFieldView {
    pub name: Seq<char>,
    pub value: FormValueView,
}

impl View for FormField {
    type V = FormFieldView;

    open spec fn view(&self) -> FormFieldView {
        FormFieldView { name: self.name@, value: self.value@ }
    }
}

/// The abstract content of a list of form fields.
pub open spec fn fields_view(fields: Seq<FormField>) -> Seq<FormFieldView> {
    fields.map_values(|f: FormField| f@)
}

/// A multipart form to which fields are added only when a value is present.
pub struct OptionalForm {
    inner: Vec<FormField>,
}

impl View for OptionalForm {
    type V = Seq<FormFieldView>;

    closed spec fn view(&self) -> Seq<FormFieldView> {
        fields_view(self.inner@)
    }
}

proof fn lemma_fields_view_push(fields: Seq<FormField>, f: FormField)
    ensures
        fields_view(fields.push(f)) == fields_view(fields).push(f@),
{
    assert(fields_view(fields.push(f)) =~= fields_view(fields).push(f@));
}

impl OptionalForm {
    /// An empty form.
    pub fn new() -> (res: Self)
        ensures
            res@ == Seq::<FormFieldView>::empty(),
    {
        let res = OptionalForm { inner: Vec::new() };
        assert(res@ =~= Seq::<FormFieldView>::empty());
        res
    }

    fn with_field(self, name: &str, value: FormValue) -> (res: Self)
        ensures
            res@ == self@.push(FormFieldView { name: name@, value: value@ }),
    {
        let mut inner = self.inner;
        let field = FormField { name: String::from_str(name), value };
        proof {
            lemma_fields_view_push(inner@, field);
        }
        inner.push(field);
        OptionalForm { inner }
    }

    /// Adds a text field named `name` when `value` is present.
    pub fn text(self, name: &str, value: Option<String>) -> (res: Self)
        ensures
            value is None ==> res@ == self@,
            value matches Some(v) ==> res@ == self@.push(
                FormFieldView { name: name@, value: FormValueView::Text(v@) },
            ),
    {
        match value {
            Some(v) => self.with_field(name, FormValue::Text(v)),
            None => self,
        }
    }

    /// Adds a file field named `name` when `path` is present; the file is read
    /// when the form is sent.
    pub fn file(self, name: &str, path: Option<FsPath>) -> (res: Self)
        ensures
            path is None ==> res@ == self@,
            path matches Some(p) ==> res@ == self@.push(
                FormFieldView { name: name@, value: FormValueView::File(p@) },
            ),
    {
        match path {
            Some(p) => self.with_field(name, FormValue::File(p)),
            None => self,
        }
    }

    /// Adds a field named `name` with the given value when it is present.
    pub fn part(self, name: &str, part: Option<FormValue>) -> (res: Self)
        ensures
            part is None ==> res@ == self@,
            part matches Some(v) ==> res@ == self@.push(FormFieldView { name: name@, value: v@ }),
    {
        match part {
            Some(v) => self.with_field(name, v),
            None => self,
        }
    }

    /// The fields of the form, in the order they were added.
    pub fn inner(self) -> (res: Vec<FormField>)
        ensures
            fields_view(res@) == self@,
    {
        self.inner
    }
}

struct Config<Q> {
    url: String,
    method: HttpMethod,
    auth_key: String,
    body: Vec<u8>,
    multipart: Vec<FormField>,
    query: Option<Q>,
}

/// The abstract content of a request: where it goes, how, and what it carries.
/// A query of `None` stands for the query type's default value.
pub struct RequestView<Q> {
    pub url: Seq<char>,
    pub method: HttpMethod,
    pub auth_key: Seq<char>,
    pub body: Seq<u8>,
    pub multipart: Seq<FormFieldView>,
    pub query: Option<Q>,
}

/// A request to the TorBox API, ready to be sent.
pub struct Request<Q> {
    config: Config<Q>,
}

/// Builds a [`Request`] one setting at a time.
pub struct RequestBuilder<Q> {
    config: Config<Q>,
}

/// The settings of a freshly started builder: no URL, `GET`, no auth key, an
/// empty body, an empty form and the default query.
pub open spec fn default_request<Q>() -> RequestView<Q> {
    RequestView {
        url: Seq::empty(),
        method: HttpMethod::Get,
        auth_key: Seq::empty(),
        body: Seq::empty(),
        multipart: Seq::empty(),
        query: None,
    }
}

impl<Q> View for Request<Q> {
    type V = RequestView<Q>;

    closed spec fn view(&self) -> RequestView<Q> {
        RequestView {
            url: self.config.url@,
            method: self.config.method,
            auth_key: self.config.auth_key@,
            body: self.config.body@,
            multipart: fields_view(self.config.multipart@),
            query: self.config.query,
        }
    }
}

impl<Q> View for RequestBuilder<Q> {
    type V = RequestView<Q>;

    closed spec fn view(&self) -> RequestView<Q> {
        RequestView {
            url: self.config.url@,
            method: self.config.method,
            auth_key: self.config.auth_key@,
            body: self.config.body@,
            multipart: fields_view(self.config.multipart@),
            query: self.config.query,
        }
    }
}

impl<Q> Request<Q> {
    /// Starts building a request from the default settings.
    pub fn builder() -> (res: RequestBuilder<Q>)
        ensures
            res@ == default_request::<Q>(),
    {
        let res = RequestBuilder {
            config: Config {
                url: String::new(),
                method: HttpMethod::Get,
                auth_key: String::new(),
                body: Vec::new(),
                multipart: Vec::new(),
                query: None,
            },
        };
        assert(res@.multipart =~= Seq::<FormFieldView>::empty());
        assert(res@.body =~= Seq::<u8>::empty());
        res
    }

    /// The URL the request is sent to.
    pub fn url(&self) -> (res: &str)
        ensures
            res@ == self@.url,
    {
        self.config.url.as_str()
    }

    /// The HTTP method of the request.
    pub fn method(&self) -> (res: HttpMethod)
        ensures
            res == self@.method,
    {
        self.config.method
    }

    /// The bearer token sent with the request.
    pub fn auth_key(&self) -> (res: &str)
        ensures
            res@ == self@.auth_key,
    {
        self.config.auth_key.as_str()
    }

    /// The raw body of the request.
    pub fn body(&self) -> (res: &[u8])
        ensures
            res@ == self@.body,
    {
        self.config.body.as_slice()
    }

    /// The multipart form fields of the request.
    pub fn multipart(&self) -> (res: &[FormField])
        ensures
            fields_view(res@) == self@.multipart,
    {
        self.config.multipart.as_slice()
    }

    /// The query of the request; `None` stands for the default query.
    pub fn query(&self) -> (res: &Option<Q>)
        ensures
            *res == self@.query,
    {
        &self.config.query
    }
}

impl<Q> RequestBuilder<Q> {
    pub fn with_url(self, url: &str) -> (res: Self)
        ensures
            res@ == (RequestView { url: url@, ..self@ }),
    {
        let mut config = self.config;
        config.url = String::from_str(url);
        RequestBuilder { config }
    }

    pub fn with_method(self, method: HttpMethod) -> (res: Self)
        ensures
            res@ == (RequestView { method, ..self@ }),
    {
        let mut config = self.config;
        config.method = method;
        RequestBuilder { config }
    }

    pub fn with_auth_key(self, auth_key: &str) -> (res: Self)
        ensures
            res@ == (RequestView { auth_key: auth_key@, ..self@ }),
    {
        let mut config = self.config;
        config.auth_key = String::from_str(auth_key);
        RequestBuilder { config }
    }

    pub fn with_body(self, body: Vec<u8>) -> (res: Self)
        ensures
            res@ == (RequestView { body: body@, ..self@ }),
    {
        let mut config = self.config;
        config.body = body;
        RequestBuilder { config }
    }

    pub fn with_multipart(self, multipart: Vec<FormField>) -> (res: Self)
        ensures
            res@ == (RequestView { multipart: fields_view(multipart@), ..self@ }),
    {
        let mut config = self.config;
        config.multipart = multipart;
        RequestBuilder { config }
    }

    pub fn with_query(self, query: Q) -> (res: Self)
        ensures
            res@ == (RequestView { query: Some(query), ..self@ }),
    {
        let mut config = self.config;
        config.query = Some(query);
        RequestBuilder { config }
    }

    pub fn build(self) -> (res: Request<Q>)
        ensures
            res@ == self@,
    {
        Request { config: self.config }
    }
}

/// The URL of an API endpoint: `"{api_base}/{api_version}/{path_incl_query}"`.
pub open spec fn endpoint_url(config: ApiConfigView, path: Seq<char>) -> Seq<char> {
    config.api_base + seq!['/'] + config.api_version + seq!['/'] + path
}

/// Formats a URL using the torbox configuration and a path including query parameters.
pub fn tb_url(config: &TorBoxApiState, path_incl_query: &str) -> (res: String)
    ensures
        res@ == endpoint_url(config@, path_incl_query@),
{
    let mut url = String::new();
    url.append(config.api_base());
    push_char(&mut url, '/');
    url.append(config.api_version());
    push_char(&mut url, '/');
    url.append(path_incl_query);
    proof {
        assert(url@ =~= endpoint_url(config@, path_incl_query@));
    }
    url
}

} // verus!
