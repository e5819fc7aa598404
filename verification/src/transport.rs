//! Transport requests: what a descriptor becomes before it is put on the wire.
use vstd::prelude::*;
use vstd::string::*;
use vstd::utf8::encode_utf8;
use crate::json::{JsonBody, JsonFieldView};
use crate::middleware::RetryMode;
use crate::text::{join, str_eq};

verus! {

/// The request method. Every endpoint is reached with `POST`.
#[derive(Debug, Clone, Copy, PartialEq, Eq, Structural)]
pub enum Method {
    Post,
}

impl Method {
    /// The name of the method on the wire.
    pub open spec fn name(self) -> Seq<char> {
        "POST"@
    }

    /// The name of the method on the wire.
    pub fn as_str(&self) -> (res: &'static str)
        ensures
            res@ == self.name(),
    {
        "POST"
    }
}

/// The name of the header that declares the encoding of the body.
pub open spec fn content_type_name() -> Seq<char> {
    "content-type"@
}

/// The name of the header that carries the credential.
pub open spec fn authorization_name() -> Seq<char> {
    "authorization"@
}

/// The content type of a JSON body.
pub open spec fn json_content_type() -> Seq<char> {
    "application/json"@
}

/// The content type of a multipart form. The transport appends the boundary
/// parameter when it encodes the form.
pub open spec fn multipart_content_type() -> Seq<char> {
    "multipart/form-data"@
}

/// The value of the credential header for `token`.
pub open spec fn bearer_value(token: Seq<char>) -> Seq<char> {
    "Bearer "@ + token
}

/// A header line. Names are kept in lower case.
#[derive(Debug, Clone, PartialEq, Eq)]
pub struct Header {
    pub name: String,
    pub value: String,
}

/// The mathematical content of a [`Header`].
pub struct HeaderView {
    pub name: Seq<char>,
    pub value: Seq<char>,
}

impl View for Header {
    type V = HeaderView;

    open spec fn view(&self) -> HeaderView {
        HeaderView { name: self.name@, value: self.value@ }
    }
}

impl DeepView for Header {
    type V = HeaderView;

    open spec fn deep_view(&self) -> HeaderView {
        self@
    }
}

/// The value of the first header called `name`.
pub open spec fn header_value(headers: Seq<HeaderView>, name: Seq<char>) -> Option<Seq<char>>
    decreases headers.len(),
{
    if headers.len() == 0 {
        None
    } else if headers[0].name == name {
        Some(headers[0].value)
    } else {
        header_value(headers.drop_first(), name)
    }
}

/// Looking a header up after another one was added: an earlier header of
/// that name still answers; otherwise the new one does if it has the name.
pub proof fn lemma_header_value_push(headers: Seq<HeaderView>, last: HeaderView, name: Seq<char>)
    ensures
        header_value(headers.push(last), name) == match header_value(headers, name) {
            Some(value) => Some(value),
            None => if last.name == name {
                Some(last.value)
            } else {
                None
            },
        },
    decreases headers.len(),
{
    let pushed = headers.push(last);
    if headers.len() == 0 {
        assert(pushed.drop_first() =~= Seq::<HeaderView>::empty());
    } else {
        assert(pushed.drop_first() =~= headers.drop_first().push(last));
        if headers[0].name != name {
            lemma_header_value_push(headers.drop_first(), last, name);
        }
    }
}

/// A request that was given a JSON body right after it was made declares
/// the content type of JSON and carries no other header.
pub proof fn lemma_json_request_headers(url: Seq<char>, fields: Seq<JsonFieldView>)
    ensures
        ({
            let request = TransportRequestView::post(url).with_json(fields);
            &&& request.headers == seq![
                HeaderView { name: content_type_name(), value: json_content_type() },
            ]
            &&& header_value(request.headers, content_type_name()) == Some(json_content_type())
            &&& header_value(request.headers, authorization_name()) is None
        }),
{
    reveal_strlit("content-type");
    reveal_strlit("authorization");
    let header = HeaderView { name: content_type_name(), value: json_content_type() };
    let empty = Seq::<HeaderView>::empty();
    assert(empty.push(header) =~= seq![header]);
    lemma_header_value_push(empty, header, content_type_name());
    lemma_header_value_push(empty, header, authorization_name());
    assert(content_type_name().len() != authorization_name().len());
}

/// A request that was given a multipart body right after it was made
/// declares the content type of a form and carries no other header.
pub proof fn lemma_multipart_request_headers(url: Seq<char>, fields: Seq<FormFieldView>)
    ensures
        ({
            let request = TransportRequestView::post(url).with_multipart(fields);
            &&& request.headers == seq![
                HeaderView { name: content_type_name(), value: multipart_content_type() },
            ]
            &&& header_value(request.headers, content_type_name()) == Some(
                multipart_content_type(),
            )
            &&& header_value(request.headers, authorization_name()) is None
        }),
{
    reveal_strlit("content-type");
    reveal_strlit("authorization");
    let header = HeaderView { name: content_type_name(), value: multipart_content_type() };
    let empty = Seq::<HeaderView>::empty();
    assert(empty.push(header) =~= seq![header]);
    lemma_header_value_push(empty, header, content_type_name());
    lemma_header_value_push(empty, header, authorization_name());
    assert(content_type_name().len() != authorization_name().len());
}

/// What a part of a form holds.
#[derive(Debug, Clone, PartialEq, Eq)]
pub enum PartValue {
    Text(String),
    Bytes(Vec<u8>),
}

/// The mathematical content of a [`PartValue`].
pub enum PartValueView {
    Text(Seq<char>),
    Bytes(Seq<u8>),
}

impl View for PartValue {
    type V = PartValueView;

    open spec fn view(&self) -> PartValueView {
        match self {
            PartValue::Text(s) => PartValueView::Text(s@),
            PartValue::Bytes(b) => PartValueView::Bytes(b@),
        }
    }
}

/// One part of a multipart form.
#[derive(Debug, Clone, PartialEq, Eq)]
pub struct Part {
    pub value: PartValue,
    pub file_name: Option<String>,
    pub mime: Option<String>,
}

/// The mathematical content of a [`Part`].
pub struct PartView {
    pub value: PartValueView,
    pub file_name: Option<Seq<char>>,
    pub mime: Option<Seq<char>>,
}

impl View for Part {
    type V = PartView;

    open spec fn view(&self) -> PartView {
        PartView {
            value: self.value@,
            file_name: self.file_name.deep_view(),
            mime: self.mime.deep_view(),
        }
    }
}

/// A part that holds `value` as text, without file name or media type.
pub open spec fn text_part(value: Seq<char>) -> PartView {
    PartView { value: PartValueView::Text(value), file_name: None, mime: None }
}

/// A part that holds the bytes of a file.
pub open spec fn file_part(data: Seq<u8>, file_name: Seq<char>, mime: Seq<char>) -> PartView {
    PartView { value: PartValueView::Bytes(data), file_name: Some(file_name), mime: Some(mime) }
}

impl Part {
    /// A text part.
    pub fn text(value: &str) -> (res: Part)
        ensures
            res@ == text_part(value@),
    {
        Part { value: PartValue::Text(value.to_owned()), file_name: None, mime: None }
    }

    /// A part of raw bytes.
    pub fn bytes(value: Vec<u8>) -> (res: Part)
        ensures
            res@ == (PartView { value: PartValueView::Bytes(value@), file_name: None, mime: None }),
    {
        Part { value: PartValue::Bytes(value), file_name: None, mime: None }
    }

    /// Sets the file name of the part.
    pub fn file_name(self, file_name: &str) -> (res: Part)
        ensures
            res@ == (PartView { file_name: Some(file_name@), ..self@ }),
    {
        Part { value: self.value, file_name: Some(file_name.to_owned()), mime: self.mime }
    }

    /// Sets the media type of the part.
    pub fn mime_str(self, mime: &str) -> (res: Part)
        ensures
            res@ == (PartView { mime: Some(mime@), ..self@ }),
    {
        Part { value: self.value, file_name: self.file_name, mime: Some(mime.to_owned()) }
    }
}

/// A named part of a form.
#[derive(Debug, Clone, PartialEq, Eq)]
pub struct FormField {
    pub name: String,
    pub part: Part,
}

/// The mathematical content of a [`FormField`].
pub struct FormFieldView {
    pub name: Seq<char>,
    pub part: PartView,
}

impl View for FormField {
    type V = FormFieldView;

    open spec fn view(&self) -> FormFieldView {
        FormFieldView { name: self.name@, part: self.part@ }
    }
}

impl DeepView for FormField {
    type V = FormFieldView;

    open spec fn deep_view(&self) -> FormFieldView {
        self@
    }
}

/// A form field that holds text.
pub open spec fn text_field(name: Seq<char>, value: Seq<char>) -> FormFieldView {
    FormFieldView { name, part: text_part(value) }
}

/// A form field that is present only when `value` is.
pub open spec fn optional_text_field(name: Seq<char>, value: Option<Seq<char>>) -> Seq<
    FormFieldView,
> {
    match value {
        Some(text) => seq![text_field(name, text)],
        None => Seq::empty(),
    }
}

/// A multipart form: its fields in the order in which they are sent.
#[derive(Debug, Clone, PartialEq, Eq)]
pub struct Form {
    pub fields: Vec<FormField>,
}

impl View for Form {
    type V = Seq<FormFieldView>;

    open spec fn view(&self) -> Seq<FormFieldView> {
        self.fields.deep_view()
    }
}

impl Form {
    /// A form without fields.
    pub fn new() -> (res: Form)
        ensures
            res@ == Seq::<FormFieldView>::empty(),
    {
        let res = Form { fields: Vec::new() };
        assert(res@ =~= Seq::<FormFieldView>::empty());
        res
    }

    /// Adds `part` under `name`, after the fields already present.
    pub fn part(self, name: &str, part: Part) -> (res: Form)
        ensures
            res@ == self@.push(FormFieldView { name: name@, part: part@ }),
    {
        let mut fields = self.fields;
        fields.push(FormField { name: name.to_owned(), part });
        let res = Form { fields };
        assert(res@ =~= self@.push(FormFieldView { name: name@, part: part@ }));
        res
    }

    /// Adds a text field.
    pub fn text(self, name: &str, value: &str) -> (res: Form)
        ensures
            res@ == self@.push(text_field(name@, value@)),
    {
        self.part(name, Part::text(value))
    }
}

/// The body of a transport request.
#[derive(Debug, PartialEq, Eq)]
pub enum Body {
    Empty,
    Json(JsonBody),
    Multipart(Form),
}

/// The mathematical content of a [`Body`].
pub enum BodyView {
    Empty,
    Json(Seq<JsonFieldView>),
    Multipart(Seq<FormFieldView>),
}

impl View for Body {
    type V = BodyView;

    open spec fn view(&self) -> BodyView {
        match self {
            Body::Empty => BodyView::Empty,
            Body::Json(body) => BodyView::Json(body@),
            Body::Multipart(form) => BodyView::Multipart(form@),
        }
    }
}

/// A request as the transport sends it.
#[derive(Debug, PartialEq, Eq)]
pub struct TransportRequest {
    pub method: Method,
    pub url: String,
    pub headers: Vec<Header>,
    pub body: Body,
    /// The time allowed for the whole call, in seconds.
    pub timeout: Option<u64>,
}

/// The mathematical content of a [`TransportRequest`].
pub struct TransportRequestView {
    pub method: Method,
    pub url: Seq<char>,
    pub headers: Seq<HeaderView>,
    pub body: BodyView,
    pub timeout: Option<u64>,
}

impl View for TransportRequest {
    type V = TransportRequestView;

    open spec fn view(&self) -> TransportRequestView {
        TransportRequestView {
            method: self.method,
            url: self.url@,
            headers: self.headers.deep_view(),
            body: self.body@,
            timeout: self.timeout,
        }
    }
}

impl TransportRequestView {
    /// A `POST` to `url` that carries nothing yet.
    pub open spec fn post(url: Seq<char>) -> TransportRequestView {
        TransportRequestView {
            method: Method::Post,
            url,
            headers: Seq::empty(),
            body: BodyView::Empty,
            timeout: None,
        }
    }

    /// The request with `name: value` added after its other headers.
    pub open spec fn with_header(self, name: Seq<char>, value: Seq<char>) -> TransportRequestView {
        TransportRequestView { headers: self.headers.push(HeaderView { name, value }), ..self }
    }

    /// The request with a JSON body. The content type is declared unless the
    /// request already declares one.
    pub open spec fn with_json(self, fields: Seq<JsonFieldView>) -> TransportRequestView {
        let declared = if header_value(self.headers, content_type_name()) is None {
            self.with_header(content_type_name(), json_content_type())
        } else {
            self
        };
        TransportRequestView { body: BodyView::Json(fields), ..declared }
    }

    /// The request with a multipart body and its content type.
    pub open spec fn with_multipart(self, fields: Seq<FormFieldView>) -> TransportRequestView {
        TransportRequestView {
            body: BodyView::Multipart(fields),
            ..self.with_header(content_type_name(), multipart_content_type())
        }
    }

    /// The request with the bearer credential `token`.
    pub open spec fn with_bearer(self, token: Seq<char>) -> TransportRequestView {
        self.with_header(authorization_name(), bearer_value(token))
    }

    /// The request with its time limit set to `secs` seconds.
    pub open spec fn with_timeout(self, secs: u64) -> TransportRequestView {
        TransportRequestView { timeout: Some(secs), ..self }
    }

    /// The bytes of the declared content type, if one is declared.
    pub open spec fn content_type_bytes(self) -> Option<Seq<u8>> {
        match header_value(self.headers, content_type_name()) {
            Some(value) => Some(encode_utf8(value)),
            None => None,
        }
    }

    /// Whether the request takes part in retrying.
    pub open spec fn retry_mode(self) -> RetryMode {
        RetryMode::of(self.content_type_bytes())
    }
}

impl TransportRequest {
    /// A `POST` to `url` without headers or body.
    pub fn post(url: String) -> (res: TransportRequest)
        ensures
            res@ == TransportRequestView::post(url@),
    {
        let res = TransportRequest {
            method: Method::Post,
            url,
            headers: Vec::new(),
            body: Body::Empty,
            timeout: None,
        };
        assert(res@.headers =~= Seq::empty());
        res
    }

    /// Adds a header after those already present.
    pub fn header(self, name: &str, value: &str) -> (res: TransportRequest)
        ensures
            res@ == self@.with_header(name@, value@),
    {
        let mut headers = self.headers;
        headers.push(Header { name: name.to_owned(), value: value.to_owned() });
        let res = TransportRequest {
            method: self.method,
            url: self.url,
            headers,
            body: self.body,
            timeout: self.timeout,
        };
        assert(res@.headers =~= self@.headers.push(HeaderView { name: name@, value: value@ }));
        res
    }

    /// The value of the first header called `name`.
    pub fn get_header(&self, name: &str) -> (res: Option<&str>)
        ensures
            res.deep_view() == header_value(self@.headers, name@),
    {
        let ghost all = self@.headers;
        let mut i: usize = 0;
        assert(all.skip(0) =~= all);
        while i < self.headers.len()
            invariant
                i <= self.headers.len(),
                all == self.headers.deep_view(),
                header_value(all, name@) == header_value(all.skip(i as int), name@),
            decreases self.headers.len() - i,
        {
            assert(all.skip(i as int)[0] == self.headers[i as int]@);
            if str_eq(self.headers[i].name.as_str(), name) {
                return Some(self.headers[i].value.as_str());
            }
            assert(all.skip(i as int).drop_first() =~= all.skip(i as int + 1));
            i = i + 1;
        }
        assert(all.skip(i as int).len() == 0);
        None
    }

    /// The declared content type, if any.
    pub fn content_type(&self) -> (res: Option<&str>)
        ensures
            res.deep_view() == header_value(self@.headers, content_type_name()),
    {
        self.get_header("content-type")
    }

    /// Whether the request takes part in retrying, by its content type.
    pub fn retry_mode(&self) -> (res: RetryMode)
        ensures
            res == self@.retry_mode(),
    {
        match self.content_type() {
            Some(value) => RetryMode::for_content_type(Some(value.as_bytes())),
            None => RetryMode::for_content_type(None),
        }
    }

    /// Sets a JSON body and declares its content type unless one is declared.
    pub fn json(self, body: JsonBody) -> (res: TransportRequest)
        ensures
            res@ == self@.with_json(body@),
    {
        let declared = if self.content_type().is_none() {
            self.header("content-type", "application/json")
        } else {
            self
        };
        TransportRequest {
            method: declared.method,
            url: declared.url,
            headers: declared.headers,
            body: Body::Json(body),
            timeout: declared.timeout,
        }
    }

    /// Sets a multipart body and declares its content type.
    pub fn multipart(self, form: Form) -> (res: TransportRequest)
        ensures
            res@ == self@.with_multipart(form@),
    {
        let declared = self.header("content-type", "multipart/form-data");
        TransportRequest {
            method: declared.method,
            url: declared.url,
            headers: declared.headers,
            body: Body::Multipart(form),
            timeout: declared.timeout,
        }
    }

    /// Adds the credential header `Bearer <token>`.
    pub fn bearer_auth(self, token: &str) -> (res: TransportRequest)
        ensures
            res@ == self@.with_bearer(token@),
    {
        let value = join("Bearer ", token);
        self.header("authorization", value.as_str())
    }

    /// Sets the time allowed for the whole call.
    pub fn timeout(self, secs: u64) -> (res: TransportRequest)
        ensures
            res@ == self@.with_timeout(secs),
    {
        TransportRequest {
            method: self.method,
            url: self.url,
            headers: self.headers,
            body: self.body,
            timeout: Some(secs),
        }
    }
}

} // verus!
