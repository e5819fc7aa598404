//! A typed client core for a generative-AI HTTP API.
//!
//! The crate turns request descriptors into transport requests, decides when a
//! failed attempt may be retried, and classifies responses. It performs no I/O
//! itself: a caller sends what [`LlmSdk::prepare_request`] builds and hands the
//! outcome back.
use vstd::prelude::*;
use vstd::string::*;

pub mod api;
pub mod decimal;
pub mod json;
pub mod middleware;
pub mod status;
pub mod text;
pub mod transport;

pub use api::{
    BuilderError, ChatCompletionRequest, ChatCompletionResponse, CreateImageRequest,
    CreateImageRequestBuilder, CreateImageResponse, EmbeddingEncodingFormat, EmbeddingInput,
    EmbeddingModel, EmbeddingRequest, EmbeddingRequestBuilder, EmbeddingUsage, ImageModel,
    ImageObject, ImageQuality, ImageResponseFormat, ImageSize, ImageStyle, SpeechModel,
    SpeechRequest, SpeechRequestBuilder, SpeechResponseFormat, SpeechVoice, TranscriptionModel,
    TranscriptionRequest, TranscriptionRequestBuilder, TranscriptionResponse,
    TranscriptionResponseFormat, WhisperModel, WhisperRequest, WhisperRequestBuilder,
    WhisperRequestType, WhisperResponse, WhisperResponseFormat,
};
pub use decimal::Decimal;
pub use json::{JsonBody, JsonField, JsonValue};
pub use middleware::{
    Attempt, Outcome, RetryAction, RetryMiddleware, RetryMode, RetryPolicy, RetryState,
};
pub use transport::{
    Body, Form, FormField, Header, Method, Part, PartValue, TransportRequest,
    TransportRequestView,
};

use json::JsonFieldView;
use middleware::{
    lemma_plain_requests_retry, lemma_unsafe_content_types_bypass, multipart_form_data,
    RetryPolicyView,
};
use status::{is_client_error, is_server_error};
use text::join;
use transport::{
    authorization_name, bearer_value, content_type_name, header_value, lemma_header_value_push,
    lemma_json_request_headers, lemma_multipart_request_headers, FormFieldView, HeaderView,
};

verus! {

/// The time allowed for every call, in seconds.
pub const TIMEOUT: u64 = 30;

/// A descriptor that can be turned into a transport request.
pub trait IntoRequest: Sized {
    /// The request that the descriptor becomes against `base_url`.
    spec fn request(&self, base_url: Seq<char>) -> TransportRequestView;

    /// Consumes the descriptor and builds its request.
    fn into_request(self, base_url: &str) -> (res: TransportRequest)
        ensures
            res@ == self.request(base_url@),
    ;

    /// A descriptor sets no credential: that is left to the facade.
    proof fn lemma_sets_no_credential(&self, base_url: Seq<char>)
        ensures
            header_value(self.request(base_url).headers, authorization_name()) is None,
    ;
}

/// Building is a function of the descriptor and the base URL: two requests
/// built from equal descriptors agree in method, URL, headers and body.
pub proof fn lemma_build_is_deterministic<R: IntoRequest>(
    first: R,
    second: R,
    base_url: Seq<char>,
    first_built: TransportRequest,
    second_built: TransportRequest,
)
    requires
        first == second,
        first_built@ == first.request(base_url),
        second_built@ == second.request(base_url),
    ensures
        first_built@ == second_built@,
{
}

/// A link of the middleware chain.
#[derive(Debug, Clone, Copy, PartialEq, Eq, Structural)]
pub enum Middleware {
    /// Opens one span around the whole call.
    Tracing,
    /// Repeats attempts that failed for a passing reason.
    Retry(RetryMiddleware),
}

/// The transport client: its middleware, outermost link first. The chain is
/// fixed when the client is made.
#[derive(Debug, Clone, PartialEq, Eq)]
pub struct Client {
    middleware: Vec<Middleware>,
}

impl View for Client {
    type V = Seq<Middleware>;

    closed spec fn view(&self) -> Seq<Middleware> {
        self.middleware@
    }
}

impl Client {
    /// The chain of a client that retries by `policy`: tracing around
    /// retrying, so that one span covers every attempt of a call.
    pub open spec fn chain(policy: RetryPolicy) -> Seq<Middleware> {
        seq![Middleware::Tracing, Middleware::Retry(RetryMiddleware { policy })]
    }

    /// A client that traces each call and retries by `policy`.
    pub fn new(policy: RetryPolicy) -> (res: Client)
        ensures
            res@ == Client::chain(policy),
    {
        let mut middleware: Vec<Middleware> = Vec::new();
        middleware.push(Middleware::Tracing);
        middleware.push(Middleware::Retry(RetryMiddleware::from(policy)));
        assert(middleware@ =~= Client::chain(policy));
        Client { middleware }
    }

    /// The number of links.
    pub fn len(&self) -> (res: usize)
        ensures
            res == self@.len(),
    {
        self.middleware.len()
    }

    /// The link at position `index`, counted from the outermost.
    pub fn link(&self, index: usize) -> (res: Option<Middleware>)
        ensures
            res == if index < self@.len() {
                Some(self@[index as int])
            } else {
                None
            },
    {
        if index < self.middleware.len() {
            Some(self.middleware[index])
        } else {
            None
        }
    }
}

/// How the body of a response that reports no error is read.
#[derive(Debug, Clone, Copy, PartialEq, Eq, Structural)]
pub enum Decode {
    /// As the JSON shape of the operation.
    Json,
    /// As text, taken as it is.
    Text,
    /// As raw bytes.
    Bytes,
}

/// What is done with a response once its status is known.
#[derive(Debug, Clone, Copy, PartialEq, Eq, Structural)]
pub enum Reading {
    /// The call failed: the body is read as text and reported.
    Failure,
    /// The call succeeded: the body is read as the operation asks.
    Success(Decode),
}

/// Whether a status reports an error of the client or of the server.
pub open spec fn is_failure(status: u16) -> bool {
    400 <= status && status <= 599
}

/// Decides whether a status reports a failure.
pub fn is_failure_status(status: u16) -> (res: bool)
    ensures
        res == is_failure(status),
{
    is_client_error(status) || is_server_error(status)
}

/// Retrying and classifying agree: a response that is retried is one that
/// would be reported as a failure, and a response that counts as a success
/// for retrying is never reported as a failure. Retrying therefore never
/// turns a failure into a success.
pub proof fn lemma_retried_responses_are_failures(status: u16)
    ensures
        Outcome::of_status(status) == Outcome::Transient ==> is_failure(status),
        Outcome::of_status(status) == Outcome::Success ==> !is_failure(status),
{
}

/// A failure that the service reported.
#[derive(Debug, Clone, PartialEq, Eq)]
pub struct ApiError {
    /// The status of the response.
    pub status: u16,
    /// The body of the response, as text and unparsed.
    pub text: String,
}

impl ApiError {
    /// The failure that a response with `status` and body `text` reports.
    pub fn new(status: u16, text: String) -> (res: ApiError)
        ensures
            res.status == status,
            res.text@ == text@,
    {
        ApiError { status, text }
    }

    /// The message of the failure.
    pub open spec fn message_text(self) -> Seq<char> {
        "API failed: "@ + self.text@
    }

    /// Renders the failure for display and logging.
    pub fn message(&self) -> (res: String)
        ensures
            res@ == self.message_text(),
    {
        join("API failed: ", self.text.as_str())
    }
}

/// One call in preparation: the request to send and the way to read what
/// comes back.
#[derive(Debug, PartialEq, Eq)]
pub struct Exchange {
    pub request: TransportRequest,
    pub decode: Decode,
}

impl Exchange {
    /// What a response with `status` calls for when a success is read as
    /// `decode`. The status alone decides between failure and success; the
    /// body is not looked at.
    pub open spec fn reading(decode: Decode, status: u16) -> Reading {
        if is_failure(status) {
            Reading::Failure
        } else {
            Reading::Success(decode)
        }
    }

    /// Classifies a response by its status.
    pub fn on_status(&self, status: u16) -> (res: Reading)
        ensures
            res == Exchange::reading(self.decode, status),
    {
        if is_failure_status(status) {
            Reading::Failure
        } else {
            Reading::Success(self.decode)
        }
    }

    /// Concludes a call whose body was read as text: a failure carries the
    /// text; otherwise the text is the result.
    pub fn conclude_text(&self, status: u16, text: String) -> (res: Result<String, ApiError>)
        ensures
            match res {
                Ok(body) => !is_failure(status) && body@ == text@,
                Err(error) => is_failure(status) && error.status == status && error.text@ == text@,
            },
    {
        if is_failure_status(status) {
            Err(ApiError::new(status, text))
        } else {
            Ok(text)
        }
    }
}

/// The facade of the client: where the service lives, the credential, and the
/// transport client.
#[derive(Debug, Clone, PartialEq, Eq)]
pub struct LlmSdk {
    pub(crate) base_url: String,
    pub(crate) token: String,
    pub(crate) client: Client,
}

/// The mathematical content of an [`LlmSdk`].
pub struct LlmSdkView {
    pub base_url: Seq<char>,
    pub token: Seq<char>,
    pub client: Seq<Middleware>,
}

impl View for LlmSdk {
    type V = LlmSdkView;

    closed spec fn view(&self) -> LlmSdkView {
        LlmSdkView { base_url: self.base_url@, token: self.token@, client: self.client@ }
    }
}

impl LlmSdkView {
    /// What the facade makes of a request that a descriptor built: the
    /// credential is attached unless the token is empty, and the time limit
    /// is set.
    pub open spec fn prepared(self, built: TransportRequestView) -> TransportRequestView {
        if self.token.len() == 0 {
            built.with_timeout(TIMEOUT)
        } else {
            built.with_bearer(self.token).with_timeout(TIMEOUT)
        }
    }

    /// The call that an operation prepares from a descriptor's request.
    pub open spec fn exchange(self, built: TransportRequestView, decode: Decode) -> (
        TransportRequestView,
        Decode,
    ) {
        (self.prepared(built), decode)
    }
}

/// The credential of a prepared request: with an empty token there is no
/// `Authorization` header; with any other token the header is `Bearer`
/// followed by the token.
pub proof fn lemma_credential_is_bearer_token<R: IntoRequest>(sdk: LlmSdkView, req: R)
    ensures
        sdk.token.len() == 0 ==> header_value(
            sdk.prepared(req.request(sdk.base_url)).headers,
            authorization_name(),
        ) is None,
        sdk.token.len() > 0 ==> header_value(
            sdk.prepared(req.request(sdk.base_url)).headers,
            authorization_name(),
        ) == Some(bearer_value(sdk.token)),
{
    let built = req.request(sdk.base_url);
    req.lemma_sets_no_credential(sdk.base_url);
    lemma_header_value_push(
        built.headers,
        HeaderView { name: authorization_name(), value: bearer_value(sdk.token) },
        authorization_name(),
    );
}

/// Every prepared request carries the one fixed time limit.
pub proof fn lemma_timeout_is_uniform(sdk: LlmSdkView, built: TransportRequestView)
    ensures
        sdk.prepared(built).timeout == Some(TIMEOUT),
{
}

/// Preparing a request changes neither its content type nor, with it,
/// whether it takes part in retrying.
pub proof fn lemma_prepared_retry_mode(sdk: LlmSdkView, built: TransportRequestView)
    ensures
        header_value(sdk.prepared(built).headers, content_type_name()) == header_value(
            built.headers,
            content_type_name(),
        ),
        sdk.prepared(built).retry_mode() == built.retry_mode(),
{
    reveal_strlit("content-type");
    reveal_strlit("authorization");
    assert(content_type_name().len() != authorization_name().len());
    lemma_header_value_push(
        built.headers,
        HeaderView { name: authorization_name(), value: bearer_value(sdk.token) },
        content_type_name(),
    );
}

/// A prepared request with a JSON body takes part in retrying.
pub proof fn lemma_json_requests_retry(
    sdk: LlmSdkView,
    url: Seq<char>,
    fields: Seq<JsonFieldView>,
)
    ensures
        sdk.prepared(TransportRequestView::post(url).with_json(fields)).retry_mode()
            == RetryMode::Retry,
{
    let built = TransportRequestView::post(url).with_json(fields);
    lemma_json_request_headers(url, fields);
    lemma_prepared_retry_mode(sdk, built);
    lemma_plain_requests_retry();
}

/// A prepared request with a multipart body bypasses retrying: it is sent at
/// most once.
pub proof fn lemma_multipart_requests_bypass(
    sdk: LlmSdkView,
    url: Seq<char>,
    fields: Seq<FormFieldView>,
)
    ensures
        sdk.prepared(TransportRequestView::post(url).with_multipart(fields)).retry_mode()
            == RetryMode::Bypass,
{
    let built = TransportRequestView::post(url).with_multipart(fields);
    lemma_multipart_request_headers(url, fields);
    lemma_prepared_retry_mode(sdk, built);
    lemma_unsafe_content_types_bypass(multipart_form_data());
}

/// How a transcript or translation is read: as JSON only if JSON was asked
/// for, as plain text for every other format.
pub open spec fn whisper_decode(format: WhisperResponseFormat) -> Decode {
    if format == WhisperResponseFormat::Json {
        Decode::Json
    } else {
        Decode::Text
    }
}

impl LlmSdk {
    /// A facade for the service at `base_url`. Its client traces, then
    /// retries up to `max_retries` times with exponential backoff.
    pub fn new(base_url: &str, token: &str, max_retries: u32) -> (res: LlmSdk)
        ensures
            res@ == (LlmSdkView {
                base_url: base_url@,
                token: token@,
                client: Client::chain(
                    RetryPolicy::of(RetryPolicyView::exponential(max_retries)),
                ),
            }),
    {
        let retry_policy = RetryPolicy::with_max_retries(max_retries);
        let client = Client::new(retry_policy);
        LlmSdk { base_url: base_url.to_owned(), token: token.to_owned(), client }
    }

    /// The address of the service.
    pub fn base_url(&self) -> (res: &str)
        ensures
            res@ == self@.base_url,
    {
        self.base_url.as_str()
    }

    /// The credential. An empty token means that none is sent.
    pub fn token(&self) -> (res: &str)
        ensures
            res@ == self@.token,
    {
        self.token.as_str()
    }

    /// The transport client.
    pub fn client(&self) -> (res: &Client)
        ensures
            res@ == self@.client,
    {
        &self.client
    }

    /// Builds the request of a descriptor, attaches the credential unless the
    /// token is empty, and sets the time limit.
    pub fn prepare_request<R: IntoRequest>(&self, req: R) -> (res: TransportRequest)
        ensures
            res@ == self@.prepared(req.request(self@.base_url)),
    {
        let req = req.into_request(self.base_url.as_str());
        let req = if self.token.as_str().is_empty() {
            req
        } else {
            req.bearer_auth(self.token.as_str())
        };
        req.timeout(TIMEOUT)
    }

    /// Prepares a chat completion. Its result is read as JSON.
    pub fn chat_completion(&self, req: ChatCompletionRequest) -> (res: Exchange)
        ensures
            (res.request@, res.decode) == self@.exchange(
                req.request(self@.base_url),
                Decode::Json,
            ),
    {
        Exchange { request: self.prepare_request(req), decode: Decode::Json }
    }

    /// Prepares the generation of images. Its result is read as JSON.
    pub fn create_image(&self, req: CreateImageRequest) -> (res: Exchange)
        ensures
            (res.request@, res.decode) == self@.exchange(
                req.request(self@.base_url),
                Decode::Json,
            ),
    {
        Exchange { request: self.prepare_request(req), decode: Decode::Json }
    }

    /// Prepares the synthesis of speech. Its result is the raw audio.
    pub fn speech(&self, req: SpeechRequest) -> (res: Exchange)
        ensures
            (res.request@, res.decode) == self@.exchange(
                req.request(self@.base_url),
                Decode::Bytes,
            ),
    {
        Exchange { request: self.prepare_request(req), decode: Decode::Bytes }
    }

    /// Prepares a transcription or translation. Its result is read as the
    /// request asked for it, whatever the response says of itself.
    pub fn whisper(&self, req: WhisperRequest) -> (res: Exchange)
        ensures
            (res.request@, res.decode) == self@.exchange(
                req.request(self@.base_url),
                whisper_decode(req@.response_format),
            ),
    {
        let is_json = req.response_format() == WhisperResponseFormat::Json;
        let request = self.prepare_request(req);
        let decode = if is_json {
            Decode::Json
        } else {
            Decode::Text
        };
        Exchange { request, decode }
    }

    /// Prepares an embedding. Its result is read as JSON.
    pub fn embedding(&self, req: EmbeddingRequest) -> (res: Exchange)
        ensures
            (res.request@, res.decode) == self@.exchange(
                req.request(self@.base_url),
                Decode::Json,
            ),
    {
        Exchange { request: self.prepare_request(req), decode: Decode::Json }
    }
}

} // verus!
