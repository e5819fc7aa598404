//! Embedding of texts as vectors.
use vstd::prelude::*;
use vstd::string::*;
use crate::api::{copy_text, copy_texts, endpoint, BuilderError};
use crate::json::{
    optional_field, optional_str, str_field, JsonBody, JsonFieldView, JsonValue, JsonValueView,
};
use crate::transport::{lemma_json_request_headers, TransportRequest, TransportRequestView};
use crate::IntoRequest;

verus! {

/// The model that embeds.
#[derive(Debug, Clone, Copy, PartialEq, Eq, Structural)]
pub enum EmbeddingModel {
    TextEmbeddingAda002,
}

impl EmbeddingModel {
    /// The name of the model on the wire.
    pub open spec fn name(self) -> Seq<char> {
        "text-embedding-ada-002"@
    }

    /// The name on the wire.
    pub fn as_str(&self) -> (res: &'static str)
        ensures
            res@ == self.name(),
    {
        "text-embedding-ada-002"
    }
}

impl Default for EmbeddingModel {
    fn default() -> (res: Self)
        ensures
            res == EmbeddingModel::TextEmbeddingAda002,
    {
        EmbeddingModel::TextEmbeddingAda002
    }
}

/// The encoding of the vectors.
#[derive(Debug, Clone, Copy, PartialEq, Eq, Structural)]
pub enum EmbeddingEncodingFormat {
    Float,
    Base64,
}

impl EmbeddingEncodingFormat {
    /// The name of the encoding on the wire.
    pub open spec fn name(self) -> Seq<char> {
        match self {
            EmbeddingEncodingFormat::Float => "float"@,
            EmbeddingEncodingFormat::Base64 => "base64"@,
        }
    }

    /// The name on the wire.
    pub fn as_str(&self) -> (res: &'static str)
        ensures
            res@ == self.name(),
    {
        match self {
            EmbeddingEncodingFormat::Float => "float",
            EmbeddingEncodingFormat::Base64 => "base64",
        }
    }
}

impl Default for EmbeddingEncodingFormat {
    fn default() -> (res: Self)
        ensures
            res == EmbeddingEncodingFormat::Float,
    {
        EmbeddingEncodingFormat::Float
    }
}

/// The text or texts to embed.
#[derive(Debug, Clone, PartialEq, Eq)]
pub enum EmbeddingInput {
    String(String),
    StringArray(Vec<String>),
}

/// The mathematical content of an [`EmbeddingInput`].
pub enum EmbeddingInputView {
    String(Seq<char>),
    StringArray(Seq<Seq<char>>),
}

impl View for EmbeddingInput {
    type V = EmbeddingInputView;

    open spec fn view(&self) -> EmbeddingInputView {
        match self {
            EmbeddingInput::String(text) => EmbeddingInputView::String(text@),
            EmbeddingInput::StringArray(texts) => EmbeddingInputView::StringArray(
                texts.deep_view(),
            ),
        }
    }
}

impl DeepView for EmbeddingInput {
    type V = EmbeddingInputView;

    open spec fn deep_view(&self) -> EmbeddingInputView {
        self@
    }
}

impl EmbeddingInputView {
    /// The input as a value of the body: a string, or an array of strings.
    pub open spec fn json(self) -> JsonValueView {
        match self {
            EmbeddingInputView::String(text) => JsonValueView::Str(text),
            EmbeddingInputView::StringArray(texts) => JsonValueView::StrArray(texts),
        }
    }
}

impl EmbeddingInput {
    /// The input as a value of the body.
    pub fn to_json(&self) -> (value: JsonValue)
        ensures
            value@ == self@.json(),
    {
        match self {
            EmbeddingInput::String(text) => JsonValue::Str(text.clone()),
            EmbeddingInput::StringArray(texts) => JsonValue::StrArray(copy_texts(texts)),
        }
    }

    fn duplicate(&self) -> (res: EmbeddingInput)
        ensures
            res@ == self@,
    {
        match self {
            EmbeddingInput::String(text) => EmbeddingInput::String(text.clone()),
            EmbeddingInput::StringArray(texts) => EmbeddingInput::StringArray(copy_texts(texts)),
        }
    }
}

impl From<String> for EmbeddingInput {
    fn from(s: String) -> (res: Self) {
        EmbeddingInput::String(s)
    }
}

impl vstd::std_specs::convert::FromSpecImpl<String> for EmbeddingInput {
    open spec fn obeys_from_spec() -> bool {
        true
    }

    open spec fn from_spec(s: String) -> Self {
        EmbeddingInput::String(s)
    }
}

impl From<Vec<String>> for EmbeddingInput {
    fn from(s: Vec<String>) -> (res: Self) {
        EmbeddingInput::StringArray(s)
    }
}

impl vstd::std_specs::convert::FromSpecImpl<Vec<String>> for EmbeddingInput {
    open spec fn obeys_from_spec() -> bool {
        true
    }

    open spec fn from_spec(s: Vec<String>) -> Self {
        EmbeddingInput::StringArray(s)
    }
}

impl<'a> From<&'a [String]> for EmbeddingInput {
    fn from(s: &'a [String]) -> (res: Self)
        ensures
            res@ == EmbeddingInputView::StringArray(s.deep_view()),
    {
        let mut texts: Vec<String> = Vec::new();
        let mut i: usize = 0;
        while i < s.len()
            invariant
                i <= s.len(),
                texts.len() == i,
                forall|j: int| 0 <= j < i ==> texts[j]@ == s[j]@,
            decreases s.len() - i,
        {
            texts.push(s[i].clone());
            i = i + 1;
        }
        assert(texts.deep_view() =~= s.deep_view());
        EmbeddingInput::StringArray(texts)
    }
}

// The texts are copied, and a copy is known by its content only: what
// `from` returns is stated by its own contract, not by `from_spec`.
impl<'a> vstd::std_specs::convert::FromSpecImpl<&'a [String]> for EmbeddingInput {
    open spec fn obeys_from_spec() -> bool {
        false
    }

    open spec fn from_spec(s: &'a [String]) -> Self {
        arbitrary()
    }
}

impl<'a> From<&'a str> for EmbeddingInput {
    fn from(s: &'a str) -> (res: Self)
        ensures
            res@ == EmbeddingInputView::String(s@),
    {
        EmbeddingInput::String(s.to_owned())
    }
}

// The text is copied, and a copy is known by its content only: what `from`
// returns is stated by its own contract, not by `from_spec`.
impl<'a> vstd::std_specs::convert::FromSpecImpl<&'a str> for EmbeddingInput {
    open spec fn obeys_from_spec() -> bool {
        false
    }

    open spec fn from_spec(s: &'a str) -> Self {
        arbitrary()
    }
}

/// A request to embed one text or several.
#[derive(Debug, Clone, PartialEq, Eq)]
pub struct EmbeddingRequest {
    input: EmbeddingInput,
    model: EmbeddingModel,
    encoding_format: Option<EmbeddingEncodingFormat>,
    /// An identifier of the end user.
    user: Option<String>,
}

/// The mathematical content of an [`EmbeddingRequest`].
pub struct EmbeddingRequestView {
    pub input: EmbeddingInputView,
    pub model: EmbeddingModel,
    pub encoding_format: Option<EmbeddingEncodingFormat>,
    pub user: Option<Seq<char>>,
}

impl View for EmbeddingRequest {
    type V = EmbeddingRequestView;

    closed spec fn view(&self) -> EmbeddingRequestView {
        EmbeddingRequestView {
            input: self.input@,
            model: self.model,
            encoding_format: self.encoding_format,
            user: self.user.deep_view(),
        }
    }
}

impl EmbeddingRequestView {
    /// A request for `input` with every option at its default.
    pub open spec fn new(input: EmbeddingInputView) -> EmbeddingRequestView {
        EmbeddingRequestView {
            input,
            model: EmbeddingModel::TextEmbeddingAda002,
            encoding_format: None,
            user: None,
        }
    }

    /// The members of the body: the input and the model, then each option
    /// that is set.
    pub open spec fn json(self) -> Seq<JsonFieldView> {
        seq![
            JsonFieldView { name: "input"@, value: self.input.json() },
            str_field("model"@, self.model.name()),
        ] + optional_field(
            "encoding_format"@,
            optional_str(
                match self.encoding_format {
                    Some(format) => Some(format.name()),
                    None => None,
                },
            ),
        ) + optional_field("user"@, optional_str(self.user))
    }

    /// The transport request that the descriptor becomes.
    pub open spec fn request(self, base_url: Seq<char>) -> TransportRequestView {
        TransportRequestView::post(base_url + "/embeddings"@).with_json(self.json())
    }
}

impl EmbeddingRequest {
    /// A request for `input` with every option at its default.
    pub fn new(input: EmbeddingInput) -> (res: EmbeddingRequest)
        ensures
            res@ == EmbeddingRequestView::new(input@),
    {
        EmbeddingRequest {
            input,
            model: EmbeddingModel::TextEmbeddingAda002,
            encoding_format: None,
            user: None,
        }
    }

    /// A request for several texts with every option at its default.
    pub fn new_array(input: Vec<String>) -> (res: EmbeddingRequest)
        ensures
            res@ == EmbeddingRequestView::new(EmbeddingInputView::StringArray(input.deep_view())),
    {
        EmbeddingRequest {
            input: EmbeddingInput::StringArray(input),
            model: EmbeddingModel::TextEmbeddingAda002,
            encoding_format: None,
            user: None,
        }
    }

    /// The body of the request.
    pub fn to_json(&self) -> (body: JsonBody)
        ensures
            body@ == self@.json(),
    {
        let mut body = JsonBody::new();
        body.push("input", self.input.to_json());
        body.push_str("model", self.model.as_str());
        assert(body@ =~= seq![
            JsonFieldView { name: "input"@, value: self@.input.json() },
            str_field("model"@, self@.model.name()),
        ]);
        body.push_optional_str(
            "encoding_format",
            match self.encoding_format {
                Some(format) => Some(format.as_str()),
                None => None,
            },
        );
        body.push_optional_str(
            "user",
            match &self.user {
                Some(user) => Some(user.as_str()),
                None => None,
            },
        );
        body
    }
}

impl IntoRequest for EmbeddingRequest {
    open spec fn request(&self, base_url: Seq<char>) -> TransportRequestView {
        self@.request(base_url)
    }

    fn into_request(self, base_url: &str) -> (res: TransportRequest) {
        let url = endpoint(base_url, "/embeddings");
        TransportRequest::post(url).json(self.to_json())
    }

    proof fn lemma_sets_no_credential(&self, base_url: Seq<char>) {
        lemma_json_request_headers(base_url + "/embeddings"@, self@.json());
    }
}

impl EmbeddingRequest {
    /// Descriptors with the same content become the same request, whatever
    /// else may tell them apart: building depends on the content alone.
    pub proof fn lemma_equal_content_equal_request(
        first: EmbeddingRequest,
        second: EmbeddingRequest,
        base_url: Seq<char>,
    )
        requires
            first@ == second@,
        ensures
            first.request(base_url) == second.request(base_url),
    {
    }
}

/// The options of an [`EmbeddingRequest`] while they are being collected.
#[derive(Debug, Clone, PartialEq, Eq)]
pub struct EmbeddingRequestBuilder {
    input: Option<EmbeddingInput>,
    model: Option<EmbeddingModel>,
    encoding_format: Option<EmbeddingEncodingFormat>,
    user: Option<String>,
}

/// The mathematical content of an [`EmbeddingRequestBuilder`].
pub struct EmbeddingRequestBuilderView {
    pub input: Option<EmbeddingInputView>,
    pub model: Option<EmbeddingModel>,
    pub encoding_format: Option<EmbeddingEncodingFormat>,
    pub user: Option<Seq<char>>,
}

impl View for EmbeddingRequestBuilder {
    type V = EmbeddingRequestBuilderView;

    closed spec fn view(&self) -> EmbeddingRequestBuilderView {
        EmbeddingRequestBuilderView {
            input: self.input.deep_view(),
            model: self.model,
            encoding_format: self.encoding_format,
            user: self.user.deep_view(),
        }
    }
}

impl EmbeddingRequestBuilderView {
    /// A builder in which nothing is set.
    pub open spec fn empty() -> EmbeddingRequestBuilderView {
        EmbeddingRequestBuilderView { input: None, model: None, encoding_format: None, user: None }
    }

    /// The descriptor that the collected options describe, each unset option
    /// at its default.
    pub open spec fn built(self) -> EmbeddingRequestView {
        EmbeddingRequestView {
            input: self.input->0,
            model: match self.model {
                Some(model) => model,
                None => EmbeddingModel::TextEmbeddingAda002,
            },
            encoding_format: self.encoding_format,
            user: self.user,
        }
    }
}

impl Default for EmbeddingRequestBuilder {
    fn default() -> (res: Self)
        ensures
            res@ == EmbeddingRequestBuilderView::empty(),
    {
        EmbeddingRequestBuilder { input: None, model: None, encoding_format: None, user: None }
    }
}

impl EmbeddingRequestBuilder {
    /// Sets `input`.
    pub fn input(&mut self, value: EmbeddingInput) -> (ret: &mut Self)
        ensures
            ret@ == (EmbeddingRequestBuilderView { input: Some(value@), ..old(self)@ }),
            *final(self) == *final(ret),
    {
        self.input = Some(value);
        self
    }

    /// Sets `model`.
    pub fn model(&mut self, value: EmbeddingModel) -> (ret: &mut Self)
        ensures
            ret@ == (EmbeddingRequestBuilderView { model: Some(value), ..old(self)@ }),
            *final(self) == *final(ret),
    {
        self.model = Some(value);
        self
    }

    /// Sets `encoding_format`.
    pub fn encoding_format(&mut self, value: EmbeddingEncodingFormat) -> (ret: &mut Self)
        ensures
            ret@ == (EmbeddingRequestBuilderView { encoding_format: Some(value), ..old(self)@ }),
            *final(self) == *final(ret),
    {
        self.encoding_format = Some(value);
        self
    }

    /// Sets `user`.
    pub fn user(&mut self, value: &str) -> (ret: &mut Self)
        ensures
            ret@ == (EmbeddingRequestBuilderView { user: Some(value@), ..old(self)@ }),
            *final(self) == *final(ret),
    {
        self.user = Some(value.to_owned());
        self
    }

    /// Builds the descriptor. The input is the one option without a default.
    pub fn build(&self) -> (res: Result<EmbeddingRequest, BuilderError>)
        ensures
            match res {
                Ok(request) => self@.input is Some && request@ == self@.built(),
                Err(error) => self@.input is None && error == BuilderError::UninitializedField(
                    "input",
                ),
            },
    {
        let input = match &self.input {
            Some(input) => input.duplicate(),
            None => {
                return Err(BuilderError::UninitializedField("input"));
            },
        };
        Ok(
            EmbeddingRequest {
                input,
                model: match self.model {
                    Some(model) => model,
                    None => EmbeddingModel::TextEmbeddingAda002,
                },
                encoding_format: self.encoding_format,
                user: copy_text(&self.user),
            },
        )
    }
}

/// The tokens that an embedding used.
#[derive(Debug, Clone, Copy, PartialEq, Eq, Structural)]
pub struct EmbeddingUsage {
    pub prompt_tokens: usize,
    pub total_tokens: usize,
}

} // verus!
