//! Speech to text: transcription in the language of the recording, or
//! translation into English.
use vstd::prelude::*;
use vstd::string::*;
use crate::api::{copy_bytes, copy_decimal, copy_text, endpoint, optional_bytes, BuilderError};
use crate::decimal::Decimal;
use crate::text::str_eq;
use crate::transport::{
    file_part, lemma_multipart_request_headers, optional_text_field, text_field, Form,
    FormFieldView, Part, TransportRequest, TransportRequestView,
};
use crate::IntoRequest;

verus! {

/// The model that listens.
#[derive(Debug, Clone, Copy, PartialEq, Eq, Structural)]
pub enum WhisperModel {
    Whisper1,
}

impl WhisperModel {
    /// The name of the model on the wire.
    pub open spec fn name(self) -> Seq<char> {
        "whisper-1"@
    }

    /// The model with the given wire name.
    pub open spec fn named(name: Seq<char>) -> Option<WhisperModel> {
        if name == "whisper-1"@ {
            Some(WhisperModel::Whisper1)
        } else {
            None
        }
    }

    /// The name on the wire.
    pub fn as_str(&self) -> (res: &'static str)
        ensures
            res@ == self.name(),
    {
        "whisper-1"
    }

    /// The name on the wire, owned.
    pub fn to_string(&self) -> (res: String)
        ensures
            res@ == self.name(),
    {
        self.as_str().to_owned()
    }

    /// Reads a wire name.
    pub fn from_str(name: &str) -> (res: Option<WhisperModel>)
        ensures
            res == Self::named(name@),
    {
        if str_eq(name, "whisper-1") {
            Some(WhisperModel::Whisper1)
        } else {
            None
        }
    }
}

impl WhisperModel {
    /// The model is read back from its own name.
    pub proof fn lemma_name_round_trip(self)
        ensures
            Self::named(self.name()) == Some(self),
    {
    }
}

impl Default for WhisperModel {
    fn default() -> (res: Self)
        ensures
            res == WhisperModel::Whisper1,
    {
        WhisperModel::Whisper1
    }
}

/// The format in which the transcript is returned.
#[derive(Debug, Clone, Copy, PartialEq, Eq, Structural)]
pub enum WhisperResponseFormat {
    Json,
    Text,
    Srt,
    VerboseJson,
    Vtt,
}

impl WhisperResponseFormat {
    /// The name of the format on the wire.
    pub open spec fn name(self) -> Seq<char> {
        match self {
            WhisperResponseFormat::Json => "json"@,
            WhisperResponseFormat::Text => "text"@,
            WhisperResponseFormat::Srt => "srt"@,
            WhisperResponseFormat::VerboseJson => "verbose_json"@,
            WhisperResponseFormat::Vtt => "vtt"@,
        }
    }

    /// The format with the given wire name.
    pub open spec fn named(name: Seq<char>) -> Option<WhisperResponseFormat> {
        if name == "json"@ {
            Some(WhisperResponseFormat::Json)
        } else if name == "text"@ {
            Some(WhisperResponseFormat::Text)
        } else if name == "srt"@ {
            Some(WhisperResponseFormat::Srt)
        } else if name == "verbose_json"@ {
            Some(WhisperResponseFormat::VerboseJson)
        } else if name == "vtt"@ {
            Some(WhisperResponseFormat::Vtt)
        } else {
            None
        }
    }

    /// The name on the wire.
    pub fn as_str(&self) -> (res: &'static str)
        ensures
            res@ == self.name(),
    {
        match self {
            WhisperResponseFormat::Json => "json",
            WhisperResponseFormat::Text => "text",
            WhisperResponseFormat::Srt => "srt",
            WhisperResponseFormat::VerboseJson => "verbose_json",
            WhisperResponseFormat::Vtt => "vtt",
        }
    }

    /// The name on the wire, owned.
    pub fn to_string(&self) -> (res: String)
        ensures
            res@ == self.name(),
    {
        self.as_str().to_owned()
    }

    /// Reads a wire name.
    pub fn from_str(name: &str) -> (res: Option<WhisperResponseFormat>)
        ensures
            res == Self::named(name@),
    {
        if str_eq(name, "json") {
            Some(WhisperResponseFormat::Json)
        } else if str_eq(name, "text") {
            Some(WhisperResponseFormat::Text)
        } else if str_eq(name, "srt") {
            Some(WhisperResponseFormat::Srt)
        } else if str_eq(name, "verbose_json") {
            Some(WhisperResponseFormat::VerboseJson)
        } else if str_eq(name, "vtt") {
            Some(WhisperResponseFormat::Vtt)
        } else {
            None
        }
    }

    /// Every format is read back from its own wire name.
    pub proof fn lemma_name_round_trip(self)
        ensures
            Self::named(self.name()) == Some(self),
    {
        reveal_strlit("json");
        reveal_strlit("text");
        reveal_strlit("srt");
        reveal_strlit("verbose_json");
        reveal_strlit("vtt");
        assert("json"@[0] == 'j');
        assert("text"@[0] == 't');
        assert("srt"@[0] == 's');
        assert("verbose_json"@[0] == 'v');
        assert("vtt"@[1] == 't');
    }
}

impl Default for WhisperResponseFormat {
    fn default() -> (res: Self)
        ensures
            res == WhisperResponseFormat::Json,
    {
        WhisperResponseFormat::Json
    }
}

/// What is asked of the recording.
#[derive(Debug, Clone, Copy, PartialEq, Eq, Structural)]
pub enum WhisperRequestType {
    Transcription,
    Translation,
}

impl WhisperRequestType {
    /// The name of the kind of request.
    pub open spec fn name(self) -> Seq<char> {
        match self {
            WhisperRequestType::Transcription => "Transcription"@,
            WhisperRequestType::Translation => "Translation"@,
        }
    }

    /// The kind of request with the given name.
    pub open spec fn named(name: Seq<char>) -> Option<WhisperRequestType> {
        if name == "Transcription"@ {
            Some(WhisperRequestType::Transcription)
        } else if name == "Translation"@ {
            Some(WhisperRequestType::Translation)
        } else {
            None
        }
    }

    /// The path of the endpoint that serves this kind of request.
    pub open spec fn path(self) -> Seq<char> {
        match self {
            WhisperRequestType::Transcription => "/audio/transcriptions"@,
            WhisperRequestType::Translation => "/audio/translations"@,
        }
    }

    /// The name on the wire.
    pub fn as_str(&self) -> (res: &'static str)
        ensures
            res@ == self.name(),
    {
        match self {
            WhisperRequestType::Transcription => "Transcription",
            WhisperRequestType::Translation => "Translation",
        }
    }

    /// The name on the wire, owned.
    pub fn to_string(&self) -> (res: String)
        ensures
            res@ == self.name(),
    {
        self.as_str().to_owned()
    }

    /// Reads a name.
    pub fn from_str(name: &str) -> (res: Option<WhisperRequestType>)
        ensures
            res == Self::named(name@),
    {
        if str_eq(name, "Transcription") {
            Some(WhisperRequestType::Transcription)
        } else if str_eq(name, "Translation") {
            Some(WhisperRequestType::Translation)
        } else {
            None
        }
    }
}

impl WhisperRequestType {
    /// Every kind of request is read back from its own name.
    pub proof fn lemma_name_round_trip(self)
        ensures
            Self::named(self.name()) == Some(self),
    {
        reveal_strlit("Transcription");
        reveal_strlit("Translation");
        assert("Transcription"@.len() != "Translation"@.len());
    }
}

impl Default for WhisperRequestType {
    fn default() -> (res: Self)
        ensures
            res == WhisperRequestType::Transcription,
    {
        WhisperRequestType::Transcription
    }
}

/// A request to transcribe or translate a recording.
#[derive(Debug, Clone, PartialEq, Eq)]
pub struct WhisperRequest {
    /// The audio file itself, not its name.
    file: Vec<u8>,
    model: WhisperModel,
    /// The language of the recording, in ISO-639-1. A translation does not
    /// send it.
    language: Option<String>,
    /// Text that guides the style of the transcript.
    prompt: Option<String>,
    pub(crate) response_format: WhisperResponseFormat,
    /// The sampling temperature, between 0 and 1.
    temperature: Option<Decimal>,
    request_type: WhisperRequestType,
}

/// The mathematical content of a [`WhisperRequest`].
pub struct WhisperRequestView {
    pub file: Seq<u8>,
    pub model: WhisperModel,
    pub language: Option<Seq<char>>,
    pub prompt: Option<Seq<char>>,
    pub response_format: WhisperResponseFormat,
    pub temperature: Option<Seq<char>>,
    pub request_type: WhisperRequestType,
}

impl View for WhisperRequest {
    type V = WhisperRequestView;

    closed spec fn view(&self) -> WhisperRequestView {
        WhisperRequestView {
            file: self.file@,
            model: self.model,
            language: self.language.deep_view(),
            prompt: self.prompt.deep_view(),
            response_format: self.response_format,
            temperature: self.temperature.deep_view(),
            request_type: self.request_type,
        }
    }
}

impl WhisperRequestView {
    /// A request of the given kind for `file`, every option at its default.
    pub open spec fn new(file: Seq<u8>, request_type: WhisperRequestType) -> WhisperRequestView {
        WhisperRequestView {
            file,
            model: WhisperModel::Whisper1,
            language: None,
            prompt: None,
            response_format: WhisperResponseFormat::Json,
            temperature: None,
            request_type,
        }
    }

    /// The language as far as it is sent: only a transcription names it.
    pub open spec fn sent_language(self) -> Option<Seq<char>> {
        match self.request_type {
            WhisperRequestType::Transcription => self.language,
            WhisperRequestType::Translation => None,
        }
    }

    /// The form that carries the request: the file, the model and the format,
    /// then each option that is sent, in the order language, prompt,
    /// temperature.
    pub open spec fn form(self) -> Seq<FormFieldView> {
        seq![
            FormFieldView { name: "file"@, part: file_part(self.file, "file"@, "audio/mp3"@) },
            text_field("model"@, self.model.name()),
            text_field("response_format"@, self.response_format.name()),
        ] + optional_text_field("language"@, self.sent_language()) + optional_text_field(
            "prompt"@,
            self.prompt,
        ) + optional_text_field("temperature"@, self.temperature)
    }

    /// The transport request that the descriptor becomes.
    pub open spec fn request(self, base_url: Seq<char>) -> TransportRequestView {
        TransportRequestView::post(base_url + self.request_type.path()).with_multipart(self.form())
    }
}

impl WhisperRequest {
    /// A request to transcribe `data`, every option at its default.
    pub fn transcription(data: Vec<u8>) -> (res: WhisperRequest)
        ensures
            res@ == WhisperRequestView::new(data@, WhisperRequestType::Transcription),
    {
        WhisperRequest {
            file: data,
            model: WhisperModel::Whisper1,
            language: None,
            prompt: None,
            response_format: WhisperResponseFormat::Json,
            temperature: None,
            request_type: WhisperRequestType::Transcription,
        }
    }

    /// A request to translate `data`, every option at its default.
    pub fn translation(data: Vec<u8>) -> (res: WhisperRequest)
        ensures
            res@ == WhisperRequestView::new(data@, WhisperRequestType::Translation),
    {
        WhisperRequest {
            file: data,
            model: WhisperModel::Whisper1,
            language: None,
            prompt: None,
            response_format: WhisperResponseFormat::Json,
            temperature: None,
            request_type: WhisperRequestType::Translation,
        }
    }

    /// The format in which the text was asked for.
    pub fn response_format(&self) -> (res: WhisperResponseFormat)
        ensures
            res == self@.response_format,
    {
        self.response_format
    }

    /// Whether a transcription or a translation is asked for.
    pub fn request_type(&self) -> (res: WhisperRequestType)
        ensures
            res == self@.request_type,
    {
        self.request_type
    }

    /// Lays the request out as a multipart form.
    pub fn into_form(self) -> (form: Form)
        ensures
            form@ == self@.form(),
    {
        let ghost view = self@;
        let part = Part::bytes(self.file).file_name("file").mime_str("audio/mp3");
        let mut form = Form::new().part("file", part).text("model", self.model.as_str()).text(
            "response_format",
            self.response_format.as_str(),
        );
        assert(form@ =~= seq![
            FormFieldView { name: "file"@, part: file_part(view.file, "file"@, "audio/mp3"@) },
            text_field("model"@, view.model.name()),
            text_field("response_format"@, view.response_format.name()),
        ]);
        form = match (self.request_type, self.language) {
            (WhisperRequestType::Transcription, Some(language)) => form.text(
                "language",
                language.as_str(),
            ),
            _ => form,
        };
        form = if let Some(prompt) = self.prompt {
            form.text("prompt", prompt.as_str())
        } else {
            form
        };
        let form = if let Some(temperature) = self.temperature {
            form.text("temperature", temperature.as_str())
        } else {
            form
        };
        assert(form@ =~= view.form());
        form
    }
}

impl IntoRequest for WhisperRequest {
    open spec fn request(&self, base_url: Seq<char>) -> TransportRequestView {
        self@.request(base_url)
    }

    fn into_request(self, base_url: &str) -> (res: TransportRequest) {
        let path = match self.request_type {
            WhisperRequestType::Transcription => "/audio/transcriptions",
            WhisperRequestType::Translation => "/audio/translations",
        };
        let url = endpoint(base_url, path);
        TransportRequest::post(url).multipart(self.into_form())
    }

    proof fn lemma_sets_no_credential(&self, base_url: Seq<char>) {
        lemma_multipart_request_headers(base_url + self@.request_type.path(), self@.form());
    }
}

impl WhisperRequest {
    /// Descriptors with the same content become the same request, whatever
    /// else may tell them apart: building depends on the content alone.
    pub proof fn lemma_equal_content_equal_request(
        first: WhisperRequest,
        second: WhisperRequest,
        base_url: Seq<char>,
    )
        requires
            first@ == second@,
        ensures
            first.request(base_url) == second.request(base_url),
    {
    }
}

/// The options of a [`WhisperRequest`] while they are being collected.
#[derive(Debug, Clone, PartialEq, Eq)]
pub struct WhisperRequestBuilder {
    file: Option<Vec<u8>>,
    model: Option<WhisperModel>,
    language: Option<String>,
    prompt: Option<String>,
    response_format: Option<WhisperResponseFormat>,
    temperature: Option<Decimal>,
    request_type: Option<WhisperRequestType>,
}

/// The mathematical content of a [`WhisperRequestBuilder`].
pub struct WhisperRequestBuilderView {
    pub file: Option<Seq<u8>>,
    pub model: Option<WhisperModel>,
    pub language: Option<Seq<char>>,
    pub prompt: Option<Seq<char>>,
    pub response_format: Option<WhisperResponseFormat>,
    pub temperature: Option<Seq<char>>,
    pub request_type: Option<WhisperRequestType>,
}

impl View for WhisperRequestBuilder {
    type V = WhisperRequestBuilderView;

    closed spec fn view(&self) -> WhisperRequestBuilderView {
        WhisperRequestBuilderView {
            file: optional_bytes(self.file),
            model: self.model,
            language: self.language.deep_view(),
            prompt: self.prompt.deep_view(),
            response_format: self.response_format,
            temperature: self.temperature.deep_view(),
            request_type: self.request_type,
        }
    }
}

impl WhisperRequestBuilderView {
    /// A builder in which nothing is set.
    pub open spec fn empty() -> WhisperRequestBuilderView {
        WhisperRequestBuilderView {
            file: None,
            model: None,
            language: None,
            prompt: None,
            response_format: None,
            temperature: None,
            request_type: None,
        }
    }

    /// The first option without a default that is still unset.
    pub open spec fn missing(self) -> Option<&'static str> {
        if self.file is None {
            Some("file")
        } else if self.request_type is None {
            Some("request_type")
        } else {
            None
        }
    }

    /// The descriptor that the collected options describe, each unset option
    /// at its default.
    pub open spec fn built(self) -> WhisperRequestView {
        WhisperRequestView {
            file: self.file->0,
            model: match self.model {
                Some(model) => model,
                None => WhisperModel::Whisper1,
            },
            language: self.language,
            prompt: self.prompt,
            response_format: match self.response_format {
                Some(format) => format,
                None => WhisperResponseFormat::Json,
            },
            temperature: self.temperature,
            request_type: self.request_type->0,
        }
    }
}

impl Default for WhisperRequestBuilder {
    fn default() -> (res: Self)
        ensures
            res@ == WhisperRequestBuilderView::empty(),
    {
        WhisperRequestBuilder {
            file: None,
            model: None,
            language: None,
            prompt: None,
            response_format: None,
            temperature: None,
            request_type: None,
        }
    }
}

impl WhisperRequestBuilder {
    /// Sets `file`.
    pub fn file(&mut self, value: Vec<u8>) -> (ret: &mut Self)
        ensures
            ret@ == (WhisperRequestBuilderView { file: Some(value@), ..old(self)@ }),
            *final(self) == *final(ret),
    {
        self.file = Some(value);
        self
    }

    /// Sets `model`.
    pub fn model(&mut self, value: WhisperModel) -> (ret: &mut Self)
        ensures
            ret@ == (WhisperRequestBuilderView { model: Some(value), ..old(self)@ }),
            *final(self) == *final(ret),
    {
        self.model = Some(value);
        self
    }

    /// Sets `language`.
    pub fn language(&mut self, value: &str) -> (ret: &mut Self)
        ensures
            ret@ == (WhisperRequestBuilderView { language: Some(value@), ..old(self)@ }),
            *final(self) == *final(ret),
    {
        self.language = Some(value.to_owned());
        self
    }

    /// Sets `prompt`.
    pub fn prompt(&mut self, value: &str) -> (ret: &mut Self)
        ensures
            ret@ == (WhisperRequestBuilderView { prompt: Some(value@), ..old(self)@ }),
            *final(self) == *final(ret),
    {
        self.prompt = Some(value.to_owned());
        self
    }

    /// Sets `response_format`.
    pub fn response_format(&mut self, value: WhisperResponseFormat) -> (ret: &mut Self)
        ensures
            ret@ == (WhisperRequestBuilderView { response_format: Some(value), ..old(self)@ }),
            *final(self) == *final(ret),
    {
        self.response_format = Some(value);
        self
    }

    /// Sets `temperature`.
    pub fn temperature(&mut self, value: Decimal) -> (ret: &mut Self)
        ensures
            ret@ == (WhisperRequestBuilderView { temperature: Some(value@), ..old(self)@ }),
            *final(self) == *final(ret),
    {
        self.temperature = Some(value);
        self
    }

    /// Sets `request_type`.
    pub fn request_type(&mut self, value: WhisperRequestType) -> (ret: &mut Self)
        ensures
            ret@ == (WhisperRequestBuilderView { request_type: Some(value), ..old(self)@ }),
            *final(self) == *final(ret),
    {
        self.request_type = Some(value);
        self
    }

    /// Builds the descriptor. The file and the kind of request have no
    /// default; the first of them that is unset is reported.
    pub fn build(&self) -> (res: Result<WhisperRequest, BuilderError>)
        ensures
            match res {
                Ok(request) => self@.missing() is None && request@ == self@.built(),
                Err(error) => self@.missing() is Some && error == BuilderError::UninitializedField(
                    self@.missing()->0,
                ),
            },
    {
        let file = match &self.file {
            Some(file) => copy_bytes(file),
            None => {
                return Err(BuilderError::UninitializedField("file"));
            },
        };
        let request_type = match self.request_type {
            Some(request_type) => request_type,
            None => {
                return Err(BuilderError::UninitializedField("request_type"));
            },
        };
        Ok(
            WhisperRequest {
                file,
                model: match self.model {
                    Some(model) => model,
                    None => WhisperModel::Whisper1,
                },
                language: copy_text(&self.language),
                prompt: copy_text(&self.prompt),
                response_format: match self.response_format {
                    Some(format) => format,
                    None => WhisperResponseFormat::Json,
                },
                temperature: copy_decimal(&self.temperature),
                request_type,
            },
        )
    }
}

/// A transcript or a translation.
#[derive(Debug, Clone, PartialEq, Eq)]
pub struct WhisperResponse {
    pub text: String,
}

impl WhisperResponse {
    /// A response that holds `text` as it is.
    pub fn from_text(text: String) -> (res: WhisperResponse)
        ensures
            res.text@ == text@,
    {
        WhisperResponse { text }
    }
}

} // verus!
