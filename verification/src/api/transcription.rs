//! Transcription of audio into text in the language of the recording.
use vstd::prelude::*;
use vstd::string::*;
use crate::api::{copy_bytes, copy_decimal, copy_text, endpoint, optional_bytes, BuilderError};
use crate::decimal::Decimal;
use crate::text::str_eq;
use crate::transport::{
    file_part, lemma_multipart_request_headers, optional_text_field, text_field, Form,
    FormFieldView, Part, TransportRequest, TransportRequestView,
};
use crate::IntoRequest;

verus! {

/// The model that transcribes.
#[derive(Debug, Clone, Copy, PartialEq, Eq, Structural)]
pub enum TranscriptionModel {
    Whisper1,
}

impl TranscriptionModel {
    /// The name of the model on the wire.
    pub open spec fn name(self) -> Seq<char> {
        "whisper-1"@
    }

    /// The model with the given wire name.
    pub open spec fn named(name: Seq<char>) -> Option<TranscriptionModel> {
        if name == "whisper-1"@ {
            Some(TranscriptionModel::Whisper1)
        } else {
            None
        }
    }

    /// The name on the wire.
    pub fn as_str(&self) -> (res: &'static str)
        ensures
            res@ == self.name(),
    {
        "whisper-1"
    }

    /// The name on the wire, owned.
    pub fn to_string(&self) -> (res: String)
        ensures
            res@ == self.name(),
    {
        self.as_str().to_owned()
    }

    /// Reads a wire name.
    pub fn from_str(name: &str) -> (res: Option<TranscriptionModel>)
        ensures
            res == Self::named(name@),
    {
        if str_eq(name, "whisper-1") {
            Some(TranscriptionModel::Whisper1)
        } else {
            None
        }
    }
}

impl TranscriptionModel {
    /// The model is read back from its own name.
    pub proof fn lemma_name_round_trip(self)
        ensures
            Self::named(self.name()) == Some(self),
    {
    }
}

impl Default for TranscriptionModel {
    fn default() -> (res: Self)
        ensures
            res == TranscriptionModel::Whisper1,
    {
        TranscriptionModel::Whisper1
    }
}

/// The format in which the transcript is returned.
#[derive(Debug, Clone, Copy, PartialEq, Eq, Structural)]
pub enum TranscriptionResponseFormat {
    Json,
    Text,
    Srt,
    VerboseJson,
    Vtt,
}

impl TranscriptionResponseFormat {
    /// The name of the format on the wire.
    pub open spec fn name(self) -> Seq<char> {
        match self {
            TranscriptionResponseFormat::Json => "json"@,
            TranscriptionResponseFormat::Text => "text"@,
            TranscriptionResponseFormat::Srt => "srt"@,
            TranscriptionResponseFormat::VerboseJson => "verbose_json"@,
            TranscriptionResponseFormat::Vtt => "vtt"@,
        }
    }

    /// The format with the given wire name.
    pub open spec fn named(name: Seq<char>) -> Option<TranscriptionResponseFormat> {
        if name == "json"@ {
            Some(TranscriptionResponseFormat::Json)
        } else if name == "text"@ {
            Some(TranscriptionResponseFormat::Text)
        } else if name == "srt"@ {
            Some(TranscriptionResponseFormat::Srt)
        } else if name == "verbose_json"@ {
            Some(TranscriptionResponseFormat::VerboseJson)
        } else if name == "vtt"@ {
            Some(TranscriptionResponseFormat::Vtt)
        } else {
            None
        }
    }

    /// The name on the wire.
    pub fn as_str(&self) -> (res: &'static str)
        ensures
            res@ == self.name(),
    {
        match self {
            TranscriptionResponseFormat::Json => "json",
            TranscriptionResponseFormat::Text => "text",
            TranscriptionResponseFormat::Srt => "srt",
            TranscriptionResponseFormat::VerboseJson => "verbose_json",
            TranscriptionResponseFormat::Vtt => "vtt",
        }
    }

    /// The name on the wire, owned.
    pub fn to_string(&self) -> (res: String)
        ensures
            res@ == self.name(),
    {
        self.as_str().to_owned()
    }

    /// Reads a wire name.
    pub fn from_str(name: &str) -> (res: Option<TranscriptionResponseFormat>)
        ensures
            res == Self::named(name@),
    {
        if str_eq(name, "json") {
            Some(TranscriptionResponseFormat::Json)
        } else if str_eq(name, "text") {
            Some(TranscriptionResponseFormat::Text)
        } else if str_eq(name, "srt") {
            Some(TranscriptionResponseFormat::Srt)
        } else if str_eq(name, "verbose_json") {
            Some(TranscriptionResponseFormat::VerboseJson)
        } else if str_eq(name, "vtt") {
            Some(TranscriptionResponseFormat::Vtt)
        } else {
            None
        }
    }

    /// Every format is read back from its own wire name.
    pub proof fn lemma_name_round_trip(self)
        ensures
            Self::named(self.name()) == Some(self),
    {
        reveal_strlit("json");
        reveal_strlit("text");
        reveal_strlit("srt");
        reveal_strlit("verbose_json");
        reveal_strlit("vtt");
        assert("json"@[0] == 'j');
        assert("text"@[0] == 't');
        assert("srt"@[0] == 's');
        assert("verbose_json"@[0] == 'v');
        assert("vtt"@[1] == 't');
    }
}

impl Default for TranscriptionResponseFormat {
    fn default() -> (res: Self)
        ensures
            res == TranscriptionResponseFormat::Json,
    {
        TranscriptionResponseFormat::Json
    }
}

/// A request to transcribe a recording.
#[derive(Debug, Clone, PartialEq, Eq)]
pub struct TranscriptionRequest {
    /// The audio file itself, not its name.
    file: Vec<u8>,
    model: TranscriptionModel,
    /// The language of the recording, in ISO-639-1.
    language: Option<String>,
    /// Text that guides the style of the transcript.
    prompt: Option<String>,
    pub(crate) response_format: TranscriptionResponseFormat,
    /// The sampling temperature, between 0 and 1.
    temperature: Option<Decimal>,
}

/// The mathematical content of a [`TranscriptionRequest`].
pub struct TranscriptionRequestView {
    pub file: Seq<u8>,
    pub model: TranscriptionModel,
    pub language: Option<Seq<char>>,
    pub prompt: Option<Seq<char>>,
    pub response_format: TranscriptionResponseFormat,
    pub temperature: Option<Seq<char>>,
}

impl View for TranscriptionRequest {
    type V = TranscriptionRequestView;

    closed spec fn view(&self) -> TranscriptionRequestView {
        TranscriptionRequestView {
            file: self.file@,
            model: self.model,
            language: self.language.deep_view(),
            prompt: self.prompt.deep_view(),
            response_format: self.response_format,
            temperature: self.temperature.deep_view(),
        }
    }
}

impl TranscriptionRequestView {
    /// A request for `file` with every option at its default.
    pub open spec fn new(file: Seq<u8>) -> TranscriptionRequestView {
        TranscriptionRequestView {
            file,
            model: TranscriptionModel::Whisper1,
            language: None,
            prompt: None,
            response_format: TranscriptionResponseFormat::Json,
            temperature: None,
        }
    }

    /// The form that carries the request: the file, the model and the format,
    /// then each option that is set, in the order language, prompt,
    /// temperature.
    pub open spec fn form(self) -> Seq<FormFieldView> {
        seq![
            FormFieldView { name: "file"@, part: file_part(self.file, "file"@, "audio/mp3"@) },
            text_field("model"@, self.model.name()),
            text_field("response_format"@, self.response_format.name()),
        ] + optional_text_field("language"@, self.language) + optional_text_field(
            "prompt"@,
            self.prompt,
        ) + optional_text_field("temperature"@, self.temperature)
    }

    /// The transport request that the descriptor becomes.
    pub open spec fn request(self, base_url: Seq<char>) -> TransportRequestView {
        TransportRequestView::post(base_url + "/audio/transcriptions"@).with_multipart(self.form())
    }
}

impl TranscriptionRequest {
    /// A request for `data` with every option at its default.
    pub fn new(data: Vec<u8>) -> (res: TranscriptionRequest)
        ensures
            res@ == TranscriptionRequestView::new(data@),
    {
        TranscriptionRequest {
            file: data,
            model: TranscriptionModel::Whisper1,
            language: None,
            prompt: None,
            response_format: TranscriptionResponseFormat::Json,
            temperature: None,
        }
    }

    /// The format in which the transcript was asked for.
    pub fn response_format(&self) -> (res: TranscriptionResponseFormat)
        ensures
            res == self@.response_format,
    {
        self.response_format
    }

    /// Lays the request out as a multipart form.
    pub fn into_form(self) -> (form: Form)
        ensures
            form@ == self@.form(),
    {
        let ghost view = self@;
        let part = Part::bytes(self.file).file_name("file").mime_str("audio/mp3");
        let mut form = Form::new().part("file", part).text("model", self.model.as_str()).text(
            "response_format",
            self.response_format.as_str(),
        );
        assert(form@ =~= seq![
            FormFieldView { name: "file"@, part: file_part(view.file, "file"@, "audio/mp3"@) },
            text_field("model"@, view.model.name()),
            text_field("response_format"@, view.response_format.name()),
        ]);
        form = if let Some(language) = self.language {
            form.text("language", language.as_str())
        } else {
            form
        };
        form = if let Some(prompt) = self.prompt {
            form.text("prompt", prompt.as_str())
        } else {
            form
        };
        let form = if let Some(temperature) = self.temperature {
            form.text("temperature", temperature.as_str())
        } else {
            form
        };
        assert(form@ =~= view.form());
        form
    }
}

impl IntoRequest for TranscriptionRequest {
    open spec fn request(&self, base_url: Seq<char>) -> TransportRequestView {
        self@.request(base_url)
    }

    fn into_request(self, base_url: &str) -> (res: TransportRequest) {
        let url = endpoint(base_url, "/audio/transcriptions");
        TransportRequest::post(url).multipart(self.into_form())
    }

    proof fn lemma_sets_no_credential(&self, base_url: Seq<char>) {
        lemma_multipart_request_headers(base_url + "/audio/transcriptions"@, self@.form());
    }
}

impl TranscriptionRequest {
    /// Descriptors with the same content become the same request, whatever
    /// else may tell them apart: building depends on the content alone.
    pub proof fn lemma_equal_content_equal_request(
        first: TranscriptionRequest,
        second: TranscriptionRequest,
        base_url: Seq<char>,
    )
        requires
            first@ == second@,
        ensures
            first.request(base_url) == second.request(base_url),
    {
    }
}

/// The options of a [`TranscriptionRequest`] while they are being collected.
#[derive(Debug, Clone, PartialEq, Eq)]
pub struct TranscriptionRequestBuilder {
    file: Option<Vec<u8>>,
    model: Option<TranscriptionModel>,
    language: Option<String>,
    prompt: Option<String>,
    response_format: Option<TranscriptionResponseFormat>,
    temperature: Option<Decimal>,
}

/// The mathematical content of a [`TranscriptionRequestBuilder`].
pub struct TranscriptionRequestBuilderView {
    pub file: Option<Seq<u8>>,
    pub model: Option<TranscriptionModel>,
    pub language: Option<Seq<char>>,
    pub prompt: Option<Seq<char>>,
    pub response_format: Option<TranscriptionResponseFormat>,
    pub temperature: Option<Seq<char>>,
}

impl View for TranscriptionRequestBuilder {
    type V = TranscriptionRequestBuilderView;

    closed spec fn view(&self) -> TranscriptionRequestBuilderView {
        TranscriptionRequestBuilderView {
            file: optional_bytes(self.file),
            model: self.model,
            language: self.language.deep_view(),
            prompt: self.prompt.deep_view(),
            response_format: self.response_format,
            temperature: self.temperature.deep_view(),
        }
    }
}

impl TranscriptionRequestBuilderView {
    /// A builder in which nothing is set.
    pub open spec fn empty() -> TranscriptionRequestBuilderView {
        TranscriptionRequestBuilderView {
            file: None,
            model: None,
            language: None,
            prompt: None,
            response_format: None,
            temperature: None,
        }
    }

    /// The descriptor that the collected options describe, each unset option
    /// at its default.
    pub open spec fn built(self) -> TranscriptionRequestView {
        TranscriptionRequestView {
            file: self.file->0,
            model: match self.model {
                Some(model) => model,
                None => TranscriptionModel::Whisper1,
            },
            language: self.language,
            prompt: self.prompt,
            response_format: match self.response_format {
                Some(format) => format,
                None => TranscriptionResponseFormat::Json,
            },
            temperature: self.temperature,
        }
    }
}

impl Default for TranscriptionRequestBuilder {
    fn default() -> (res: Self)
        ensures
            res@ == TranscriptionRequestBuilderView::empty(),
    {
        TranscriptionRequestBuilder {
            file: None,
            model: None,
            language: None,
            prompt: None,
            response_format: None,
            temperature: None,
        }
    }
}

impl TranscriptionRequestBuilder {
    /// Sets `file`.
    pub fn file(&mut self, value: Vec<u8>) -> (ret: &mut Self)
        ensures
            ret@ == (TranscriptionRequestBuilderView { file: Some(value@), ..old(self)@ }),
            *final(self) == *final(ret),
    {
        self.file = Some(value);
        self
    }

    /// Sets `model`.
    pub fn model(&mut self, value: TranscriptionModel) -> (ret: &mut Self)
        ensures
            ret@ == (TranscriptionRequestBuilderView { model: Some(value), ..old(self)@ }),
            *final(self) == *final(ret),
    {
        self.model = Some(value);
        self
    }

    /// Sets `language`.
    pub fn language(&mut self, value: &str) -> (ret: &mut Self)
        ensures
            ret@ == (TranscriptionRequestBuilderView { language: Some(value@), ..old(self)@ }),
            *final(self) == *final(ret),
    {
        self.language = Some(value.to_owned());
        self
    }

    /// Sets `prompt`.
    pub fn prompt(&mut self, value: &str) -> (ret: &mut Self)
        ensures
            ret@ == (TranscriptionRequestBuilderView { prompt: Some(value@), ..old(self)@ }),
            *final(self) == *final(ret),
    {
        self.prompt = Some(value.to_owned());
        self
    }

    /// Sets `response_format`.
    pub fn response_format(&mut self, value: TranscriptionResponseFormat) -> (ret: &mut Self)
        ensures
            ret@ == (TranscriptionRequestBuilderView { response_format: Some(value), ..old(self)@ }),
            *final(self) == *final(ret),
    {
        self.response_format = Some(value);
        self
    }

    /// Sets `temperature`.
    pub fn temperature(&mut self, value: Decimal) -> (ret: &mut Self)
        ensures
            ret@ == (TranscriptionRequestBuilderView { temperature: Some(value@), ..old(self)@ }),
            *final(self) == *final(ret),
    {
        self.temperature = Some(value);
        self
    }

    /// Builds the descriptor. The file is the one option without a default.
    pub fn build(&self) -> (res: Result<TranscriptionRequest, BuilderError>)
        ensures
            match res {
                Ok(request) => self@.file is Some && request@ == self@.built(),
                Err(error) => self@.file is None && error == BuilderError::UninitializedField(
                    "file",
                ),
            },
    {
        let file = match &self.file {
            Some(file) => copy_bytes(file),
            None => {
                return Err(BuilderError::UninitializedField("file"));
            },
        };
        Ok(
            TranscriptionRequest {
                file,
                model: match self.model {
                    Some(model) => model,
                    None => TranscriptionModel::Whisper1,
                },
                language: copy_text(&self.language),
                prompt: copy_text(&self.prompt),
                response_format: match self.response_format {
                    Some(format) => format,
                    None => TranscriptionResponseFormat::Json,
                },
                temperature: copy_decimal(&self.temperature),
            },
        )
    }
}

/// A transcript.
#[derive(Debug, Clone, PartialEq, Eq)]
pub struct TranscriptionResponse {
    pub text: String,
}

} // verus!
