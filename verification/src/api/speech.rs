//! Synthesis of speech from text.
use vstd::prelude::*;
use vstd::string::*;
use crate::api::{copy_decimal, endpoint, BuilderError};
use crate::decimal::Decimal;
use crate::json::{optional_field, str_field, JsonBody, JsonFieldView, JsonValue, JsonValueView};
use crate::transport::{lemma_json_request_headers, TransportRequest, TransportRequestView};
use crate::IntoRequest;

verus! {

/// The model that speaks.
#[derive(Debug, Clone, Copy, PartialEq, Eq, Structural)]
pub enum SpeechModel {
    Tts1,
    Tts1Hd,
}

impl SpeechModel {
    /// The name of the model on the wire.
    pub open spec fn name(self) -> Seq<char> {
        match self {
            SpeechModel::Tts1 => "tts-1"@,
            SpeechModel::Tts1Hd => "tts-1-hd"@,
        }
    }

    /// The name on the wire.
    pub fn as_str(&self) -> (res: &'static str)
        ensures
            res@ == self.name(),
    {
        match self {
            SpeechModel::Tts1 => "tts-1",
            SpeechModel::Tts1Hd => "tts-1-hd",
        }
    }
}

impl Default for SpeechModel {
    fn default() -> (res: Self)
        ensures
            res == SpeechModel::Tts1,
    {
        SpeechModel::Tts1
    }
}

/// The voice of the speech.
#[derive(Debug, Clone, Copy, PartialEq, Eq, Structural)]
pub enum SpeechVoice {
    Alloy,
    Echo,
    Fable,
    Onyx,
    Nova,
    Shimmer,
}

impl SpeechVoice {
    /// The name of the voice on the wire.
    pub open spec fn name(self) -> Seq<char> {
        match self {
            SpeechVoice::Alloy => "alloy"@,
            SpeechVoice::Echo => "echo"@,
            SpeechVoice::Fable => "fable"@,
            SpeechVoice::Onyx => "onyx"@,
            SpeechVoice::Nova => "nova"@,
            SpeechVoice::Shimmer => "shimmer"@,
        }
    }

    /// The name on the wire.
    pub fn as_str(&self) -> (res: &'static str)
        ensures
            res@ == self.name(),
    {
        match self {
            SpeechVoice::Alloy => "alloy",
            SpeechVoice::Echo => "echo",
            SpeechVoice::Fable => "fable",
            SpeechVoice::Onyx => "onyx",
            SpeechVoice::Nova => "nova",
            SpeechVoice::Shimmer => "shimmer",
        }
    }
}

impl Default for SpeechVoice {
    fn default() -> (res: Self)
        ensures
            res == SpeechVoice::Nova,
    {
        SpeechVoice::Nova
    }
}

/// The encoding of the audio.
#[derive(Debug, Clone, Copy, PartialEq, Eq, Structural)]
pub enum SpeechResponseFormat {
    Mp3,
    Opus,
    Aac,
    Flac,
}

impl SpeechResponseFormat {
    /// The name of the format on the wire.
    pub open spec fn name(self) -> Seq<char> {
        match self {
            SpeechResponseFormat::Mp3 => "mp3"@,
            SpeechResponseFormat::Opus => "opus"@,
            SpeechResponseFormat::Aac => "aac"@,
            SpeechResponseFormat::Flac => "flac"@,
        }
    }

    /// The name on the wire.
    pub fn as_str(&self) -> (res: &'static str)
        ensures
            res@ == self.name(),
    {
        match self {
            SpeechResponseFormat::Mp3 => "mp3",
            SpeechResponseFormat::Opus => "opus",
            SpeechResponseFormat::Aac => "aac",
            SpeechResponseFormat::Flac => "flac",
        }
    }
}

impl Default for SpeechResponseFormat {
    fn default() -> (res: Self)
        ensures
            res == SpeechResponseFormat::Mp3,
    {
        SpeechResponseFormat::Mp3
    }
}

/// A request to speak a text.
#[derive(Debug, Clone, PartialEq, Eq)]
pub struct SpeechRequest {
    model: SpeechModel,
    /// The text to speak.
    input: String,
    voice: SpeechVoice,
    response_format: SpeechResponseFormat,
    /// The speed of the speech, from 0.25 to 4.0.
    speed: Option<Decimal>,
}

/// The mathematical content of a [`SpeechRequest`].
pub struct SpeechRequestView {
    pub model: SpeechModel,
    pub input: Seq<char>,
    pub voice: SpeechVoice,
    pub response_format: SpeechResponseFormat,
    pub speed: Option<Seq<char>>,
}

impl View for SpeechRequest {
    type V = SpeechRequestView;

    closed spec fn view(&self) -> SpeechRequestView {
        SpeechRequestView {
            model: self.model,
            input: self.input@,
            voice: self.voice,
            response_format: self.response_format,
            speed: self.speed.deep_view(),
        }
    }
}

impl SpeechRequestView {
    /// A request to speak `input` with every option at its default.
    pub open spec fn new(input: Seq<char>) -> SpeechRequestView {
        SpeechRequestView {
            model: SpeechModel::Tts1,
            input,
            voice: SpeechVoice::Nova,
            response_format: SpeechResponseFormat::Mp3,
            speed: None,
        }
    }

    /// The members of the body: model, input, voice and format, then the
    /// speed if it is set.
    pub open spec fn json(self) -> Seq<JsonFieldView> {
        seq![
            str_field("model"@, self.model.name()),
            str_field("input"@, self.input),
            str_field("voice"@, self.voice.name()),
            str_field("response_format"@, self.response_format.name()),
        ] + optional_field(
            "speed"@,
            match self.speed {
                Some(speed) => Some(JsonValueView::Number(speed)),
                None => None,
            },
        )
    }

    /// The transport request that the descriptor becomes.
    pub open spec fn request(self, base_url: Seq<char>) -> TransportRequestView {
        TransportRequestView::post(base_url + "/audio/speech"@).with_json(self.json())
    }
}

impl SpeechRequest {
    /// A request to speak `input` with every option at its default.
    pub fn new(input: &str) -> (res: SpeechRequest)
        ensures
            res@ == SpeechRequestView::new(input@),
    {
        SpeechRequest {
            model: SpeechModel::Tts1,
            input: input.to_owned(),
            voice: SpeechVoice::Nova,
            response_format: SpeechResponseFormat::Mp3,
            speed: None,
        }
    }

    /// The body of the request.
    pub fn to_json(&self) -> (body: JsonBody)
        ensures
            body@ == self@.json(),
    {
        let mut body = JsonBody::new();
        body.push_str("model", self.model.as_str());
        body.push_str("input", self.input.as_str());
        body.push_str("voice", self.voice.as_str());
        body.push_str("response_format", self.response_format.as_str());
        assert(body@ =~= seq![
            str_field("model"@, self@.model.name()),
            str_field("input"@, self@.input),
            str_field("voice"@, self@.voice.name()),
            str_field("response_format"@, self@.response_format.name()),
        ]);
        body.push_optional(
            "speed",
            match &self.speed {
                Some(speed) => Some(JsonValue::Number(speed.clone())),
                None => None,
            },
        );
        body
    }
}

impl IntoRequest for SpeechRequest {
    open spec fn request(&self, base_url: Seq<char>) -> TransportRequestView {
        self@.request(base_url)
    }

    fn into_request(self, base_url: &str) -> (res: TransportRequest) {
        let url = endpoint(base_url, "/audio/speech");
        TransportRequest::post(url).json(self.to_json())
    }

    proof fn lemma_sets_no_credential(&self, base_url: Seq<char>) {
        lemma_json_request_headers(base_url + "/audio/speech"@, self@.json());
    }
}

impl SpeechRequest {
    /// Descriptors with the same content become the same request, whatever
    /// else may tell them apart: building depends on the content alone.
    pub proof fn lemma_equal_content_equal_request(
        first: SpeechRequest,
        second: SpeechRequest,
        base_url: Seq<char>,
    )
        requires
            first@ == second@,
        ensures
            first.request(base_url) == second.request(base_url),
    {
    }
}

/// The options of a [`SpeechRequest`] while they are being collected.
#[derive(Debug, Clone, PartialEq, Eq)]
pub struct SpeechRequestBuilder {
    model: Option<SpeechModel>,
    input: Option<String>,
    voice: Option<SpeechVoice>,
    response_format: Option<SpeechResponseFormat>,
    speed: Option<Decimal>,
}

/// The mathematical content of a [`SpeechRequestBuilder`].
pub struct SpeechRequestBuilderView {
    pub model: Option<SpeechModel>,
    pub input: Option<Seq<char>>,
    pub voice: Option<SpeechVoice>,
    pub response_format: Option<SpeechResponseFormat>,
    pub speed: Option<Seq<char>>,
}

impl View for SpeechRequestBuilder {
    type V = SpeechRequestBuilderView;

    closed spec fn view(&self) -> SpeechRequestBuilderView {
        SpeechRequestBuilderView {
            model: self.model,
            input: self.input.deep_view(),
            voice: self.voice,
            response_format: self.response_format,
            speed: self.speed.deep_view(),
        }
    }
}

impl SpeechRequestBuilderView {
    /// A builder in which nothing is set.
    pub open spec fn empty() -> SpeechRequestBuilderView {
        SpeechRequestBuilderView {
            model: None,
            input: None,
            voice: None,
            response_format: None,
            speed: None,
        }
    }

    /// The descriptor that the collected options describe, each unset option
    /// at its default.
    pub open spec fn built(self) -> SpeechRequestView {
        SpeechRequestView {
            model: match self.model {
                Some(model) => model,
                None => SpeechModel::Tts1,
            },
            input: self.input->0,
            voice: match self.voice {
                Some(voice) => voice,
                None => SpeechVoice::Nova,
            },
            response_format: match self.response_format {
                Some(format) => format,
                None => SpeechResponseFormat::Mp3,
            },
            speed: self.speed,
        }
    }
}

impl Default for SpeechRequestBuilder {
    fn default() -> (res: Self)
        ensures
            res@ == SpeechRequestBuilderView::empty(),
    {
        SpeechRequestBuilder {
            model: None,
            input: None,
            voice: None,
            response_format: None,
            speed: None,
        }
    }
}

impl SpeechRequestBuilder {
    /// Sets `model`.
    pub fn model(&mut self, value: SpeechModel) -> (ret: &mut Self)
        ensures
            ret@ == (SpeechRequestBuilderView { model: Some(value), ..old(self)@ }),
            *final(self) == *final(ret),
    {
        self.model = Some(value);
        self
    }

    /// Sets `input`.
    pub fn input(&mut self, value: &str) -> (ret: &mut Self)
        ensures
            ret@ == (SpeechRequestBuilderView { input: Some(value@), ..old(self)@ }),
            *final(self) == *final(ret),
    {
        self.input = Some(value.to_owned());
        self
    }

    /// Sets `voice`.
    pub fn voice(&mut self, value: SpeechVoice) -> (ret: &mut Self)
        ensures
            ret@ == (SpeechRequestBuilderView { voice: Some(value), ..old(self)@ }),
            *final(self) == *final(ret),
    {
        self.voice = Some(value);
        self
    }

    /// Sets `response_format`.
    pub fn response_format(&mut self, value: SpeechResponseFormat) -> (ret: &mut Self)
        ensures
            ret@ == (SpeechRequestBuilderView { response_format: Some(value), ..old(self)@ }),
            *final(self) == *final(ret),
    {
        self.response_format = Some(value);
        self
    }

    /// Sets `speed`.
    pub fn speed(&mut self, value: Decimal) -> (ret: &mut Self)
        ensures
            ret@ == (SpeechRequestBuilderView { speed: Some(value@), ..old(self)@ }),
            *final(self) == *final(ret),
    {
        self.speed = Some(value);
        self
    }

    /// Builds the descriptor. The input is the one option without a default.
    pub fn build(&self) -> (res: Result<SpeechRequest, BuilderError>)
        ensures
            match res {
                Ok(request) => self@.input is Some && request@ == self@.built(),
                Err(error) => self@.input is None && error == BuilderError::UninitializedField(
                    "input",
                ),
            },
    {
        let input = match &self.input {
            Some(input) => input.clone(),
            None => {
                return Err(BuilderError::UninitializedField("input"));
            },
        };
        Ok(
            SpeechRequest {
                model: match self.model {
                    Some(model) => model,
                    None => SpeechModel::Tts1,
                },
                input,
                voice: match self.voice {
                    Some(voice) => voice,
                    None => SpeechVoice::Nova,
                },
                response_format: match self.response_format {
                    Some(format) => format,
                    None => SpeechResponseFormat::Mp3,
                },
                speed: copy_decimal(&self.speed),
            },
        )
    }
}

} // verus!
