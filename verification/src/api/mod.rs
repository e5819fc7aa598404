//! The request descriptors of the endpoints, their builders and the shapes of
//! the responses.
use vstd::prelude::*;
use vstd::string::*;
use crate::decimal::Decimal;
use crate::text::join;

pub mod chat_completion;
pub mod create_image;
pub mod embedding;
pub mod speech;
pub mod transcription;
pub mod whisper;

pub use chat_completion::{ChatCompletionRequest, ChatCompletionResponse};
pub use create_image::{
    CreateImageRequest, CreateImageRequestBuilder, CreateImageResponse, ImageModel, ImageObject,
    ImageQuality, ImageResponseFormat, ImageSize, ImageStyle,
};
pub use embedding::{
    EmbeddingEncodingFormat, EmbeddingInput, EmbeddingModel, EmbeddingRequest,
    EmbeddingRequestBuilder, EmbeddingUsage,
};
pub use speech::{
    SpeechModel, SpeechRequest, SpeechRequestBuilder, SpeechResponseFormat, SpeechVoice,
};
pub use transcription::{
    TranscriptionModel, TranscriptionRequest, TranscriptionRequestBuilder, TranscriptionResponse,
    TranscriptionResponseFormat,
};
pub use whisper::{
    WhisperModel, WhisperRequest, WhisperRequestBuilder, WhisperRequestType, WhisperResponse,
    WhisperResponseFormat,
};

verus! {

/// Why a builder could not produce its descriptor.
#[derive(Debug, Clone, Copy, PartialEq, Eq)]
pub enum BuilderError {
    /// A field without a default was never set.
    UninitializedField(&'static str),
}

impl BuilderError {
    /// The text of the error as a user reads it.
    pub open spec fn message_text(self) -> Seq<char> {
        match self {
            BuilderError::UninitializedField(field) => "`"@ + field@ + "` must be initialized"@,
        }
    }

    /// Renders the error for display.
    pub fn message(&self) -> (res: String)
        ensures
            res@ == self.message_text(),
    {
        match self {
            BuilderError::UninitializedField(field) => {
                let mut out = "`".to_owned();
                out.append(field);
                out.append("` must be initialized");
                out
            },
        }
    }
}

/// The content of an optional byte buffer.
pub open spec fn optional_bytes(bytes: Option<Vec<u8>>) -> Option<Seq<u8>> {
    match bytes {
        Some(b) => Some(b@),
        None => None,
    }
}

/// Joins a base URL and the path of an endpoint.
pub fn endpoint(base_url: &str, path: &str) -> (res: String)
    ensures
        res@ == base_url@ + path@,
{
    join(base_url, path)
}

pub(crate) fn copy_bytes(bytes: &Vec<u8>) -> (res: Vec<u8>)
    ensures
        res@ == bytes@,
{
    let res = bytes.clone();
    assert(res@ =~= bytes@);
    res
}

pub(crate) fn copy_text(text: &Option<String>) -> (res: Option<String>)
    ensures
        res.deep_view() == text.deep_view(),
{
    match text {
        Some(s) => Some(s.clone()),
        None => None,
    }
}

pub(crate) fn copy_decimal(number: &Option<Decimal>) -> (res: Option<Decimal>)
    ensures
        res.deep_view() == number.deep_view(),
{
    match number {
        Some(d) => Some(d.clone()),
        None => None,
    }
}

pub(crate) fn copy_texts(texts: &Vec<String>) -> (res: Vec<String>)
    ensures
        res.deep_view() == texts.deep_view(),
{
    let mut res: Vec<String> = Vec::new();
    let mut i: usize = 0;
    while i < texts.len()
        invariant
            i <= texts.len(),
            res.len() == i,
            forall|j: int| 0 <= j < i ==> res[j]@ == texts[j]@,
        decreases texts.len() - i,
    {
        res.push(texts[i].clone());
        i = i + 1;
    }
    assert(res.deep_view() =~= texts.deep_view());
    res
}

} // verus!
