use llm_sdk::{
    Body, ChatCompletionRequest, CreateImageRequest, CreateImageRequestBuilder, Decimal,
    EmbeddingEncodingFormat, EmbeddingInput, EmbeddingModel, EmbeddingRequest,
    EmbeddingRequestBuilder, ImageModel, ImageQuality, ImageResponseFormat, ImageSize, ImageStyle,
    IntoRequest, Method, PartValue, SpeechModel, SpeechRequest, SpeechRequestBuilder,
    SpeechResponseFormat, SpeechVoice, TranscriptionModel, TranscriptionRequest,
    TranscriptionRequestBuilder, TranscriptionResponseFormat, TransportRequest, WhisperModel,
    WhisperRequest, WhisperRequestBuilder, WhisperRequestType, WhisperResponseFormat,
};
use serde_json::Value;

const BASE: &str = "https://api.openai.com/v1";

fn parsed(text: &str) -> Value {
    serde_json::from_str(text).unwrap()
}

fn object(members: Vec<(&str, Value)>) -> Value {
    let mut map = serde_json::Map::new();
    for (name, value) in members {
        map.insert(name.to_string(), value);
    }
    Value::Object(map)
}

fn json_text(request: &TransportRequest) -> String {
    match &request.body {
        Body::Json(body) => body.to_text(),
        other => panic!("no JSON body: {:?}", other),
    }
}

fn form_fields(request: &TransportRequest) -> Vec<(String, PartValue)> {
    match &request.body {
        Body::Multipart(form) => {
            form.fields.iter().map(|f| (f.name.clone(), f.part.value.clone())).collect()
        }
        other => panic!("no multipart body: {:?}", other),
    }
}

fn text(name: &str, value: &str) -> (String, PartValue) {
    (name.to_string(), PartValue::Text(value.to_string()))
}

#[test]
fn create_image_request_should_serialize() {
    let req = CreateImageRequest::new("draw a cute caterpillar");
    assert_eq!(
        parsed(&req.to_json().to_text()),
        object(vec![
            ("prompt", Value::from("draw a cute caterpillar")),
            ("model", Value::from("dall-e-3")),
        ])
    );
}

#[test]
fn create_image_request_custom_should_serialize() {
    let req = CreateImageRequestBuilder::default()
        .prompt("draw a cute caterpillar")
        .style(ImageStyle::Natural)
        .quality(ImageQuality::Hd)
        .build()
        .unwrap();
    assert_eq!(
        parsed(&req.to_json().to_text()),
        object(vec![
            ("prompt", Value::from("draw a cute caterpillar")),
            ("model", Value::from("dall-e-3")),
            ("style", Value::from("natural")),
            ("quality", Value::from("hd")),
        ])
    );
}

#[test]
fn create_image_request_with_every_option() {
    let req = CreateImageRequestBuilder::default()
        .prompt("a \"quoted\" cat\n")
        .model(ImageModel::DallE3)
        .n(2)
        .quality(ImageQuality::Standard)
        .response_format(ImageResponseFormat::B64Json)
        .size(ImageSize::LargeTall)
        .style(ImageStyle::Vivid)
        .user("someone")
        .build()
        .unwrap();
    let text = req.to_json().to_text();
    assert_eq!(
        text,
        "{\"prompt\":\"a \\\"quoted\\\" cat\\n\",\"model\":\"dall-e-3\",\"n\":2,\
         \"quality\":\"standard\",\"response_format\":\"b64_json\",\"size\":\"1024x1792\",\
         \"style\":\"vivid\",\"user\":\"someone\"}"
    );
    assert_eq!(
        parsed(&text),
        object(vec![
            ("prompt", Value::from("a \"quoted\" cat\n")),
            ("model", Value::from("dall-e-3")),
            ("n", Value::from(2u64)),
            ("quality", Value::from("standard")),
            ("response_format", Value::from("b64_json")),
            ("size", Value::from("1024x1792")),
            ("style", Value::from("vivid")),
            ("user", Value::from("someone")),
        ])
    );
}

#[test]
fn create_image_request_goes_to_image_generations() {
    let req = CreateImageRequest::new("a cat").into_request(BASE);
    assert_eq!(req.method, Method::Post);
    assert_eq!(req.method.as_str(), "POST");
    assert_eq!(req.url, "https://api.openai.com/v1/images/generations");
    assert_eq!(req.content_type(), Some("application/json"));
    assert_eq!(req.headers.len(), 1);
    assert_eq!(req.timeout, None);
}

#[test]
fn embedding_request_for_hello_has_input_and_model_only() {
    let req = EmbeddingRequest::new(EmbeddingInput::from("hello"));
    let built = req.into_request(BASE);
    assert_eq!(
        json_text(&built),
        "{\"input\":\"hello\",\"model\":\"text-embedding-ada-002\"}"
    );
    assert_eq!(
        parsed(&json_text(&built)),
        object(vec![
            ("input", Value::from("hello")),
            ("model", Value::from("text-embedding-ada-002")),
        ])
    );
    assert!(built.url.ends_with("/embeddings"));
    assert_eq!(built.url, "https://api.openai.com/v1/embeddings");
}

#[test]
fn embedding_request_for_an_array() {
    let req = EmbeddingRequest::new_array(vec![
        "The quick brown fox jumped over the lazy dog.".into(),
        "我是谁？宇宙有没有尽头？".into(),
    ]);
    assert_eq!(
        parsed(&req.to_json().to_text()),
        object(vec![
            (
                "input",
                Value::from(vec![
                    "The quick brown fox jumped over the lazy dog.",
                    "我是谁？宇宙有没有尽头？",
                ]),
            ),
            ("model", Value::from("text-embedding-ada-002")),
        ])
    );
    let empty = EmbeddingRequest::new_array(vec![]);
    assert_eq!(
        empty.to_json().to_text(),
        "{\"input\":[],\"model\":\"text-embedding-ada-002\"}"
    );
}

#[test]
fn embedding_request_with_options() {
    let req = EmbeddingRequestBuilder::default()
        .input(EmbeddingInput::from("hello".to_string()))
        .model(EmbeddingModel::TextEmbeddingAda002)
        .encoding_format(EmbeddingEncodingFormat::Base64)
        .user("someone")
        .build()
        .unwrap();
    assert_eq!(
        req.to_json().to_text(),
        "{\"input\":\"hello\",\"model\":\"text-embedding-ada-002\",\
         \"encoding_format\":\"base64\",\"user\":\"someone\"}"
    );
}

#[test]
fn embedding_input_conversions() {
    let words = vec!["a".to_string(), "b".to_string()];
    assert_eq!(EmbeddingInput::from("a"), EmbeddingInput::String("a".to_string()));
    assert_eq!(EmbeddingInput::from("a".to_string()), EmbeddingInput::String("a".to_string()));
    assert_eq!(EmbeddingInput::from(words.clone()), EmbeddingInput::StringArray(words.clone()));
    assert_eq!(EmbeddingInput::from(&words[..]), EmbeddingInput::StringArray(words));
}

#[test]
fn speech_request_with_defaults_has_four_fields() {
    let req = SpeechRequest::new("The quick brown fox jumped over the lazy dog.");
    let built = req.into_request(BASE);
    assert_eq!(built.url, "https://api.openai.com/v1/audio/speech");
    let value = parsed(&json_text(&built));
    let members = value.as_object().unwrap();
    let mut names: Vec<&str> = members.keys().map(|k| k.as_str()).collect();
    names.sort();
    assert_eq!(names, vec!["input", "model", "response_format", "voice"]);
    assert!(!members.contains_key("speed"));
    assert_eq!(
        value,
        object(vec![
            ("model", Value::from("tts-1")),
            ("input", Value::from("The quick brown fox jumped over the lazy dog.")),
            ("voice", Value::from("nova")),
            ("response_format", Value::from("mp3")),
        ])
    );
}

#[test]
fn speech_request_with_speed() {
    let req = SpeechRequestBuilder::default()
        .input("hi")
        .model(SpeechModel::Tts1Hd)
        .voice(SpeechVoice::Onyx)
        .response_format(SpeechResponseFormat::Flac)
        .speed(Decimal::parse("1.5").unwrap())
        .build()
        .unwrap();
    let text = req.to_json().to_text();
    assert_eq!(
        text,
        "{\"model\":\"tts-1-hd\",\"input\":\"hi\",\"voice\":\"onyx\",\
         \"response_format\":\"flac\",\"speed\":1.5}"
    );
    assert_eq!(parsed(&text)["speed"], Value::from(1.5));
}

#[test]
fn chat_completion_request_is_an_empty_object() {
    let built = ChatCompletionRequest {}.into_request(BASE);
    assert_eq!(built.url, "https://api.openai.com/v1/chat/completions");
    assert_eq!(json_text(&built), "{}");
    assert_eq!(parsed(&json_text(&built)), object(vec![]));
}

#[test]
fn transcription_request_becomes_a_form() {
    let req = TranscriptionRequest::new(vec![1, 2, 3]);
    let form = req.into_form();
    assert_eq!(form.fields.len(), 3);
    assert_eq!(form.fields[0].name, "file");
    assert_eq!(form.fields[0].part.value, PartValue::Bytes(vec![1, 2, 3]));
    assert_eq!(form.fields[0].part.file_name.as_deref(), Some("file"));
    assert_eq!(form.fields[0].part.mime.as_deref(), Some("audio/mp3"));
    assert_eq!(form.fields[1].name, "model");
    assert_eq!(form.fields[1].part.value, PartValue::Text("whisper-1".to_string()));
    assert_eq!(form.fields[1].part.file_name, None);
    assert_eq!(form.fields[1].part.mime, None);
    assert_eq!(form.fields[2].name, "response_format");
    assert_eq!(form.fields[2].part.value, PartValue::Text("json".to_string()));
}

#[test]
fn transcription_request_with_every_option() {
    let req = TranscriptionRequestBuilder::default()
        .file(vec![9])
        .model(TranscriptionModel::Whisper1)
        .language("en")
        .prompt("a fox")
        .response_format(TranscriptionResponseFormat::VerboseJson)
        .temperature(Decimal::parse("0.2").unwrap())
        .build()
        .unwrap();
    assert_eq!(req.response_format(), TranscriptionResponseFormat::VerboseJson);
    let built = req.into_request(BASE);
    assert_eq!(built.url, "https://api.openai.com/v1/audio/transcriptions");
    assert_eq!(built.content_type(), Some("multipart/form-data"));
    assert_eq!(
        form_fields(&built),
        vec![
            ("file".to_string(), PartValue::Bytes(vec![9])),
            text("model", "whisper-1"),
            text("response_format", "verbose_json"),
            text("language", "en"),
            text("prompt", "a fox"),
            text("temperature", "0.2"),
        ]
    );
}

#[test]
fn whisper_transcription_sends_the_language() {
    let req = WhisperRequestBuilder::default()
        .file(vec![7, 7])
        .model(WhisperModel::Whisper1)
        .language("zh")
        .response_format(WhisperResponseFormat::Text)
        .request_type(WhisperRequestType::Transcription)
        .build()
        .unwrap();
    assert_eq!(req.request_type(), WhisperRequestType::Transcription);
    let built = req.into_request(BASE);
    assert_eq!(built.url, "https://api.openai.com/v1/audio/transcriptions");
    assert_eq!(
        form_fields(&built),
        vec![
            ("file".to_string(), PartValue::Bytes(vec![7, 7])),
            text("model", "whisper-1"),
            text("response_format", "text"),
            text("language", "zh"),
        ]
    );
}

#[test]
fn whisper_translation_drops_the_language() {
    let req = WhisperRequestBuilder::default()
        .file(vec![7, 7])
        .language("zh")
        .prompt("in English")
        .temperature(Decimal::parse("0").unwrap())
        .response_format(WhisperResponseFormat::Srt)
        .request_type(WhisperRequestType::Translation)
        .build()
        .unwrap();
    let built = req.into_request(BASE);
    assert_eq!(built.url, "https://api.openai.com/v1/audio/translations");
    assert_eq!(
        form_fields(&built),
        vec![
            ("file".to_string(), PartValue::Bytes(vec![7, 7])),
            text("model", "whisper-1"),
            text("response_format", "srt"),
            text("prompt", "in English"),
            text("temperature", "0"),
        ]
    );
}

#[test]
fn whisper_constructors_set_the_kind_of_request() {
    let a = WhisperRequest::transcription(vec![1]);
    let b = WhisperRequest::translation(vec![1]);
    assert_eq!(a.request_type(), WhisperRequestType::Transcription);
    assert_eq!(b.request_type(), WhisperRequestType::Translation);
    assert_eq!(a.response_format(), WhisperResponseFormat::Json);
    assert_eq!(b.into_form().fields.len(), 3);
}

#[test]
fn equal_descriptors_build_equal_requests() {
    let make = || {
        CreateImageRequestBuilder::default()
            .prompt("a cat")
            .size(ImageSize::LargeWide)
            .build()
            .unwrap()
    };
    let first = make().into_request(BASE);
    let second = make().into_request(BASE);
    assert_eq!(first, second);
    assert_eq!(json_text(&first), json_text(&second));
    let form = || WhisperRequest::translation(vec![4, 5]).into_request(BASE);
    assert_eq!(form(), form());
}
