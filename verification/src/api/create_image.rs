//! Generation of images from a description.
use vstd::prelude::*;
use vstd::string::*;
use crate::api::{copy_text, endpoint, BuilderError};
use crate::json::{
    optional_field, optional_str, str_field, JsonBody, JsonFieldView, JsonValue, JsonValueView,
};
use crate::transport::{lemma_json_request_headers, TransportRequest, TransportRequestView};
use crate::IntoRequest;

verus! {

/// The model that draws.
#[derive(Debug, Clone, Copy, PartialEq, Eq, Structural)]
pub enum ImageModel {
    DallE3,
}

impl ImageModel {
    /// The name of the model on the wire.
    pub open spec fn name(self) -> Seq<char> {
        "dall-e-3"@
    }

    /// The name on the wire.
    pub fn as_str(&self) -> (res: &'static str)
        ensures
            res@ == self.name(),
    {
        "dall-e-3"
    }
}

impl Default for ImageModel {
    fn default() -> (res: Self)
        ensures
            res == ImageModel::DallE3,
    {
        ImageModel::DallE3
    }
}

/// The quality of the image.
#[derive(Debug, Clone, Copy, PartialEq, Eq, Structural)]
pub enum ImageQuality {
    Standard,
    /// Finer details and greater consistency across the image.
    Hd,
}

impl ImageQuality {
    /// The name of the quality on the wire.
    pub open spec fn name(self) -> Seq<char> {
        match self {
            ImageQuality::Standard => "standard"@,
            ImageQuality::Hd => "hd"@,
        }
    }

    /// The name on the wire.
    pub fn as_str(&self) -> (res: &'static str)
        ensures
            res@ == self.name(),
    {
        match self {
            ImageQuality::Standard => "standard",
            ImageQuality::Hd => "hd",
        }
    }
}

impl Default for ImageQuality {
    fn default() -> (res: Self)
        ensures
            res == ImageQuality::Standard,
    {
        ImageQuality::Standard
    }
}

/// The form in which the image is returned.
#[derive(Debug, Clone, Copy, PartialEq, Eq, Structural)]
pub enum ImageResponseFormat {
    Url,
    B64Json,
}

impl ImageResponseFormat {
    /// The name of the format on the wire.
    pub open spec fn name(self) -> Seq<char> {
        match self {
            ImageResponseFormat::Url => "url"@,
            ImageResponseFormat::B64Json => "b64_json"@,
        }
    }

    /// The name on the wire.
    pub fn as_str(&self) -> (res: &'static str)
        ensures
            res@ == self.name(),
    {
        match self {
            ImageResponseFormat::Url => "url",
            ImageResponseFormat::B64Json => "b64_json",
        }
    }
}

impl Default for ImageResponseFormat {
    fn default() -> (res: Self)
        ensures
            res == ImageResponseFormat::Url,
    {
        ImageResponseFormat::Url
    }
}

/// The size of the image.
#[derive(Debug, Clone, Copy, PartialEq, Eq, Structural)]
pub enum ImageSize {
    Large,
    LargeWide,
    LargeTall,
}

impl ImageSize {
    /// The name of the size on the wire.
    pub open spec fn name(self) -> Seq<char> {
        match self {
            ImageSize::Large => "1024x1024"@,
            ImageSize::LargeWide => "1792x1024"@,
            ImageSize::LargeTall => "1024x1792"@,
        }
    }

    /// The name on the wire.
    pub fn as_str(&self) -> (res: &'static str)
        ensures
            res@ == self.name(),
    {
        match self {
            ImageSize::Large => "1024x1024",
            ImageSize::LargeWide => "1792x1024",
            ImageSize::LargeTall => "1024x1792",
        }
    }
}

impl Default for ImageSize {
    fn default() -> (res: Self)
        ensures
            res == ImageSize::Large,
    {
        ImageSize::Large
    }
}

/// The style of the image.
#[derive(Debug, Clone, Copy, PartialEq, Eq, Structural)]
pub enum ImageStyle {
    /// Hyper-real and dramatic.
    Vivid,
    /// More natural, less hyper-real.
    Natural,
}

impl ImageStyle {
    /// The name of the style on the wire.
    pub open spec fn name(self) -> Seq<char> {
        match self {
            ImageStyle::Vivid => "vivid"@,
            ImageStyle::Natural => "natural"@,
        }
    }

    /// The name on the wire.
    pub fn as_str(&self) -> (res: &'static str)
        ensures
            res@ == self.name(),
    {
        match self {
            ImageStyle::Vivid => "vivid",
            ImageStyle::Natural => "natural",
        }
    }
}

impl Default for ImageStyle {
    fn default() -> (res: Self)
        ensures
            res == ImageStyle::Vivid,
    {
        ImageStyle::Vivid
    }
}

/// A request to generate images.
#[derive(Debug, Clone, PartialEq, Eq)]
pub struct CreateImageRequest {
    /// A description of the desired image.
    prompt: String,
    model: ImageModel,
    /// The number of images to generate.
    n: Option<usize>,
    quality: Option<ImageQuality>,
    response_format: Option<ImageResponseFormat>,
    size: Option<ImageSize>,
    style: Option<ImageStyle>,
    /// An identifier of the end user.
    user: Option<String>,
}

/// The mathematical content of a [`CreateImageRequest`].
pub struct CreateImageRequestView {
    pub prompt: Seq<char>,
    pub model: ImageModel,
    pub n: Option<usize>,
    pub quality: Option<ImageQuality>,
    pub response_format: Option<ImageResponseFormat>,
    pub size: Option<ImageSize>,
    pub style: Option<ImageStyle>,
    pub user: Option<Seq<char>>,
}

impl View for CreateImageRequest {
    type V = CreateImageRequestView;

    closed spec fn view(&self) -> CreateImageRequestView {
        CreateImageRequestView {
            prompt: self.prompt@,
            model: self.model,
            n: self.n,
            quality: self.quality,
            response_format: self.response_format,
            size: self.size,
            style: self.style,
            user: self.user.deep_view(),
        }
    }
}

impl CreateImageRequestView {
    /// A request for `prompt` with every option at its default.
    pub open spec fn new(prompt: Seq<char>) -> CreateImageRequestView {
        CreateImageRequestView {
            prompt,
            model: ImageModel::DallE3,
            n: None,
            quality: None,
            response_format: None,
            size: None,
            style: None,
            user: None,
        }
    }

    /// The members of the body: the prompt and the model, then each option
    /// that is set, in the order of the fields. An unset option is left out.
    pub open spec fn json(self) -> Seq<JsonFieldView> {
        seq![str_field("prompt"@, self.prompt), str_field("model"@, self.model.name())]
            + optional_field(
            "n"@,
            match self.n {
                Some(n) => Some(JsonValueView::Uint(n as u64)),
                None => None,
            },
        ) + optional_field(
            "quality"@,
            optional_str(
                match self.quality {
                    Some(quality) => Some(quality.name()),
                    None => None,
                },
            ),
        ) + optional_field(
            "response_format"@,
            optional_str(
                match self.response_format {
                    Some(format) => Some(format.name()),
                    None => None,
                },
            ),
        ) + optional_field(
            "size"@,
            optional_str(
                match self.size {
                    Some(size) => Some(size.name()),
                    None => None,
                },
            ),
        ) + optional_field(
            "style"@,
            optional_str(
                match self.style {
                    Some(style) => Some(style.name()),
                    None => None,
                },
            ),
        ) + optional_field("user"@, optional_str(self.user))
    }

    /// The transport request that the descriptor becomes.
    pub open spec fn request(self, base_url: Seq<char>) -> TransportRequestView {
        TransportRequestView::post(base_url + "/images/generations"@).with_json(self.json())
    }
}

impl CreateImageRequest {
    /// A request for `prompt` with every option at its default.
    pub fn new(prompt: &str) -> (res: CreateImageRequest)
        ensures
            res@ == CreateImageRequestView::new(prompt@),
    {
        CreateImageRequest {
            prompt: prompt.to_owned(),
            model: ImageModel::DallE3,
            n: None,
            quality: None,
            response_format: None,
            size: None,
            style: None,
            user: None,
        }
    }

    /// The body of the request.
    pub fn to_json(&self) -> (body: JsonBody)
        ensures
            body@ == self@.json(),
    {
        let mut body = JsonBody::new();
        body.push_str("prompt", self.prompt.as_str());
        body.push_str("model", self.model.as_str());
        assert(body@ =~= seq![
            str_field("prompt"@, self@.prompt),
            str_field("model"@, self@.model.name()),
        ]);
        body.push_optional(
            "n",
            match self.n {
                Some(n) => Some(JsonValue::Uint(n as u64)),
                None => None,
            },
        );
        body.push_optional_str(
            "quality",
            match self.quality {
                Some(quality) => Some(quality.as_str()),
                None => None,
            },
        );
        body.push_optional_str(
            "response_format",
            match self.response_format {
                Some(format) => Some(format.as_str()),
                None => None,
            },
        );
        body.push_optional_str(
            "size",
            match self.size {
                Some(size) => Some(size.as_str()),
                None => None,
            },
        );
        body.push_optional_str(
            "style",
            match self.style {
                Some(style) => Some(style.as_str()),
                None => None,
            },
        );
        body.push_optional_str(
            "user",
            match &self.user {
                Some(user) => Some(user.as_str()),
                None => None,
            },
        );
        body
    }
}

impl IntoRequest for CreateImageRequest {
    open spec fn request(&self, base_url: Seq<char>) -> TransportRequestView {
        self@.request(base_url)
    }

    fn into_request(self, base_url: &str) -> (res: TransportRequest) {
        let url = endpoint(base_url, "/images/generations");
        TransportRequest::post(url).json(self.to_json())
    }

    proof fn lemma_sets_no_credential(&self, base_url: Seq<char>) {
        lemma_json_request_headers(base_url + "/images/generations"@, self@.json());
    }
}

impl CreateImageRequest {
    /// Descriptors with the same content become the same request, whatever
    /// else may tell them apart: building depends on the content alone.
    pub proof fn lemma_equal_content_equal_request(
        first: CreateImageRequest,
        second: CreateImageRequest,
        base_url: Seq<char>,
    )
        requires
            first@ == second@,
        ensures
            first.request(base_url) == second.request(base_url),
    {
    }
}

/// The options of a [`CreateImageRequest`] while they are being collected.
#[derive(Debug, Clone, PartialEq, Eq)]
pub struct CreateImageRequestBuilder {
    prompt: Option<String>,
    model: Option<ImageModel>,
    n: Option<usize>,
    quality: Option<ImageQuality>,
    response_format: Option<ImageResponseFormat>,
    size: Option<ImageSize>,
    style: Option<ImageStyle>,
    user: Option<String>,
}

/// The mathematical content of a [`CreateImageRequestBuilder`].
pub struct CreateImageRequestBuilderView {
    pub prompt: Option<Seq<char>>,
    pub model: Option<ImageModel>,
    pub n: Option<usize>,
    pub quality: Option<ImageQuality>,
    pub response_format: Option<ImageResponseFormat>,
    pub size: Option<ImageSize>,
    pub style: Option<ImageStyle>,
    pub user: Option<Seq<char>>,
}

impl View for CreateImageRequestBuilder {
    type V = CreateImageRequestBuilderView;

    closed spec fn view(&self) -> CreateImageRequestBuilderView {
        CreateImageRequestBuilderView {
            prompt: self.prompt.deep_view(),
            model: self.model,
            n: self.n,
            quality: self.quality,
            response_format: self.response_format,
            size: self.size,
            style: self.style,
            user: self.user.deep_view(),
        }
    }
}

impl CreateImageRequestBuilderView {
    /// A builder in which nothing is set.
    pub open spec fn empty() -> CreateImageRequestBuilderView {
        CreateImageRequestBuilderView {
            prompt: None,
            model: None,
            n: None,
            quality: None,
            response_format: None,
            size: None,
            style: None,
            user: None,
        }
    }

    /// The descriptor that the collected options describe, each unset option
    /// at its default.
    pub open spec fn built(self) -> CreateImageRequestView {
        CreateImageRequestView {
            prompt: self.prompt->0,
            model: match self.model {
                Some(model) => model,
                None => ImageModel::DallE3,
            },
            n: self.n,
            quality: self.quality,
            response_format: self.response_format,
            size: self.size,
            style: self.style,
            user: self.user,
        }
    }
}

impl Default for CreateImageRequestBuilder {
    fn default() -> (res: Self)
        ensures
            res@ == CreateImageRequestBuilderView::empty(),
    {
        CreateImageRequestBuilder {
            prompt: None,
            model: None,
            n: None,
            quality: None,
            response_format: None,
            size: None,
            style: None,
            user: None,
        }
    }
}

impl CreateImageRequestBuilder {
    /// Sets `prompt`.
    pub fn prompt(&mut self, value: &str) -> (ret: &mut Self)
        ensures
            ret@ == (CreateImageRequestBuilderView { prompt: Some(value@), ..old(self)@ }),
            *final(self) == *final(ret),
    {
        self.prompt = Some(value.to_owned());
        self
    }

    /// Sets `model`.
    pub fn model(&mut self, value: ImageModel) -> (ret: &mut Self)
        ensures
            ret@ == (CreateImageRequestBuilderView { model: Some(value), ..old(self)@ }),
            *final(self) == *final(ret),
    {
        self.model = Some(value);
        self
    }

    /// Sets `n`.
    pub fn n(&mut self, value: usize) -> (ret: &mut Self)
        ensures
            ret@ == (CreateImageRequestBuilderView { n: Some(value), ..old(self)@ }),
            *final(self) == *final(ret),
    {
        self.n = Some(value);
        self
    }

    /// Sets `quality`.
    pub fn quality(&mut self, value: ImageQuality) -> (ret: &mut Self)
        ensures
            ret@ == (CreateImageRequestBuilderView { quality: Some(value), ..old(self)@ }),
            *final(self) == *final(ret),
    {
        self.quality = Some(value);
        self
    }

    /// Sets `response_format`.
    pub fn response_format(&mut self, value: ImageResponseFormat) -> (ret: &mut Self)
        ensures
            ret@ == (CreateImageRequestBuilderView { response_format: Some(value), ..old(self)@ }),
            *final(self) == *final(ret),
    {
        self.response_format = Some(value);
        self
    }

    /// Sets `size`.
    pub fn size(&mut self, value: ImageSize) -> (ret: &mut Self)
        ensures
            ret@ == (CreateImageRequestBuilderView { size: Some(value), ..old(self)@ }),
            *final(self) == *final(ret),
    {
        self.size = Some(value);
        self
    }

    /// Sets `style`.
    pub fn style(&mut self, value: ImageStyle) -> (ret: &mut Self)
        ensures
            ret@ == (CreateImageRequestBuilderView { style: Some(value), ..old(self)@ }),
            *final(self) == *final(ret),
    {
        self.style = Some(value);
        self
    }

    /// Sets `user`.
    pub fn user(&mut self, value: &str) -> (ret: &mut Self)
        ensures
            ret@ == (CreateImageRequestBuilderView { user: Some(value@), ..old(self)@ }),
            *final(self) == *final(ret),
    {
        self.user = Some(value.to_owned());
        self
    }

    /// Builds the descriptor. The prompt is the one option without a default.
    pub fn build(&self) -> (res: Result<CreateImageRequest, BuilderError>)
        ensures
            match res {
                Ok(request) => self@.prompt is Some && request@ == self@.built(),
                Err(error) => self@.prompt is None && error == BuilderError::UninitializedField(
                    "prompt",
                ),
            },
    {
        let prompt = match &self.prompt {
            Some(prompt) => prompt.clone(),
            None => {
                return Err(BuilderError::UninitializedField("prompt"));
            },
        };
        Ok(
            CreateImageRequest {
                prompt,
                model: match self.model {
                    Some(model) => model,
                    None => ImageModel::DallE3,
                },
                n: self.n,
                quality: self.quality,
                response_format: self.response_format,
                size: self.size,
                style: self.style,
                user: copy_text(&self.user),
            },
        )
    }
}

/// The images that were generated.
#[derive(Debug, Clone, PartialEq, Eq)]
pub struct CreateImageResponse {
    pub created: u64,
    pub data: Vec<ImageObject>,
}

/// One generated image.
#[derive(Debug, Clone, PartialEq, Eq)]
pub struct ImageObject {
    /// The image in base 64, if that form was asked for.
    pub b64_json: Option<String>,
    /// The address of the image, if that form was asked for.
    pub url: Option<String>,
    /// The prompt as the model revised it.
    pub revised_prompt: String,
}

} // verus!
