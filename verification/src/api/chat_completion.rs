//! Chat completion.
use vstd::prelude::*;
use vstd::string::*;
use crate::api::endpoint;
use crate::json::{JsonBody, JsonFieldView};
use crate::transport::{lemma_json_request_headers, TransportRequest, TransportRequestView};
use crate::IntoRequest;

verus! {

/// A request to complete a conversation. It has no options yet.
#[derive(Debug, Clone, Copy, PartialEq, Eq, Structural)]
pub struct ChatCompletionRequest {}

/// The completion of a conversation.
#[derive(Debug, Clone, Copy, PartialEq, Eq, Structural)]
pub struct ChatCompletionResponse {}

impl ChatCompletionRequest {
    /// The members of the body: none.
    pub open spec fn json(self) -> Seq<JsonFieldView> {
        Seq::empty()
    }

    /// The body of the request.
    pub fn to_json(&self) -> (body: JsonBody)
        ensures
            body@ == self.json(),
    {
        JsonBody::new()
    }
}

impl IntoRequest for ChatCompletionRequest {
    open spec fn request(&self, base_url: Seq<char>) -> TransportRequestView {
        TransportRequestView::post(base_url + "/chat/completions"@).with_json(self.json())
    }

    fn into_request(self, base_url: &str) -> (res: TransportRequest) {
        let url = endpoint(base_url, "/chat/completions");
        TransportRequest::post(url).json(self.to_json())
    }

    proof fn lemma_sets_no_credential(&self, base_url: Seq<char>) {
        lemma_json_request_headers(base_url + "/chat/completions"@, self.json());
    }
}

} // verus!
