//! The response as the middleware sees it.

use crate::payload::{text_of, JsonResponse, JsonResponseView};
use vstd::prelude::*;

verus! {

/// A [`Response`] as mathematical values.
pub struct ResponseView {
    pub content_type: Option<Seq<char>>,
    pub body: Option<Seq<char>>,
    pub payload: Option<JsonResponseView>,
}

impl ResponseView {
    /// The response with `payload` in its slot, in place of what was there.
    pub open spec fn attach(self, payload: JsonResponseView) -> ResponseView {
        ResponseView { payload: Some(payload), ..self }
    }
}

/// The parts of an HTTP response that finalization reads and writes.
#[derive(Debug, PartialEq)]
pub struct Response {
    /// The `Content-Type` header, where one is set.
    pub content_type: Option<String>,
    /// The body, where one is set.
    pub body: Option<String>,
    /// The slot in which a payload waits to be finalized.
    pub payload: Option<JsonResponse>,
}

impl View for Response {
    type V = ResponseView;

    open spec fn view(&self) -> ResponseView {
        ResponseView {
            content_type: text_of(self.content_type),
            body: text_of(self.body),
            payload: match self.payload {
                Some(payload) => Some(payload@),
                None => None,
            },
        }
    }
}

impl Clone for Response {
    fn clone(&self) -> (r: Self)
        ensures
            r@ == self@,
    {
        Response {
            content_type: self.content_type.clone(),
            body: self.body.clone(),
            payload: self.payload.clone(),
        }
    }
}

impl Response {
    /// A response with no content type, no body and nothing attached.
    pub fn new() -> (r: Response)
        ensures
            r@ == (ResponseView { content_type: None, body: None, payload: None }),
    {
        Response { content_type: None, body: None, payload: None }
    }
}

/// A [`ResponseError`] as mathematical values.
pub struct ResponseErrorView<E> {
    pub error: E,
    pub response: ResponseView,
}

/// An error on its way through the pipeline, with the response that is sent
/// if nothing handles it.
#[derive(Debug)]
pub struct ResponseError<E> {
    /// What went wrong. Finalization carries it through as it is.
    pub error: E,
    /// The response that goes out with the error.
    pub response: Response,
}

impl<E> View for ResponseError<E> {
    type V = ResponseErrorView<E>;

    open spec fn view(&self) -> ResponseErrorView<E> {
        ResponseErrorView { error: self.error, response: self.response@ }
    }
}

} // verus!
