//! The payload holder that a handler attaches to a response.

use crate::response::{Response, ResponseView};
use crate::value::JsonValue;
use vstd::prelude::*;

verus! {

/// The characters of an optional string, where it is present.
pub open spec fn text_of(s: Option<String>) -> Option<Seq<char>> {
    match s {
        Some(s) => Some(s@),
        None => None,
    }
}

/// What a [`JsonResponse`] holds: the captured value and, for JSONP, the name
/// of the callback function.
pub struct JsonResponseView {
    pub value: JsonValue,
    pub callback: Option<Seq<char>>,
}

impl JsonResponseView {
    /// What a holder for plain JSON holds: the value and no callback.
    pub open spec fn json(value: JsonValue) -> JsonResponseView {
        JsonResponseView { value, callback: None }
    }

    /// What a holder for JSONP holds: the value and the callback's name.
    pub open spec fn jsonp(value: JsonValue, name: Seq<char>) -> JsonResponseView {
        JsonResponseView { value, callback: Some(name) }
    }

    /// A callback name, where there is one, is not empty. Nothing checks
    /// this: a caller that passes an empty name gets a holder that is not
    /// well formed, and a body that starts with the opening parenthesis.
    pub open spec fn well_formed(self) -> bool {
        self.callback matches Some(name) ==> name.len() > 0
    }
}

/// A value to be sent as JSON, with the callback name that turns it into
/// JSONP. The value is captured when the holder is made and does not change.
#[derive(Debug, PartialEq)]
pub struct JsonResponse {
    value: JsonValue,
    callback: Option<String>,
}

impl View for JsonResponse {
    type V = JsonResponseView;

    closed spec fn view(&self) -> JsonResponseView {
        JsonResponseView { value: self.value, callback: text_of(self.callback) }
    }
}

impl Clone for JsonResponse {
    fn clone(&self) -> (r: Self)
        ensures
            r@ == self@,
    {
        JsonResponse { value: self.value.clone(), callback: self.callback.clone() }
    }
}

impl JsonResponse {
    /// A holder for `value`, with the callback name if there is one.
    pub fn new(value: JsonValue, callback: Option<String>) -> (r: JsonResponse)
        ensures
            r@ == (JsonResponseView { value, callback: text_of(callback) }),
    {
        JsonResponse { value, callback }
    }

    /// A holder that is sent as plain JSON.
    pub fn json(value: JsonValue) -> (r: JsonResponse)
        ensures
            r@ == JsonResponseView::json(value),
            r@.well_formed(),
    {
        JsonResponse::new(value, None)
    }

    /// A holder that is sent as JSONP: a call of `cb_name` on the JSON text.
    pub fn jsonp(value: JsonValue, cb_name: String) -> (r: JsonResponse)
        ensures
            r@ == JsonResponseView::jsonp(value, cb_name@),
            r@.well_formed() <==> cb_name@.len() > 0,
    {
        JsonResponse::new(value, Some(cb_name))
    }

    /// The captured value.
    pub fn value(&self) -> (r: &JsonValue)
        ensures
            *r == self@.value,
    {
        &self.value
    }

    /// The callback name, where the holder is sent as JSONP.
    pub fn callback(&self) -> (r: &Option<String>)
        ensures
            text_of(*r) == self@.callback,
    {
        &self.callback
    }

    /// Attaches the holder to `resp`, in place of one attached before. The
    /// headers and the body stay as they are until the response is finalized.
    pub fn modify(self, resp: &mut Response)
        ensures
            final(resp)@ == old(resp)@.attach(self@),
    {
        resp.payload = Some(self);
    }
}

} // verus!
