//! Finalization: from an attached payload to the body and the content type.

use crate::payload::text_of;
use crate::response::{Response, ResponseError, ResponseErrorView, ResponseView};
use crate::value::SerializationError;
use vstd::prelude::*;

verus! {

/// The content type of a plain JSON body.
pub const JSON_CONTENT_TYPE: &'static str = "application/json";

/// The content type of a JSONP body.
pub const JSONP_CONTENT_TYPE: &'static str = "text/javascript; charset=utf-8";

/// The text of a serialization that succeeded.
pub open spec fn text_if_ok(serialized: Result<String, SerializationError>) -> Option<Seq<char>> {
    match serialized {
        Ok(text) => Some(text@),
        Err(_) => None,
    }
}

/// The content type that goes with a body: JSONP where there is a callback,
/// JSON where there is none.
pub open spec fn rendered_content_type(callback: Option<Seq<char>>) -> Seq<char> {
    match callback {
        Some(_) => JSONP_CONTENT_TYPE@,
        None => JSON_CONTENT_TYPE@,
    }
}

/// The body for a JSON text: the text itself, or with a callback the call
/// `callback(text)`.
pub open spec fn rendered_body(callback: Option<Seq<char>>, text: Seq<char>) -> Seq<char> {
    match callback {
        Some(name) => name + seq!['('] + text + seq![')'],
        None => text,
    }
}

/// The content type and the body for the outcome of a serialization, or
/// `None` where it failed (`text` is `None`).
pub open spec fn rendered(callback: Option<Seq<char>>, text: Option<Seq<char>>) -> Option<
    (Seq<char>, Seq<char>),
> {
    match text {
        Some(text) => Some((rendered_content_type(callback), rendered_body(callback, text))),
        None => None,
    }
}

/// The response after a content type and a body have been written to it:
/// the body is replaced, the content type is set only where none was set.
/// With nothing to write the response stays as it is.
pub open spec fn written(resp: ResponseView, output: Option<(Seq<char>, Seq<char>)>) -> ResponseView {
    match output {
        Some((content_type, body)) => ResponseView {
            content_type: match resp.content_type {
                Some(present) => Some(present),
                None => Some(content_type),
            },
            body: Some(body),
            payload: resp.payload,
        },
        None => resp,
    }
}

/// The response after finalization. An attached payload leaves its slot and,
/// where it can be serialized, is written as body and content type; where it
/// cannot, nothing else changes. A response with nothing attached stays as it
/// is.
pub open spec fn finalized(resp: ResponseView) -> ResponseView {
    match resp.payload {
        Some(payload) => written(
            ResponseView { payload: None, ..resp },
            rendered(payload.callback, payload.value.text()),
        ),
        None => resp,
    }
}

/// The error after finalization: the same error, with its response
/// finalized.
pub open spec fn caught<E>(err: ResponseErrorView<E>) -> ResponseErrorView<E> {
    ResponseErrorView { error: err.error, response: finalized(err.response) }
}

/// The content type and the body for the outcome of a serialization, or
/// `None` where it failed.
pub fn render(callback: &Option<String>, serialized: Result<String, SerializationError>) -> (r:
    Option<(String, String)>)
    ensures
        match r {
            Some((content_type, body)) => rendered(text_of(*callback), text_if_ok(serialized))
                == Some((content_type@, body@)),
            None => rendered(text_of(*callback), text_if_ok(serialized)) is None,
        },
{
    match serialized {
        Ok(json_string) => match callback {
            Some(cb) => {
                let mut jsonp = String::new();
                jsonp.append(cb.as_str());
                jsonp.append("(");
                jsonp.append(json_string.as_str());
                jsonp.append(")");
                proof {
                    reveal_strlit("(");
                    reveal_strlit(")");
                    assert("("@ =~= seq!['(']);
                    assert(")"@ =~= seq![')']);
                }
                Some((JSONP_CONTENT_TYPE.to_owned(), jsonp))
            },
            None => Some((JSON_CONTENT_TYPE.to_owned(), json_string)),
        },
        Err(_) => None,
    }
}

impl Response {
    /// Writes the outcome of serializing a payload with the given callback
    /// name: the body, and the content type unless one is set already. Where
    /// the serialization failed the response stays as it is.
    pub fn write_json(
        &mut self,
        callback: &Option<String>,
        serialized: Result<String, SerializationError>,
    )
        ensures
            final(self)@ == written(
                old(self)@,
                rendered(text_of(*callback), text_if_ok(serialized)),
            ),
    {
        if let Some((content_type, body)) = render(callback, serialized) {
            if self.content_type.is_none() {
                self.content_type = Some(content_type);
            }
            self.body = Some(body);
        }
    }
}

/// The step that runs after the handlers and finalizes their response.
#[derive(Clone, Copy, Debug)]
pub struct JsonResponseMiddleware;

impl JsonResponseMiddleware {
    /// Finalizes a response on the success path. This never fails.
    ///
    /// The payload leaves its slot. A response without one comes back as it
    /// went in; a content type that is set is kept; where the payload cannot
    /// be serialized, the body and the content type are kept too.
    pub fn after<E>(&self, resp: Response) -> (r: Result<Response, ResponseError<E>>)
        ensures
            r is Ok,
            r->Ok_0@ == finalized(resp@),
            r->Ok_0@.payload is None,
            resp@.payload is None ==> r->Ok_0@ == resp@,
            resp@.content_type is Some ==> r->Ok_0@.content_type == resp@.content_type,
            resp@.payload is Some && resp@.payload->0.value.text() is None ==> r->Ok_0@.body
                == resp@.body && r->Ok_0@.content_type == resp@.content_type,
    {
        let mut resp = resp;
        if let Some(payload) = resp.payload.take() {
            let serialized = payload.value().serialize();
            resp.write_json(payload.callback(), serialized);
        }
        Ok(resp)
    }

    /// Finalizes the response inside an error, exactly as on the success
    /// path, and hands the error on: the result is always an error, and the
    /// same one.
    pub fn catch<E>(&self, err: ResponseError<E>) -> (r: Result<Response, ResponseError<E>>)
        ensures
            r is Err,
            r->Err_0@ == caught(err@),
            r->Err_0.error == err.error,
            r->Err_0.response@ == finalized(err.response@),
    {
        let mut err = err;
        match self.after::<E>(err.response) {
            Ok(response) => {
                err.response = response;
                Err(err)
            },
            Err(failed) => Err(failed),
        }
    }
}

} // verus!
