//! What holds of finalization on every response, stated over the functions
//! that the contracts of [`JsonResponse`](crate::payload::JsonResponse) and
//! [`JsonResponseMiddleware`](crate::middleware::JsonResponseMiddleware) use.

use crate::middleware::{caught, finalized, JSONP_CONTENT_TYPE, JSON_CONTENT_TYPE};
use crate::payload::JsonResponseView;
use crate::response::{ResponseErrorView, ResponseView};
use crate::value::JsonValue;
use vstd::prelude::*;

verus! {

/// Finalizing a response that has no payload attached gives back the very
/// same response.
pub proof fn no_payload_is_noop(resp: ResponseView)
    requires
        resp.payload is None,
    ensures
        finalized(resp) == resp,
{
}

/// A value attached as plain JSON that serializes to `text` gives the body
/// `text`, and the content type `application/json` where none was set before.
pub proof fn plain_json_round_trip(resp: ResponseView, value: JsonValue, text: Seq<char>)
    requires
        value.text() == Some(text),
    ensures
        finalized(resp.attach(JsonResponseView::json(value))).body == Some(text),
        resp.content_type is None ==> finalized(
            resp.attach(JsonResponseView::json(value)),
        ).content_type == Some("application/json"@),
{
    assert(JSON_CONTENT_TYPE@ == "application/json"@);
}

/// A value attached as JSONP with the callback `name` that serializes to
/// `text` gives the body `name(text)`, and the content type
/// `text/javascript; charset=utf-8` where none was set before.
pub proof fn jsonp_wraps_in_callback(
    resp: ResponseView,
    value: JsonValue,
    name: Seq<char>,
    text: Seq<char>,
)
    requires
        value.text() == Some(text),
    ensures
        finalized(resp.attach(JsonResponseView::jsonp(value, name))).body == Some(
            name + seq!['('] + text + seq![')'],
        ),
        resp.content_type is None ==> finalized(
            resp.attach(JsonResponseView::jsonp(value, name)),
        ).content_type == Some("text/javascript; charset=utf-8"@),
{
    assert(JSONP_CONTENT_TYPE@ == "text/javascript; charset=utf-8"@);
}

/// A content type that is set before finalization is still the content type
/// after it, whatever is attached and however it is sent.
pub proof fn preset_content_type_is_kept(resp: ResponseView, payload: JsonResponseView)
    requires
        resp.content_type is Some,
    ensures
        finalized(resp).content_type == resp.content_type,
        finalized(resp.attach(payload)).content_type == resp.content_type,
{
}

/// Where the attached value cannot be serialized, finalization leaves the
/// body and the content type as they were.
pub proof fn failed_serialization_changes_nothing(resp: ResponseView, payload: JsonResponseView)
    requires
        payload.value.text() is None,
    ensures
        finalized(resp.attach(payload)).body == resp.body,
        finalized(resp.attach(payload)).content_type == resp.content_type,
{
}

/// On the error path the response inside the error is finalized exactly as a
/// response on the success path is, and the error itself is carried through:
/// a value attached as plain JSON that serializes to `text` gives the body
/// `text`, and the content type `application/json` where none was set before.
pub proof fn error_path_formats_like_success<E>(
    error: E,
    resp: ResponseView,
    value: JsonValue,
    text: Seq<char>,
)
    requires
        value.text() == Some(text),
    ensures
        ({
            let attached = resp.attach(JsonResponseView::json(value));
            let out = caught(ResponseErrorView { error, response: attached });
            &&& out.error == error
            &&& out.response == finalized(attached)
            &&& out.response.body == Some(text)
            &&& resp.content_type is None ==> out.response.content_type == Some(
                "application/json"@,
            )
        }),
{
    assert(JSON_CONTENT_TYPE@ == "application/json"@);
}

/// Finalization takes the payload out of its slot, so finalizing a second
/// time changes nothing.
pub proof fn second_finalization_is_noop(resp: ResponseView)
    ensures
        finalized(resp).payload is None,
        finalized(finalized(resp)) == finalized(resp),
{
}

} // verus!
