//! JSON and JSONP response formatting for a request pipeline.
//!
//! A handler attaches a [`JsonResponse`] to a [`Response`]; after the handlers
//! have run, [`JsonResponseMiddleware`] takes the payload out again, serializes
//! it and writes the body and, unless one is already set, the content type.

pub mod laws;
pub mod middleware;
pub mod payload;
pub mod response;
pub mod value;

pub use middleware::{JsonResponseMiddleware, JSONP_CONTENT_TYPE, JSON_CONTENT_TYPE};
pub use payload::{JsonResponse, JsonResponseView};
pub use response::{Response, ResponseError, ResponseErrorView, ResponseView};
pub use value::{JsonValue, SerializationError};
