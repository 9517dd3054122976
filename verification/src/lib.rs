//! Client-side logic for a remote left-padding service.
//!
//! The library builds the request URL for a padding call, decodes the JSON
//! body that the service sends back, and classifies every failure into a
//! typed error. The network transport itself lives outside the library.

pub mod errors;
pub mod json;
pub mod padding;
pub mod request;
pub mod response;
pub mod text;

pub use errors::PadError;
pub use json::{JsonBody, JsonField};
pub use padding::pad_string;
pub use request::request_url;
pub use response::{decode_response, interpret_body};
