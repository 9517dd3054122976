//! The error taxonomy of the client: every way a padding call can fail.

use vstd::prelude::*;

verus! {

/// Every way a padding call can fail, as a closed set of typed variants.
///
/// Lower-layer failures keep the diagnostic text of their cause; a
/// service-reported error keeps the two fields the service sent; any
/// well-formed JSON body of an unexpected shape becomes `UnknownResponse`
/// with a free-form description.
#[derive(Debug, PartialEq)]
pub enum PadError {
    /// A local I/O failure, for example while reading the response body.
    IoError(String),
    /// An HTTP or connection-layer failure.
    TransportError(String),
    /// The response body was not valid JSON.
    JsonError(String),
    /// The service itself reported an error, with both fields string-typed.
    ApiError { error_message: String, error_type: String },
    /// The body was valid JSON but matched no recognized shape.
    UnknownResponse(String),
}

/// The mathematical model of a [`PadError`]: the same five variants over
/// character sequences.
pub enum ErrorModel {
    Io(Seq<char>),
    Transport(Seq<char>),
    Json(Seq<char>),
    Api { message: Seq<char>, kind: Seq<char> },
    Unknown(Seq<char>),
}

impl View for PadError {
    type V = ErrorModel;

    open spec fn view(&self) -> ErrorModel {
        match self {
            PadError::IoError(d) => ErrorModel::Io(d@),
            PadError::TransportError(d) => ErrorModel::Transport(d@),
            PadError::JsonError(d) => ErrorModel::Json(d@),
            PadError::ApiError { error_message, error_type } => ErrorModel::Api {
                message: error_message@,
                kind: error_type@,
            },
            PadError::UnknownResponse(d) => ErrorModel::Unknown(d@),
        }
    }
}

/// The model of a whole call's result: the padded text on success, an
/// [`ErrorModel`] otherwise.
pub open spec fn result_model(r: Result<String, PadError>) -> Result<Seq<char>, ErrorModel> {
    match r {
        Ok(s) => Ok(s@),
        Err(e) => Err(e@),
    }
}

} // verus!
