//! Interpreting a response body: the service-error shape is looked for
//! first, then the success shape, and everything else becomes the
//! catch-all `UnknownResponse`.

use vstd::prelude::*;
use vstd::string::StringExecFns;
use crate::errors::{ErrorModel, PadError, result_model};
use vstd::utf8::encode_utf8;
use crate::json::{BodyModel, FieldModel, JsonBody, JsonField, MAX_OPEN_BRACKETS, fields_model,
    nesting_within_limit, open_brackets, parse_body, parsed_body};
use crate::request::url_of;
use crate::text::str_eq;

verus! {

/// The value under `key` among `fields`, at its first occurrence (the
/// keys of a parsed object are distinct anyway).
pub open spec fn lookup(fields: Seq<(Seq<char>, FieldModel)>, key: Seq<char>) -> Option<
    FieldModel,
>
    decreases fields.len(),
{
    if fields.len() == 0 {
        None
    } else if fields[0].0 == key {
        Some(fields[0].1)
    } else {
        lookup(fields.drop_first(), key)
    }
}

/// The diagnostic text of one field value: a string quoted, anything
/// else as the parser rendered it.
pub open spec fn field_text(f: FieldModel) -> Seq<char> {
    match f {
        FieldModel::Text(s) => "\""@ + s + "\""@,
        FieldModel::Other(t) => t,
    }
}

/// The diagnostic text of one field: the quoted key, then the value.
pub open spec fn entry_text(e: (Seq<char>, FieldModel)) -> Seq<char> {
    "\""@ + e.0 + "\": "@ + field_text(e.1)
}

/// The diagnostic text of the first `i` fields, comma-separated.
pub open spec fn entries_prefix(fields: Seq<(Seq<char>, FieldModel)>, i: int) -> Seq<char>
    decreases i,
{
    if i <= 0 {
        Seq::empty()
    } else if i == 1 {
        entry_text(fields[0])
    } else {
        entries_prefix(fields, i - 1) + ", "@ + entry_text(fields[i - 1])
    }
}

/// The diagnostic rendering of an unexpected object: braces around its
/// comma-separated fields.
pub open spec fn rendered(fields: Seq<(Seq<char>, FieldModel)>) -> Seq<char> {
    "{"@ + entries_prefix(fields, fields.len() as int) + "}"@
}

/// The service-error interpretation of an object that carries
/// `errorMessage`: both fields present and string-typed give an `Api`
/// error; any other shape falls back to the rendered object.
pub open spec fn error_outcome(fields: Seq<(Seq<char>, FieldModel)>) -> ErrorModel {
    match (lookup(fields, "errorMessage"@), lookup(fields, "errorType"@)) {
        (Some(FieldModel::Text(m)), Some(FieldModel::Text(t))) => ErrorModel::Api {
            message: m,
            kind: t,
        },
        _ => ErrorModel::Unknown(rendered(fields)),
    }
}

/// How the client interprets a parsed body: a non-object is unknown; an
/// object with `errorMessage` is a service error; otherwise the `str`
/// field must be present and a string, and is the result.
pub open spec fn outcome(b: BodyModel) -> Result<Seq<char>, ErrorModel> {
    match b {
        BodyModel::NonObject(_) => Err(
            ErrorModel::Unknown("The response from left-pad.io was not an object"@),
        ),
        BodyModel::Object(fields) => if lookup(fields, "errorMessage"@) is Some {
            Err(error_outcome(fields))
        } else {
            match lookup(fields, "str"@) {
                None => Err(ErrorModel::Unknown("The response does not contain 'str'"@)),
                Some(FieldModel::Text(s)) => Ok(s),
                Some(FieldModel::Other(_)) => Err(
                    ErrorModel::Unknown("The returned 'str' parameter was not a string"@),
                ),
            }
        },
    }
}

/// The full decoding of a response body: a body nested too deeply for
/// the parser is refused outright, other text the parser refuses becomes
/// a `Json` error, and a parsed body goes to [`outcome`].
pub open spec fn decoded(body: Seq<char>) -> Result<Seq<char>, ErrorModel> {
    if open_brackets(encode_utf8(body)) > MAX_OPEN_BRACKETS as int {
        Err(ErrorModel::Json("The response nests JSON structures too deeply"@))
    } else {
        match parsed_body(body) {
            Ok(b) => outcome(b),
            Err(e) => Err(ErrorModel::Json(e)),
        }
    }
}

fn find_field<'a>(fields: &'a Vec<(String, JsonField)>, key: &str) -> (r: Option<&'a JsonField>)
    ensures
        match r {
            Some(f) => lookup(fields_model(fields@), key@) == Some(f@),
            None => lookup(fields_model(fields@), key@) == None::<FieldModel>,
        },
{
    let ghost m = fields_model(fields@);
    proof {
        assert(m.skip(0) =~= m);
    }
    let n = fields.len();
    for i in 0..n
        invariant
            n == fields.len(),
            m == fields_model(fields@),
            lookup(m, key@) == lookup(m.skip(i as int), key@),
    {
        if str_eq(fields[i].0.as_str(), key) {
            return Some(&fields[i].1);
        }
        proof {
            assert(m.skip(i as int).drop_first() =~= m.skip(i + 1));
        }
    }
    proof {
        assert(m.skip(n as int) =~= Seq::empty());
    }
    None
}

fn render_object(fields: &Vec<(String, JsonField)>) -> (r: String)
    ensures
        r@ == rendered(fields_model(fields@)),
{
    let ghost m = fields_model(fields@);
    let mut out = String::new();
    out.append("{");
    let n = fields.len();
    for i in 0..n
        invariant
            n == fields.len(),
            m == fields_model(fields@),
            out@ == "{"@ + entries_prefix(m, i as int),
    {
        if i > 0 {
            out.append(", ");
        }
        out.append("\"");
        out.append(fields[i].0.as_str());
        out.append("\": ");
        match &fields[i].1 {
            JsonField::Text(s) => {
                out.append("\"");
                out.append(s.as_str());
                out.append("\"");
            },
            JsonField::Other(t) => {
                out.append(t.as_str());
            },
        }
        proof {
            assert(out@ =~= "{"@ + entries_prefix(m, i + 1));
        }
    }
    out.append("}");
    proof {
        assert(out@ =~= rendered(m));
    }
    out
}

fn error_response(fields: &Vec<(String, JsonField)>) -> (e: PadError)
    ensures
        e@ == error_outcome(fields_model(fields@)),
{
    let message = find_field(fields, "errorMessage");
    let kind = find_field(fields, "errorType");
    match (message, kind) {
        (Some(JsonField::Text(m)), Some(JsonField::Text(t))) => PadError::ApiError {
            error_message: m.clone(),
            error_type: t.clone(),
        },
        _ => PadError::UnknownResponse(render_object(fields)),
    }
}

/// Interprets one parsed body, exactly as [`outcome`] states.
pub fn interpret_body(body: &JsonBody) -> (r: Result<String, PadError>)
    ensures
        result_model(r) == outcome(body@),
{
    match body {
        JsonBody::NonObject(_) => Err(
            PadError::UnknownResponse("The response from left-pad.io was not an object".to_owned()),
        ),
        JsonBody::Object(fields) => {
            if find_field(fields, "errorMessage").is_some() {
                Err(error_response(fields))
            } else {
                match find_field(fields, "str") {
                    None => Err(
                        PadError::UnknownResponse("The response does not contain 'str'".to_owned()),
                    ),
                    Some(JsonField::Text(s)) => Ok(s.clone()),
                    Some(JsonField::Other(_)) => Err(
                        PadError::UnknownResponse(
                            "The returned 'str' parameter was not a string".to_owned(),
                        ),
                    ),
                }
            }
        },
    }
}

/// Decodes one response body, exactly as [`decoded`] states.
pub fn decode_response(body: &str) -> (r: Result<String, PadError>)
    ensures
        result_model(r) == decoded(body@),
{
    if !nesting_within_limit(body) {
        return Err(
            PadError::JsonError("The response nests JSON structures too deeply".to_owned()),
        );
    }
    match parse_body(body) {
        Ok(b) => interpret_body(&b),
        Err(e) => Err(PadError::JsonError(e)),
    }
}

/// Interpretation succeeds exactly when the body is an object without
/// `errorMessage` whose `str` field is present and a string; every
/// other body yields an error.
pub proof fn lemma_success_shape(b: BodyModel)
    ensures
        outcome(b) is Ok <==> match b {
            BodyModel::Object(fields) => lookup(fields, "errorMessage"@) is None && lookup(
                fields,
                "str"@,
            ) matches Some(FieldModel::Text(_)),
            BodyModel::NonObject(_) => false,
        },
{
}

/// A body that is valid JSON but not an object always yields the
/// catch-all unknown-response outcome, never a success and never a
/// service error.
pub proof fn lemma_non_object_is_unknown(t: Seq<char>)
    ensures
        outcome(BodyModel::NonObject(t)) == Err::<Seq<char>, ErrorModel>(
            ErrorModel::Unknown("The response from left-pad.io was not an object"@),
        ),
{
}

/// An object that carries `errorMessage` but lacks `errorType`, or whose
/// `errorType` is not a string, yields the catch-all unknown-response
/// outcome, never an `Api` error: the two failure shapes are never
/// conflated.
pub proof fn lemma_malformed_error_is_unknown(fields: Seq<(Seq<char>, FieldModel)>)
    requires
        lookup(fields, "errorMessage"@) is Some,
        match lookup(fields, "errorType"@) {
            Some(FieldModel::Text(_)) => false,
            _ => true,
        },
    ensures
        outcome(BodyModel::Object(fields)) == Err::<Seq<char>, ErrorModel>(
            ErrorModel::Unknown(rendered(fields)),
        ),
{
}

/// The client keeps no state: the URL it sends and the result it decodes
/// are functions of the call's inputs alone, so a repeated call with the
/// same parameters and the same response body yields the same outcome.
pub proof fn lemma_client_stateless(
    s1: Seq<char>,
    c1: Seq<char>,
    n1: u32,
    b1: Seq<char>,
    s2: Seq<char>,
    c2: Seq<char>,
    n2: u32,
    b2: Seq<char>,
)
    requires
        s1 == s2,
        c1 == c2,
        n1 == n2,
        b1 == b2,
    ensures
        url_of(s1, c1, n1) == url_of(s2, c2, n2),
        decoded(b1) == decoded(b2),
{
}

} // verus!
