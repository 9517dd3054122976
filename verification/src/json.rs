//! The parsed response body, modelled to the depth the client reads it:
//! whether the top level is an object, and for each field whether its
//! value is a JSON string. Any other value is carried as rendered text,
//! which only diagnostics use.

use vstd::prelude::*;
use vstd::string::StringSliceAdditionalSpecFns;
use rustc_serialize::json::Json;

verus! {

/// The parser builds one nesting level for each opening bracket, by
/// recursion, so a body with too many could exhaust the call stack.
/// Bodies over this bound are refused before parsing. The bound stands
/// far above anything the service can send (it caps the padded length
/// at 1024) and far below a stack's worth of parser frames.
pub const MAX_OPEN_BRACKETS: usize = 2000;

/// The number of opening brackets (`[` and `{`) among the first `i`
/// bytes.
pub open spec fn open_brackets_prefix(bs: Seq<u8>, i: int) -> int
    decreases i,
{
    if i <= 0 {
        0
    } else {
        open_brackets_prefix(bs, i - 1) + if bs[i - 1] == 91 || bs[i - 1] == 123 {
            1int
        } else {
            0int
        }
    }
}

/// The number of opening brackets (`[` and `{`) among the bytes of a
/// text. Every nesting level of a JSON value takes one, so this bounds
/// the depth of any parse; brackets inside strings count too, which
/// only makes the bound more cautious.
pub open spec fn open_brackets(bs: Seq<u8>) -> int {
    open_brackets_prefix(bs, bs.len() as int)
}

/// Whether a body is shallow enough to hand to the JSON parser.
pub fn nesting_within_limit(body: &str) -> (r: bool)
    ensures
        r == (open_brackets(body.spec_bytes()) <= MAX_OPEN_BRACKETS as int),
{
    let bs = body.as_bytes();
    let n = bs.len();
    let mut count: usize = 0;
    for i in 0..n
        invariant
            n == bs@.len(),
            bs@ == body.spec_bytes(),
            count == open_brackets_prefix(bs@, i as int),
            count <= i,
    {
        if bs[i] == 91 || bs[i] == 123 {
            count = count + 1;
        }
    }
    count <= MAX_OPEN_BRACKETS
}

/// One field value of the top-level response object: a JSON string, or
/// any other JSON value as the parser's rendered text.
pub enum JsonField {
    Text(String),
    Other(String),
}

/// The mathematical model of a [`JsonField`].
pub enum FieldModel {
    Text(Seq<char>),
    Other(Seq<char>),
}

impl View for JsonField {
    type V = FieldModel;

    open spec fn view(&self) -> FieldModel {
        match self {
            JsonField::Text(s) => FieldModel::Text(s@),
            JsonField::Other(t) => FieldModel::Other(t@),
        }
    }
}

/// The model of an object's field list: each key and value viewed.
pub open spec fn fields_model(fields: Seq<(String, JsonField)>) -> Seq<(Seq<char>, FieldModel)> {
    fields.map_values(|p: (String, JsonField)| (p.0@, p.1@))
}

/// A parsed response body: the top-level object's fields in ascending
/// key order, or, for valid JSON of any other kind, its rendered text.
pub enum JsonBody {
    Object(Vec<(String, JsonField)>),
    NonObject(String),
}

/// The mathematical model of a [`JsonBody`].
pub enum BodyModel {
    Object(Seq<(Seq<char>, FieldModel)>),
    NonObject(Seq<char>),
}

impl View for JsonBody {
    type V = BodyModel;

    open spec fn view(&self) -> BodyModel {
        match self {
            JsonBody::Object(fields) => BodyModel::Object(fields_model(fields@)),
            JsonBody::NonObject(t) => BodyModel::NonObject(t@),
        }
    }
}

/// What the JSON parser makes of a body. The parse reads the text alone,
/// so its outcome bears a name that the contracts below share.
pub uninterp spec fn parsed_body(s: Seq<char>) -> Result<BodyModel, Seq<char>>;

/// Relies on `rustc_serialize::json::Json::from_str`: parses the text as
/// JSON, reading nothing but the text itself; a parse error's rendering
/// is likewise a function of the text. An object's fields come out of
/// the parser's `BTreeMap` in ascending key order. The tree builder
/// recurses once per nesting level and each level takes one opening
/// bracket, so under the required bound the call cannot exhaust the
/// stack.
#[verifier::external_body]
pub(crate) fn parse_body(body: &str) -> (r: Result<JsonBody, String>)
    requires
        open_brackets(body.spec_bytes()) <= MAX_OPEN_BRACKETS as int,
    ensures
        match r {
            Ok(b) => parsed_body(body@) == Ok::<BodyModel, Seq<char>>(b@),
            Err(e) => parsed_body(body@) == Err::<BodyModel, Seq<char>>(e@),
        },
{
    match Json::from_str(body) {
        Err(e) => Err(format!("{:?}", e)),
        Ok(Json::Object(obj)) => Ok(JsonBody::Object(
            obj.into_iter()
                .map(|(k, v)| match v {
                    Json::String(s) => (k, JsonField::Text(s)),
                    other => (k, JsonField::Other(format!("{:?}", other))),
                })
                .collect(),
        )),
        Ok(other) => Ok(JsonBody::NonObject(format!("{:?}", other))),
    }
}

} // verus!
