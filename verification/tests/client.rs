use pad_client::{decode_response, pad_string, request_url, JsonBody, JsonField, PadError};
use pad_client::interpret_body;

/// What a deterministic stand-in for the service sends back: an error
/// shape above the service's limit of 1024, the padded string otherwise.
fn mock_service_body(s: &str, c: char, len: u32) -> String {
    if len > 1024 {
        String::from("{\"errorMessage\":\"length too large\",\"errorType\":\"error\"}")
    } else {
        format!("{{\"str\":\"{}\"}}", pad_string(s, c, len as usize))
    }
}

#[test]
fn it_pads_a_string_left() {
    let body = mock_service_body("hello", ' ', 10);
    assert_eq!("     hello", decode_response(&body).unwrap());
}

#[test]
fn it_does_not_cut_string_of() {
    let body = mock_service_body("hello", ' ', 3);
    assert_eq!("hello", decode_response(&body).unwrap());
}

#[test]
fn it_does_not_work_with_numbers_above_1024() {
    let body = mock_service_body("hello", ' ', 1025);
    let result = decode_response(&body).unwrap_err();
    if let PadError::ApiError { .. } = result {
    } else {
        panic!("should have been an ApiError was: {:?}", result);
    }
}

#[test]
fn success_keeps_extra_fields_out() {
    let r = decode_response("{\"str\":\"ok\",\"other\":5}");
    assert_eq!(Ok(String::from("ok")), r);
}

#[test]
fn success_string_is_returned_verbatim() {
    let r = decode_response("{\"str\":\"hi\"}");
    assert_eq!(Ok(String::from("hi")), r);
}

#[test]
fn array_body_is_unknown_response() {
    let r = decode_response("[1,2,3]").unwrap_err();
    assert_eq!(
        PadError::UnknownResponse(String::from("The response from left-pad.io was not an object")),
        r
    );
}

#[test]
fn number_body_is_unknown_response() {
    let r = decode_response("42").unwrap_err();
    assert_eq!(
        PadError::UnknownResponse(String::from("The response from left-pad.io was not an object")),
        r
    );
}

#[test]
fn invalid_json_is_json_error() {
    let r = decode_response("{").unwrap_err();
    assert!(matches!(r, PadError::JsonError(_)));
}

#[test]
fn empty_body_is_json_error() {
    let r = decode_response("").unwrap_err();
    assert!(matches!(r, PadError::JsonError(_)));
}

#[test]
fn missing_str_is_unknown_response() {
    let r = decode_response("{\"foo\":1}").unwrap_err();
    assert_eq!(
        PadError::UnknownResponse(String::from("The response does not contain 'str'")),
        r
    );
}

#[test]
fn non_string_str_is_unknown_response() {
    let r = decode_response("{\"str\":5}").unwrap_err();
    assert_eq!(
        PadError::UnknownResponse(String::from("The returned 'str' parameter was not a string")),
        r
    );
}

#[test]
fn well_formed_error_is_api_error() {
    let r = decode_response("{\"errorMessage\":\"m\",\"errorType\":\"t\"}").unwrap_err();
    assert_eq!(
        PadError::ApiError { error_message: String::from("m"), error_type: String::from("t") },
        r
    );
}

#[test]
fn error_message_takes_precedence_over_str() {
    let r = decode_response("{\"errorMessage\":\"m\",\"errorType\":\"t\",\"str\":\"x\"}")
        .unwrap_err();
    assert!(matches!(r, PadError::ApiError { .. }));
}

#[test]
fn missing_error_type_is_unknown_response() {
    let r = decode_response("{\"errorMessage\":\"m\"}").unwrap_err();
    assert_eq!(
        PadError::UnknownResponse(String::from("{\"errorMessage\": \"m\"}")),
        r
    );
}

#[test]
fn non_string_error_type_is_unknown_response() {
    let r = decode_response("{\"errorMessage\":\"m\",\"errorType\":5}").unwrap_err();
    assert_eq!(
        PadError::UnknownResponse(String::from("{\"errorMessage\": \"m\", \"errorType\": U64(5)}")),
        r
    );
}

#[test]
fn non_string_error_message_is_unknown_response() {
    let r = decode_response("{\"errorMessage\":5,\"errorType\":\"t\"}").unwrap_err();
    assert_eq!(
        PadError::UnknownResponse(String::from("{\"errorMessage\": U64(5), \"errorType\": \"t\"}")),
        r
    );
}

#[test]
fn escaped_string_is_decoded() {
    let r = decode_response("{\"str\":\"a\\nb\"}");
    assert_eq!(Ok(String::from("a\nb")), r);
}

#[test]
fn interpret_body_reads_library_values() {
    let body = JsonBody::Object(vec![
        (String::from("str"), JsonField::Other(String::from("Null"))),
    ]);
    let r = interpret_body(&body).unwrap_err();
    assert_eq!(
        PadError::UnknownResponse(String::from("The returned 'str' parameter was not a string")),
        r
    );
}

#[test]
fn deeply_nested_body_is_json_error() {
    let body = "[".repeat(2001);
    let r = decode_response(&body).unwrap_err();
    assert_eq!(
        PadError::JsonError(String::from("The response nests JSON structures too deeply")),
        r
    );
}

#[test]
fn at_the_bracket_limit_the_parser_still_runs() {
    let body = "[".repeat(2000);
    let r = decode_response(&body).unwrap_err();
    match r {
        PadError::JsonError(d) => {
            assert_ne!("The response nests JSON structures too deeply", d);
        }
        other => panic!("should have been a JsonError was: {:?}", other),
    }
}

#[test]
fn brackets_inside_strings_count_toward_the_bound() {
    let shallow = format!("{{\"str\":\"{}\"}}", "[".repeat(100));
    assert_eq!(Ok("[".repeat(100)), decode_response(&shallow));
    let deep = format!("{{\"str\":\"{}\"}}", "[".repeat(2000));
    let r = decode_response(&deep).unwrap_err();
    assert_eq!(
        PadError::JsonError(String::from("The response nests JSON structures too deeply")),
        r
    );
}

#[test]
fn repeated_decoding_is_identical() {
    let body = mock_service_body("hello", ' ', 10);
    assert_eq!(decode_response(&body), decode_response(&body));
    let bad = "{\"errorMessage\":\"m\"}";
    assert_eq!(decode_response(bad), decode_response(bad));
}

#[test]
fn repeated_url_is_identical() {
    assert_eq!(request_url("a b", "-", 7), request_url("a b", "-", 7));
}
