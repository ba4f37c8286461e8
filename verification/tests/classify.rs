//! The classifier/decoder: success, API error envelopes, and bodies that
//! are not valid JSON.

use up_api::v1::error::Error;
use up_api::v1::utilities::ping_response;
use up_api::v1::accounts::get_account_response;
use up_api::v1::tags::add_tags_response;
use up_api::v1::categories::categorise_transaction_response;

#[test]
fn success_with_well_formed_body_decodes_and_never_errs() {
    let body = "{\"meta\":{\"id\":\"cafebabe\",\"statusEmoji\":\"\u{26a1}\"}}";
    let r = ping_response(200, body).unwrap();
    assert_eq!(r.meta.id, "cafebabe");
    assert_eq!(r.meta.status_emoji, "\u{26a1}");
}

#[test]
fn unknown_fields_are_ignored() {
    let body = "{\"meta\":{\"id\":\"x\",\"statusEmoji\":\"ok\",\"extra\":42},\"more\":[1,2]}";
    let r = ping_response(200, body).unwrap();
    assert_eq!(r.meta.id, "x");
}

#[test]
fn not_found_with_error_envelope_is_an_api_error() {
    let body = "{\"errors\":[{\"status\":\"404\",\"title\":\"Not Found\",\
                \"detail\":\"The requested resource was not found.\",\"source\":null}]}";
    let r = get_account_response(404, body);
    match r {
        Err(Error::Api(envelope)) => {
            assert_eq!(envelope.errors.len(), 1);
            assert_eq!(envelope.errors[0].status, "404");
            assert_eq!(envelope.errors[0].title, "Not Found");
            assert_eq!(envelope.errors[0].detail, "The requested resource was not found.");
            assert!(envelope.errors[0].source.is_none());
        },
        _ => panic!("expected an Api error"),
    }
}

#[test]
fn error_envelope_with_source_parameter_is_decoded() {
    let body = "{\"errors\":[{\"status\":\"400\",\"title\":\"Invalid filter\",\
                \"detail\":\"bad value\",\"source\":{\"parameter\":\"filter[status]\"}}]}";
    let r = get_account_response(400, body);
    match r {
        Err(Error::Api(envelope)) => {
            let source = envelope.errors[0].source.as_ref().unwrap();
            assert_eq!(source.parameter.as_deref(), Some("filter[status]"));
            assert!(source.pointer.is_none());
        },
        _ => panic!("expected an Api error"),
    }
}

#[test]
fn invalid_json_on_success_path_is_a_decode_failure() {
    let r = ping_response(200, "this is not json");
    assert!(matches!(r, Err(Error::Json(_))));
}

#[test]
fn invalid_json_on_error_path_is_a_decode_failure() {
    let r = ping_response(500, "<html>Internal Server Error</html>");
    assert!(matches!(r, Err(Error::Json(_))));
}

#[test]
fn missing_required_field_is_a_decode_failure() {
    let body = "{\"meta\":{\"id\":\"x\"}}";
    let r = ping_response(200, body);
    assert!(matches!(r, Err(Error::Json(_))));
}

#[test]
fn wrongly_typed_field_is_a_decode_failure() {
    let body = "{\"meta\":{\"id\":7,\"statusEmoji\":\"ok\"}}";
    let r = ping_response(200, body);
    assert!(matches!(r, Err(Error::Json(_))));
}

#[test]
fn non_success_body_without_envelope_shape_is_a_decode_failure() {
    let body = "{\"message\":\"gone\"}";
    let r = ping_response(500, body);
    assert!(matches!(r, Err(Error::Json(_))));
}

#[test]
fn no_content_success_ignores_the_body() {
    let r = add_tags_response(204, "");
    assert!(r.is_ok());
    let r = categorise_transaction_response(204, "");
    assert!(r.is_ok());
}

#[test]
fn no_content_endpoint_classifies_error_statuses_by_their_body() {
    let body = "{\"errors\":[{\"status\":\"403\",\"title\":\"Forbidden\",\
                \"detail\":\"nope\",\"source\":null}]}";
    let r = add_tags_response(403, body);
    match r {
        Err(Error::Api(envelope)) => assert_eq!(envelope.errors[0].status, "403"),
        _ => panic!("expected an Api error"),
    }
    let r = categorise_transaction_response(500, "not json");
    assert!(matches!(r, Err(Error::Json(_))));
}

#[test]
fn an_api_error_describes_itself_with_title_and_detail() {
    let body = "{\"errors\":[{\"status\":\"404\",\"title\":\"Not Found\",\
                \"detail\":\"gone\",\"source\":null},\
                {\"status\":\"400\",\"title\":\"Bad\",\"detail\":\"oops\",\"source\":null}]}";
    let e = get_account_response(404, body).unwrap_err();
    assert_eq!(
        e.describe(),
        "The API returned an error response: Not Found: gone; Bad: oops"
    );
}

#[test]
fn a_decode_failure_describes_itself() {
    let e = ping_response(200, "{").unwrap_err();
    let text = e.describe();
    assert!(text.starts_with("Failed to deserialize the returned JSON to the correct format: "));
}

#[test]
fn a_wrong_success_status_on_a_created_endpoint_is_not_success() {
    // create_webhook succeeds only on 201; a 200 with a non-envelope body is
    // a decode failure, not a decoded value.
    let body = "{\"data\":{}}";
    let r = up_api::v1::webhooks::create_webhook_response(200, body);
    assert!(matches!(r, Err(Error::Json(_))));
}
