use rest_gateway::message_bus::BusError;
use rest_gateway::rest_error::error_response;
use rest_gateway::rest_error::unit_response;
use rest_gateway::rest_error::JsonBody;
use rest_gateway::rest_error::RestError;

#[test]
fn not_found_maps_to_no_content_with_an_empty_body() {
    let r = error_response(BusError::NotFound);
    assert_eq!(r.status, 204);
    assert!(matches!(r.body, JsonBody::Empty));
}

#[test]
fn not_unique_maps_to_internal_server_error() {
    let r = error_response(BusError::NotUnique);
    assert_eq!(r.status, 500);
    match r.body {
        JsonBody::Error { error, message } => {
            assert_eq!(error, "NotUnique");
            assert_eq!(message, "NotUnique");
        }
        _ => panic!("expected a structured error body"),
    }
}

#[test]
fn bus_failures_carry_the_source_kind_and_the_causal_chain() {
    let r = error_response(BusError::MessageBus {
        source: "RequestTimeout".to_string(),
        message: "request timed out: no reply within the deadline".to_string(),
    });
    assert_eq!(r.status, 500);
    match r.body {
        JsonBody::Error { error, message } => {
            assert_eq!(error, "RequestTimeout");
            assert_eq!(message, "request timed out: no reply within the deadline");
        }
        _ => panic!("expected a structured error body"),
    }
}

#[test]
fn wrapping_a_bus_error_records_its_description() {
    let e = RestError::from_bus(BusError::NotFound);
    assert!(matches!(e.kind, BusError::NotFound));
    assert_eq!(e.message, "NotFound");

    let e = RestError::from_bus(BusError::NotUnique);
    assert_eq!(e.message, "NotUnique");

    let e = RestError::from_bus(BusError::MessageBus {
        source: "Io".to_string(),
        message: "connection reset by peer".to_string(),
    });
    assert_eq!(e.message, "connection reset by peer");
}

#[test]
fn successful_deletions_answer_ok_with_an_empty_body() {
    let r = unit_response(Ok(()));
    assert_eq!(r.status, 200);
    assert!(matches!(r.body, JsonBody::Empty));
}

#[test]
fn failed_deletions_are_translated_like_any_error() {
    let r = unit_response(Err(BusError::NotFound));
    assert_eq!(r.status, 204);
    assert!(matches!(r.body, JsonBody::Empty));

    let r = unit_response(Err(BusError::NotUnique));
    assert_eq!(r.status, 500);
    assert!(matches!(r.body, JsonBody::Error { .. }));
}
