//! Tests of the response envelope's fixed wire shape.

use portal_core::response::{
    PortalResponse, PORTAL_RESPONSE_CANCELLED, PORTAL_RESPONSE_OTHER, PORTAL_RESPONSE_SUCCESS,
};

#[test]
fn success_serializes_to_code_zero_and_payload() {
    let w = PortalResponse::Success(42u32).to_wire();
    assert_eq!(w.code, 0);
    assert_eq!(w.payload, Some(42u32));
}

#[test]
fn success_keeps_arbitrary_payloads() {
    let w = PortalResponse::Success(String::from("uri")).to_wire();
    assert_eq!(w.code, PORTAL_RESPONSE_SUCCESS);
    assert_eq!(w.payload, Some(String::from("uri")));

    let w = PortalResponse::Success((7u32, true)).to_wire();
    assert_eq!(w.code, 0);
    assert_eq!(w.payload, Some((7u32, true)));
}

#[test]
fn cancelled_serializes_to_code_one_and_empty_mapping() {
    let w = PortalResponse::<u32>::Cancelled.to_wire();
    assert_eq!(w.code, 1);
    assert_eq!(w.payload, None);
}

#[test]
fn other_serializes_to_code_two_and_empty_mapping() {
    let w = PortalResponse::<u32>::Other.to_wire();
    assert_eq!(w.code, 2);
    assert_eq!(w.payload, None);
}

#[test]
fn empty_payload_is_independent_of_the_payload_type() {
    let w = PortalResponse::<String>::Cancelled.to_wire();
    assert_eq!((w.code, w.payload), (PORTAL_RESPONSE_CANCELLED, None));
    let w = PortalResponse::<Vec<u8>>::Other.to_wire();
    assert_eq!((w.code, w.payload), (PORTAL_RESPONSE_OTHER, None));
}

#[test]
fn codes_are_fixed() {
    assert_eq!(PORTAL_RESPONSE_SUCCESS, 0);
    assert_eq!(PORTAL_RESPONSE_CANCELLED, 1);
    assert_eq!(PORTAL_RESPONSE_OTHER, 2);
    assert_eq!(PortalResponse::Success(0u32).code(), 0);
    assert_eq!(PortalResponse::<u32>::Cancelled.code(), 1);
    assert_eq!(PortalResponse::<u32>::Other.code(), 2);
}
