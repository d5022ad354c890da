use jni_utils::FaultPayload;
use jni_utils::any_to_string;

#[test]
fn error_payload_uses_its_description() {
    let fault = FaultPayload::Error(String::from("index out of bounds"));
    assert_eq!(any_to_string(&fault), "index out of bounds");
}

#[test]
fn string_payload_is_used_verbatim() {
    let fault = FaultPayload::Message(String::from("boom"));
    assert_eq!(any_to_string(&fault), "boom");
}

#[test]
fn unrecognized_payload_gets_the_generic_message() {
    let fault = FaultPayload::Unknown;
    assert_eq!(any_to_string(&fault), "Unknown error occurred");
}

#[test]
fn empty_message_stays_empty() {
    let fault = FaultPayload::Message(String::new());
    assert_eq!(any_to_string(&fault), "");
}
