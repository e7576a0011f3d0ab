//! The wire protocol: encoders, the gateway decode step, and the client.

use baubot::client::{retry_after_failure, validate_request, BauClient};
use baubot::response::reader_step;
use baubot::server::{decode_request, recipient_response};
use baubot::types::{
    BauBotError, BauMessage, BauServerResponse, RequestedResponses, SendError, SerializeError,
};
use std::str::FromStr;

fn sample_message() -> BauMessage {
    BauMessage {
        sender: "sender".to_string(),
        recipients: vec![("alice".to_string(), true), ("bob".to_string(), false)],
        message: "hello world".to_string(),
        responses: RequestedResponses {
            timeout: 5000,
            keyboard: vec![
                vec!["approve".to_string(), "deny".to_string()],
                vec!["later".to_string()],
            ],
        },
    }
}

#[test]
fn encode_request_exact_text() {
    let text = sample_message().encode();
    assert_eq!(
        text,
        r#"{"sender":"sender","recipients":["alice","bob"],"message":"hello world","responses":{"timeout":5000,"keyboard":[["approve","deny"],["later"]]}}"#
    );
}

#[test]
fn encode_request_escapes_strings() {
    let mut m = sample_message();
    m.sender = "a\"b\\c".to_string();
    m.message = "line\nbreak\ttab\u{1}".to_string();
    let text = m.encode();
    assert!(text.starts_with(r#"{"sender":"a\"b\\c""#));
    assert!(text.contains(r#""message":"line\nbreak\ttab\u0001""#));
}

#[test]
fn encoded_request_parses_back() {
    // Drives the outside parser over the verified encoder's output: the
    // request survives the trip, with every recipient flagged.
    let m = sample_message();
    let back = BauMessage::builder(&m.encode()).unwrap();
    assert_eq!(back.sender, m.sender);
    assert_eq!(back.message, m.message);
    assert_eq!(
        back.recipients,
        vec![("alice".to_string(), true), ("bob".to_string(), true)]
    );
    assert_eq!(back.responses.timeout, 5000);
    assert_eq!(back.responses.keyboard, m.responses.keyboard);
}

#[test]
fn encode_response_exact_texts() {
    let ok = BauServerResponse::Recipient {
        recipient: "alice".to_string(),
        response: Ok("approve".to_string()),
    };
    assert_eq!(
        ok.encode(),
        r#"{"type":"Recipient","recipient":"alice","response":{"Ok":"approve"}}"#
    );
    let timeout = BauServerResponse::Recipient {
        recipient: "bob".to_string(),
        response: Err(BauBotError::Timeout),
    };
    assert_eq!(
        timeout.encode(),
        r#"{"type":"Recipient","recipient":"bob","response":{"Err":{"type":"Timeout"}}}"#
    );
    let unreachable = BauServerResponse::Recipient {
        recipient: "bob".to_string(),
        response: Err(BauBotError::Uncontactable),
    };
    assert_eq!(
        unreachable.encode(),
        r#"{"type":"Recipient","recipient":"bob","response":{"Err":{"type":"Uncontactable"}}}"#
    );
    let invalid = BauServerResponse::InvalidData(SerializeError::InvalidField("sender".to_string()));
    assert_eq!(
        invalid.encode(),
        r#"{"type":"InvalidData","kind":"InvalidField","detail":"sender"}"#
    );
}

#[test]
fn encoded_response_reads_back() {
    // The client's reader decodes what the gateway's encoder wrote.
    let sent = BauServerResponse::Recipient {
        recipient: "alice".to_string(),
        response: Ok("approve".to_string()),
    };
    match reader_step(&sent.encode()) {
        Some(BauServerResponse::Recipient { recipient, response }) => {
            assert_eq!(recipient, "alice");
            assert_eq!(response, Ok("approve".to_string()));
        }
        other => panic!("unexpected decode: {other:?}"),
    }
    let sent = BauServerResponse::InvalidData(SerializeError::InvalidJson("bad".to_string()));
    match reader_step(&sent.encode()) {
        Some(BauServerResponse::InvalidData(SerializeError::InvalidJson(t))) => {
            assert_eq!(t, "bad");
        }
        other => panic!("unexpected decode: {other:?}"),
    }
}

#[test]
fn reader_stops_on_empty_or_undecodable_payloads() {
    assert!(reader_step("").is_none());
    assert!(reader_step("not json").is_none());
    assert!(reader_step(r#"{"type":"Unknown"}"#).is_none());
}

#[test]
fn malformed_request_yields_single_invalid_data_reply() {
    // The gateway answers a malformed request with one InvalidData response
    // and no dispatch.
    let reply = decode_request("this is not json").unwrap_err();
    match reader_step(&reply) {
        Some(BauServerResponse::InvalidData(SerializeError::InvalidJson(_))) => {}
        other => panic!("unexpected reply: {other:?}"),
    }
    let reply = decode_request(r#"{"recipients":[],"message":"m"}"#).unwrap_err();
    match reader_step(&reply) {
        Some(BauServerResponse::InvalidData(SerializeError::InvalidField(f))) => {
            assert_eq!(f, "sender");
        }
        other => panic!("unexpected reply: {other:?}"),
    }
}

#[test]
fn well_formed_request_is_dispatched() {
    let m = decode_request(r#"{"sender":"s","recipients":["r"],"message":"m"}"#).unwrap();
    assert_eq!(m.sender, "s");
    assert_eq!(m.recipients, vec![("r".to_string(), true)]);
}

#[test]
fn awaiting_recipients_follow_the_prompt() {
    let m = sample_message();
    assert_eq!(m.awaiting_recipients(), vec!["alice".to_string()]);
    let mut no_prompt = sample_message();
    no_prompt.responses.keyboard.clear();
    assert_eq!(no_prompt.awaiting_recipients(), Vec::<String>::new());
}

#[test]
fn abandoned_slot_reports_timeout() {
    let r = recipient_response("alice".to_string(), None);
    assert_eq!(
        r.encode(),
        r#"{"type":"Recipient","recipient":"alice","response":{"Err":{"type":"Timeout"}}}"#
    );
    let r = recipient_response("alice".to_string(), Some(Ok("yes".to_string())));
    assert_eq!(
        r.encode(),
        r#"{"type":"Recipient","recipient":"alice","response":{"Ok":"yes"}}"#
    );
}

#[test]
fn validate_rejects_what_cannot_be_sent() {
    assert!(validate_request(r#"{"sender":"s","recipients":["r"],"message":"m"}"#).is_ok());
    match validate_request("nope") {
        Err(SendError::InvalidData(SerializeError::InvalidJson(_))) => {}
        other => panic!("unexpected: {other:?}"),
    }
    match validate_request(r#"{"sender":"s","message":"m"}"#) {
        Err(SendError::InvalidData(SerializeError::InvalidField(f))) => {
            assert_eq!(f, "recipients");
        }
        other => panic!("unexpected: {other:?}"),
    }
}

#[test]
fn retry_budget_counts_down_to_the_final_error() {
    let addr = core::net::SocketAddr::from_str("127.0.0.1:5000").unwrap();
    let client: BauClient<3> = BauClient::new(addr);
    assert_eq!(*client.addr(), addr);
    let mut attempts = client.retry_budget();
    let mut tries: usize = 1;
    while retry_after_failure(&mut attempts) {
        tries += 1;
    }
    // One initial attempt plus the configured retries.
    assert_eq!(tries, 4);
    assert_eq!(attempts, 0);
}

#[test]
fn serde_json_agrees_with_the_encoders() {
    // Cross-checks the canonical rendering against the outside serializer's
    // own reading of it.
    let v: serde_json::Value = serde_json::from_str(&sample_message().encode()).unwrap();
    assert_eq!(v["sender"].as_str(), Some("sender"));
    assert_eq!(v["responses"]["timeout"].as_u64(), Some(5000));
    assert_eq!(v["responses"]["keyboard"][0][1].as_str(), Some("deny"));
}
