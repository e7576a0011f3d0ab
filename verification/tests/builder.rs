//! Building requests from wire texts.

use baubot::types::{BauMessage, SerializeError};

#[test]
fn successful_conversion() {
    let message = BauMessage::builder(
        r#"{
    "sender": "sender",
    "recipients": [
        "recipient"
    ],
    "message": "hello world",
    "responses": {
        "timeout": 5000,
        "keyboard": [
            [
                "hi",
                "bye"
            ],
            [ "fuck off" ]
        ]
    }
}"#,
    )
    .unwrap();

    println!("{message:#?}");
    assert_eq!(message.sender, "sender");
    assert_eq!(message.responses.keyboard.len(), 2);
}

#[test]
fn missing_responses() {
    let message = BauMessage::builder(
        r#"{
    "sender": "sender",
    "recipients": [
        "recipient"
    ],
    "message": "hello world"
}"#,
    )
    .unwrap();

    println!("{message:#?}");
    assert_eq!(message.sender, "sender");
    assert_eq!(message.responses.keyboard.len(), 0);
}

#[test]
fn invalid_responses() {
    let message = BauMessage::builder(
        r#"{
    "sender": "sender",
    "recipients": [
        "recipient"
    ],
    "message": "hello world",
    "responses": "boo"
}"#,
    );

    if let Err(err) = &message {
        println!("{err:#?}")
    }
    assert!(message.is_err());
}

#[test]
fn missing_sender() {
    let message = BauMessage::builder(
        r#"{
    "recipients": [
        "recipient"
    ],
    "message": "hello world",
    "responses": {
        "timeout": 5000,
        "keyboard": [
            [
                "hi",
                "bye"
            ],
            [ "fuck off" ]
        ]
    }
}"#,
    );

    if let Err(err) = &message {
        println!("{err:#?}")
    }
    assert!(message.is_err());
}

#[test]
fn invalid_recipients() {
    let message = BauMessage::builder(
        r#"{
    "sender": "sender",
    "recipients": "recipient",
    "message": "hello world",
    "responses": {
        "timeout": 5000,
        "keyboard": [
            [
                "hi",
                "bye"
            ],
            [ "fuck off" ]
        ]
    }
}"#,
    );

    if let Err(err) = &message {
        println!("{err:#?}")
    }
    assert!(message.is_err());
}

#[test]
fn builder_reads_all_fields() {
    let message = BauMessage::builder(
        r#"{"sender":"s","recipients":["a","b"],"message":"m","responses":{"timeout":250,"keyboard":[["yes","no"]]}}"#,
    )
    .unwrap();
    assert_eq!(message.sender, "s");
    assert_eq!(message.message, "m");
    assert_eq!(message.recipients.len(), 2);
    assert_eq!(message.recipients[0], ("a".to_string(), true));
    assert_eq!(message.recipients[1], ("b".to_string(), true));
    assert_eq!(message.responses.timeout, 250);
    assert_eq!(
        message.responses.keyboard,
        vec![vec!["yes".to_string(), "no".to_string()]]
    );
}

#[test]
fn missing_sender_names_the_field() {
    let err = BauMessage::builder(r#"{"recipients":[],"message":"m"}"#).unwrap_err();
    assert!(matches!(err, SerializeError::InvalidField(f) if f == "sender"));
}

#[test]
fn missing_recipients_names_the_field() {
    let err = BauMessage::builder(r#"{"sender":"s","message":"m"}"#).unwrap_err();
    assert!(matches!(err, SerializeError::InvalidField(f) if f == "recipients"));
}

#[test]
fn missing_message_names_the_field() {
    let err = BauMessage::builder(r#"{"sender":"s","recipients":[]}"#).unwrap_err();
    assert!(matches!(err, SerializeError::InvalidField(f) if f == "message"));
}

#[test]
fn wrong_sender_type_is_invalid_json() {
    let err = BauMessage::builder(r#"{"sender":5,"recipients":[],"message":"m"}"#).unwrap_err();
    assert!(matches!(err, SerializeError::InvalidJson(t) if t == "invalid field: sender"));
}

#[test]
fn unparsable_text_is_invalid_json() {
    let err = BauMessage::builder("not json at all").unwrap_err();
    assert!(matches!(err, SerializeError::InvalidJson(_)));
}

#[test]
fn fractional_timeout_is_rejected() {
    let err = BauMessage::builder(
        r#"{"sender":"s","recipients":[],"message":"m","responses":{"timeout":5.5,"keyboard":[]}}"#,
    )
    .unwrap_err();
    assert!(matches!(err, SerializeError::InvalidJson(t) if t == "invalid field: responses"));
}

#[test]
fn builder_decodes_escaped_strings() {
    let message =
        BauMessage::builder(r#"{"sender":"a\"b","recipients":["r"],"message":"line\nbreak"}"#)
            .unwrap();
    assert_eq!(message.sender, "a\"b");
    assert_eq!(message.message, "line\nbreak");
}

#[test]
fn top_level_non_object_reports_sender_missing() {
    let err = BauMessage::builder(r#""just a string""#).unwrap_err();
    assert!(matches!(err, SerializeError::InvalidField(f) if f == "sender"));
}
