use link_with_mentor::fcm::{NotificationType, fcm_message_json, oauth_claims, oauth_claims_json, token_request_form};
use link_with_mentor::server::{StreamEvent, ConnectionAction, connection_step, handle_stream_unit};

#[test]
fn standard_message_has_no_data_object() {
    let body = fcm_message_json("tok", "Title", "Body", &NotificationType::Standard);
    assert_eq!(
        body,
        "{\"message\":{\"token\":\"tok\",\"notification\":{\"title\":\"Title\",\"body\":\"Body\"}}}"
    );
}

#[test]
fn chat_message_carries_its_data_entries() {
    let nt = NotificationType::Chat { sender_id: "s9".to_string(), chat_id: "c7".to_string() };
    let body = fcm_message_json("tok", "T", "B", &nt);
    assert_eq!(
        body,
        "{\"message\":{\"token\":\"tok\",\"notification\":{\"title\":\"T\",\"body\":\"B\"},\"data\":{\"type\":\"chat\",\"sender_id\":\"s9\",\"chat_id\":\"c7\"}}}"
    );
}

#[test]
fn call_message_writes_the_video_flag_as_text() {
    let nt = NotificationType::Call {
        caller_id: "u1".to_string(),
        call_id: "k1".to_string(),
        is_video: true,
    };
    let body = fcm_message_json("tok", "T", "B", &nt);
    assert!(body.contains("\"is_video\":\"true\""));
}

#[test]
fn message_text_is_escaped() {
    let body = fcm_message_json("tok", "He said \"hi\"", "line\nbreak\\done", &NotificationType::Standard);
    assert!(body.contains("\"title\":\"He said \\\"hi\\\"\""));
    assert!(body.contains("\"body\":\"line\\nbreak\\\\done\""));

    let control = fcm_message_json("tok", "\u{1}", "b", &NotificationType::Standard);
    assert!(control.contains("\"title\":\"\\u0001\""));
}

#[test]
fn stream_units_get_the_fixed_reply() {
    let reply = handle_stream_unit(&vec![1, 2, 3]);
    assert_eq!(reply, b"Hello from LinkWithMentor HTTP/3 (Raw QUIC)".to_vec());

    match connection_step(&StreamEvent::Data(vec![0])) {
        ConnectionAction::Reply(bytes) => {
            assert_eq!(bytes, b"Hello from LinkWithMentor HTTP/3 (Raw QUIC)".to_vec());
        },
        ConnectionAction::Stop => panic!("a data unit must be answered"),
    }
    assert!(matches!(connection_step(&StreamEvent::Closed), ConnectionAction::Stop));
}

#[test]
fn oauth_claims_serialize_in_field_order() {
    let claims = oauth_claims("svc@example.com", 1000);
    assert_eq!(claims.exp, 4600);
    assert_eq!(claims.iat, 1000);
    assert_eq!(
        oauth_claims_json(&claims),
        "{\"iss\":\"svc@example.com\",\"scope\":\"https://www.googleapis.com/auth/firebase.messaging\",\"aud\":\"https://oauth2.googleapis.com/token\",\"exp\":4600,\"iat\":1000}"
    );
    assert_eq!(
        token_request_form("aaa.bbb.ccc"),
        "grant_type=urn%3Aietf%3Aparams%3Aoauth%3Agrant-type%3Ajwt-bearer&assertion=aaa.bbb.ccc"
    );
}
