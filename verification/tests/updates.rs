use tg::address::{Address, ProcessId};
use tg::errors::TgError;
use tg::helpers::data_to_ws_update_blob;
use tg::http::{handle_http_response, handle_tg_update, undelivered_text, ClientReply, UpdateOutcome};
use tg::state::State;

fn registered_state() -> State {
    let mut s = State::initialize_empty();
    s.register_api_key("KEY", None);
    s.current_offset = 3;
    s.our_channel_id = 11;
    s.subscribe(&Address::new("n", ProcessId::new("a", "app", "sys")));
    s.subscribe(&Address::new("n", ProcessId::new("b", "app", "sys")));
    s
}

const BATCH: &str = r#"{"ok":true,"result":[
  {"update_id":7,"message":{"message_id":3,"date":100,"chat":{"id":-42,"type":"group"},
    "from":{"id":1,"is_bot":false,"first_name":"A","username":"alice"},"text":"he said \"hi\""}},
  {"update_id":9,"edited_message":{"message_id":4,"date":101,"chat":{"id":42,"type":"private"},"text":"x"}}
]}"#;

#[test]
fn updates_advance_offset_and_are_forwarded() {
    let mut state = Some(registered_state());
    let out = handle_tg_update(&mut state, b"", ClientReply::Http, Some(BATCH.as_bytes().to_vec())).unwrap();
    assert_eq!(state.as_ref().unwrap().current_offset, 10);
    match out {
        UpdateOutcome::Delivered(d) => {
            assert_eq!(d.updates.len(), 2);
            assert_eq!(d.updates[0].update_id, 7);
            assert_eq!(d.updates[1].update_id, 9);
            assert_eq!(d.forward_to.len(), 2);
            assert_eq!(d.forward_to[1].process.process_name, "b");
            let push = d.push.unwrap();
            assert_eq!(push.channel_id, 11);
            assert_eq!(push.blob.mime.as_deref(), Some("application/json"));
            assert_eq!(
                String::from_utf8(push.blob.bytes).unwrap(),
                r#"{"NewMessageUpdate":{"chat_id":-42,"date":100,"message_id":3,"text":"he said \"hi\"","username":"alice"}}"#
            );
            let poll = d.poll.unwrap();
            assert_eq!(poll.url.as_str(), "https://api.telegram.org/botKEY/getUpdates");
            assert_eq!(String::from_utf8(poll.body).unwrap(), "{\"offset\":10,\"timeout\":15}");
        }
        _ => panic!("expected a delivery"),
    }
}

#[test]
fn empty_batch_keeps_offset_and_pushes_nothing() {
    let mut state = Some(registered_state());
    let out = handle_tg_update(&mut state, b"", ClientReply::Http, Some(br#"{"ok":true,"result":[]}"#.to_vec())).unwrap();
    assert_eq!(state.as_ref().unwrap().current_offset, 3);
    match out {
        UpdateOutcome::Delivered(d) => {
            assert!(d.push.is_none());
            assert!(d.updates.is_empty());
            assert_eq!(String::from_utf8(d.poll.unwrap().body).unwrap(), "{\"offset\":3,\"timeout\":15}");
        }
        _ => panic!("expected a delivery"),
    }
}

#[test]
fn first_update_not_a_message_pushes_nothing() {
    let mut state = Some(registered_state());
    let body = br#"{"ok":true,"result":[{"update_id":5,"edited_message":{"message_id":4,"date":101,"chat":{"id":42,"type":"private"}}}]}"#;
    match handle_tg_update(&mut state, b"", ClientReply::Http, Some(body.to_vec())).unwrap() {
        UpdateOutcome::Delivered(d) => assert!(d.push.is_none()),
        _ => panic!("expected a delivery"),
    }
    assert_eq!(state.as_ref().unwrap().current_offset, 6);
}

#[test]
fn missing_username_and_text_are_unknown() {
    let mut state = Some(registered_state());
    let body = br#"{"ok":true,"result":[{"update_id":1,"message":{"message_id":2,"date":3,"chat":{"id":4,"type":"private"}}}]}"#;
    match handle_tg_update(&mut state, b"", ClientReply::Http, Some(body.to_vec())).unwrap() {
        UpdateOutcome::Delivered(d) => assert_eq!(
            String::from_utf8(d.push.unwrap().blob.bytes).unwrap(),
            r#"{"NewMessageUpdate":{"chat_id":4,"date":3,"message_id":2,"text":"Unknown","username":"Unknown"}}"#
        ),
        _ => panic!("expected a delivery"),
    }
}

#[test]
fn largest_update_id_wraps_offset() {
    let mut state = Some(registered_state());
    let body = br#"{"ok":true,"result":[{"update_id":4294967295,"message":{"message_id":2,"date":3,"chat":{"id":4,"type":"private"}}}]}"#;
    assert!(handle_tg_update(&mut state, b"", ClientReply::Http, Some(body.to_vec())).is_ok());
    assert_eq!(state.as_ref().unwrap().current_offset, 0);
}

#[test]
fn undecodable_updates_are_an_error_and_change_nothing() {
    let mut state = Some(registered_state());
    let err = handle_tg_update(&mut state, b"", ClientReply::Http, Some(b"not json".to_vec())).unwrap_err();
    assert!(matches!(err, TgError::UnexpectedResponse));
    assert_eq!(err.fixed_text(), Some("unexpected Response: "));
    assert_eq!(state.as_ref().unwrap().current_offset, 3);
}

#[test]
fn replies_other_than_http_are_errors() {
    let mut state = Some(registered_state());
    assert!(matches!(handle_tg_update(&mut state, b"", ClientReply::Other, None), Err(TgError::UnexpectedResponse)));
    match handle_tg_update(&mut state, b"", ClientReply::Failed("timeout".to_string()), None) {
        Err(TgError::Transport(m)) => assert_eq!(m, "timeout"),
        _ => panic!("expected a transport error"),
    }
    let mut none: Option<State> = None;
    let err = handle_tg_update(&mut none, b"", ClientReply::Http, None).unwrap_err();
    assert!(matches!(err, TgError::UpdateStateNotInitialized));
    assert_eq!(err.fixed_text(), Some("tg: state not initialized"));
}

#[test]
fn missing_body_notifies_every_subscriber() {
    let mut state = Some(registered_state());
    match handle_http_response(&mut state, b"say \"x\"", &None, ClientReply::Http, None).unwrap() {
        UpdateOutcome::Undelivered { notify, message } => {
            assert_eq!(notify.len(), 2);
            assert_eq!(message, "tg_bot, failed to serialize response: \"say \\\"x\\\"\"");
        }
        _ => panic!("expected notices"),
    }
    assert_eq!(state.as_ref().unwrap().current_offset, 3);
}

#[test]
fn notice_for_invalid_utf8() {
    assert_eq!(undelivered_text(&[0xff, 0xfe]), "tg_bot, failed to serialize response: \"[Invalid UTF-8]\"");
    assert_eq!(undelivered_text(b"a\nb"), "tg_bot, failed to serialize response: \"a\\nb\"");
}

#[test]
fn ws_blob_escapes_strings() {
    let b = data_to_ws_update_blob(1, -2, 18446744073709551615, "bob".to_string(), "line\nnext".to_string());
    assert_eq!(
        String::from_utf8(b.bytes).unwrap(),
        r#"{"NewMessageUpdate":{"chat_id":1,"date":18446744073709551615,"message_id":-2,"text":"line\nnext","username":"bob"}}"#
    );
}

#[test]
fn later_polls_keep_registered_limit_and_kinds() {
    let mut s = State::initialize_empty();
    s.register_api_key(
        "KEY",
        Some(tg::interface::UpdatesParams {
            offset: None,
            limit: Some(2),
            timeout: None,
            allowed_updates: Some(vec![frankenstein::AllowedUpdate::Message]),
        }),
    );
    let mut state = Some(s);
    match handle_tg_update(&mut state, b"", ClientReply::Http, Some(BATCH.as_bytes().to_vec())).unwrap() {
        UpdateOutcome::Delivered(d) => assert_eq!(
            String::from_utf8(d.poll.unwrap().body).unwrap(),
            "{\"offset\":10,\"limit\":2,\"timeout\":15,\"allowed_updates\":[\"message\"]}"
        ),
        _ => panic!("expected a delivery"),
    }
}

#[test]
fn ws_blob_decodes_back_to_its_inputs() {
    let b = data_to_ws_update_blob(-7, 12, 34, "a\"b\\c".to_string(), "t\u{1}\té".to_string());
    let v: serde_json::Value = serde_json::from_slice(&b.bytes).unwrap();
    let obj = v.as_object().unwrap();
    assert_eq!(obj.len(), 1);
    let inner = obj.get("NewMessageUpdate").unwrap().as_object().unwrap();
    assert_eq!(inner.len(), 5);
    assert_eq!(inner.get("chat_id").unwrap().as_i64(), Some(-7));
    assert_eq!(inner.get("message_id").unwrap().as_i64(), Some(12));
    assert_eq!(inner.get("date").unwrap().as_u64(), Some(34));
    assert_eq!(inner.get("username").unwrap().as_str(), Some("a\"b\\c"));
    assert_eq!(inner.get("text").unwrap().as_str(), Some("t\u{1}\té"));
}
