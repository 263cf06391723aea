use tg::address::{Address, ProcessId};
use tg::bot::{handle_message, handle_request, startup_state, file_download_request, RequestOutcome, handle_inner_message};
use tg::errors::TgError;
use tg::http::{Handler, MessageKind, handle_http_message, handle_http_server_request, ServerEvent};
use tg::interface::{TgInitialize, TgRequest, UpdatesParams};
use tg::state::State;

fn addr(node: &str, process: &str) -> Address {
    Address::new(node, ProcessId::new(process, "app", "sys"))
}

fn names(s: &State) -> Vec<String> {
    s.subscribers.iter().map(|a| format!("{}@{}", a.node, a.process.to_text())).collect()
}

#[test]
fn empty_state_has_nothing() {
    let s = State::initialize_empty();
    assert_eq!(s.tg_key, "");
    assert_eq!(s.api_url, "");
    assert_eq!(s.current_offset, 0);
    assert!(s.api.is_none());
    assert!(s.subscribers.is_empty());
    assert_eq!(s.our_channel_id, 0);
}

#[test]
fn subscribe_twice_keeps_one_entry() {
    let mut state = Some(State::initialize_empty());
    let a = addr("node.os", "alpha");
    for _ in 0..2 {
        let out = handle_request(&mut state, TgRequest::Subscribe, &a).unwrap();
        assert!(matches!(out, RequestOutcome::Accept));
    }
    assert_eq!(names(state.as_ref().unwrap()), vec!["node.os@alpha:app:sys".to_string()]);
}

#[test]
fn unsubscribe_undoes_subscribe() {
    let mut state = Some(State::initialize_empty());
    let a = addr("node.os", "alpha");
    let b = addr("node.os", "beta");
    handle_request(&mut state, TgRequest::Subscribe, &a).unwrap();
    let before = names(state.as_ref().unwrap());
    handle_request(&mut state, TgRequest::Subscribe, &b).unwrap();
    assert_eq!(state.as_ref().unwrap().subscribers.len(), 2);
    handle_request(&mut state, TgRequest::Unsubscribe, &b).unwrap();
    assert_eq!(names(state.as_ref().unwrap()), before);
}

#[test]
fn unsubscribe_keeps_order_of_others() {
    let mut state = Some(State::initialize_empty());
    for p in ["a", "b", "c"] {
        handle_request(&mut state, TgRequest::Subscribe, &addr("n", p)).unwrap();
    }
    handle_request(&mut state, TgRequest::Unsubscribe, &addr("n", "b")).unwrap();
    assert_eq!(names(state.as_ref().unwrap()), vec!["n@a:app:sys".to_string(), "n@c:app:sys".to_string()]);
    handle_request(&mut state, TgRequest::Unsubscribe, &addr("n", "zzz")).unwrap();
    assert_eq!(state.as_ref().unwrap().subscribers.len(), 2);
}

#[test]
fn subscribe_without_state_is_still_accepted() {
    let mut state: Option<State> = None;
    let out = handle_request(&mut state, TgRequest::Subscribe, &addr("n", "a")).unwrap();
    assert!(matches!(out, RequestOutcome::Accept));
    assert!(state.is_none());
}

#[test]
fn register_sets_key_and_polls_from_zero() {
    let mut state = Some(State::initialize_empty());
    state.as_mut().unwrap().current_offset = 77;
    let init = TgInitialize { token: "123:ABC".to_string(), params: None };
    let out = handle_request(&mut state, TgRequest::RegisterApiKey(init), &addr("n", "a")).unwrap();
    let s = state.as_ref().unwrap();
    assert_eq!(s.tg_key, "123:ABC");
    assert_eq!(s.api_url, "https://api.telegram.org/bot123:ABC");
    assert_eq!(s.api.as_ref().unwrap().api_url, "https://api.telegram.org/bot123:ABC");
    assert_eq!(s.current_offset, 0);
    match out {
        RequestOutcome::Registered { poll } => {
            let call = poll.unwrap();
            assert_eq!(call.url.as_str(), "https://api.telegram.org/bot123:ABC/getUpdates");
            assert_eq!(String::from_utf8(call.body).unwrap(), "{\"offset\":0,\"timeout\":15}");
            assert_eq!(call.timeout_secs, 20);
            assert_eq!(call.headers, vec![("Content-Type".to_string(), "application/json".to_string())]);
        }
        _ => panic!("expected a registration"),
    }
}

#[test]
fn register_without_state_is_ignored() {
    let mut state: Option<State> = None;
    let init = TgInitialize { token: "k".to_string(), params: None };
    let out = handle_request(&mut state, TgRequest::RegisterApiKey(init), &addr("n", "a")).unwrap();
    assert!(matches!(out, RequestOutcome::Ignored));
    assert!(state.is_none());
}

#[test]
fn get_file_needs_state_and_api() {
    let params = frankenstein::GetFileParams::builder().file_id("F1").build();
    let mut none: Option<State> = None;
    let err = handle_request(&mut none, TgRequest::GetFile(params.clone()), &addr("n", "a")).unwrap_err();
    assert!(matches!(err, TgError::StateNotInitialized));
    assert_eq!(err.fixed_text(), Some("state not initialized"));
    let mut state = Some(State::initialize_empty());
    let err = handle_request(&mut state, TgRequest::GetFile(params.clone()), &addr("n", "a")).unwrap_err();
    assert!(matches!(err, TgError::ApiNotInitialized));
    assert_eq!(err.fixed_text(), Some("api not initialized"));
    state.as_mut().unwrap().register_api_key("KEY", None);
    match handle_request(&mut state, TgRequest::GetFile(params), &addr("n", "a")).unwrap() {
        RequestOutcome::FetchFile { api, tg_key, params } => {
            assert_eq!(api.api_url, "https://api.telegram.org/botKEY");
            assert_eq!(tg_key, "KEY");
            assert_eq!(params.file_id, "F1");
        }
        _ => panic!("expected a file fetch"),
    }
}

#[test]
fn send_message_and_photo_go_through_the_client() {
    let mut state = Some(State::initialize_empty());
    state.as_mut().unwrap().register_api_key("KEY", None);
    let msg = frankenstein::SendMessageParams::builder().chat_id(5i64).text("hi").build();
    match handle_request(&mut state, TgRequest::SendMessage(msg), &addr("n", "a")).unwrap() {
        RequestOutcome::SendMessage { api, params } => {
            assert_eq!(api.api_url, "https://api.telegram.org/botKEY");
            assert_eq!(params.text, "hi");
        }
        _ => panic!("expected a message"),
    }
    let photo = frankenstein::SendPhotoParams::builder()
        .chat_id(5i64)
        .photo(frankenstein::FileUpload::String("file-id".to_string()))
        .build();
    assert!(matches!(
        handle_request(&mut state, TgRequest::SendPhoto(photo), &addr("n", "a")).unwrap(),
        RequestOutcome::SendPhoto { .. }
    ));
}

#[test]
fn file_download_url_and_missing_path() {
    let d = file_download_request("KEY", Some("photos/file_1.jpg".to_string())).unwrap();
    assert_eq!(d.url, "https://api.telegram.org/file/botKEY/photos/file_1.jpg");
    assert_eq!(d.method, "GET");
    assert_eq!(d.timeout_secs, 30);
    assert_eq!(d.target.node, "our");
    assert_eq!(d.target.process.to_text(), "http_client:distro:sys");
    let err = file_download_request("KEY", None).unwrap_err();
    assert!(matches!(err, TgError::FilePathNotFound));
    assert_eq!(err.fixed_text(), Some("file_path not found"));
}

#[test]
fn messages_are_routed_by_source() {
    let our = addr("me.os", "tg");
    let server = Address::new("me.os", ProcessId::new("http_server", "distro", "sys"));
    let client = Address::new("me.os", ProcessId::new("http_client", "distro", "sys"));
    let other = addr("me.os", "app");
    let foreign = Address::new("you.os", ProcessId::new("http_server", "distro", "sys"));
    assert_eq!(handle_message(&our, &server, MessageKind::Request).unwrap(), Handler::HttpServerRequest);
    assert_eq!(handle_message(&our, &client, MessageKind::Response).unwrap(), Handler::HttpResponse);
    assert_eq!(handle_message(&our, &other, MessageKind::Request).unwrap(), Handler::BotRequest);
    assert_eq!(handle_message(&our, &other, MessageKind::Response).unwrap(), Handler::Ignore);
    match handle_message(&our, &foreign, MessageKind::Request) {
        Err(TgError::ForeignSource(a)) => assert_eq!(a.node, "you.os"),
        _ => panic!("a foreign source is refused"),
    }
    assert_eq!(handle_http_message(MessageKind::Request), Handler::HttpServerRequest);
    assert_eq!(handle_inner_message(MessageKind::Response), Handler::Ignore);
}

#[test]
fn websocket_open_records_channel() {
    let mut state = Some(State::initialize_empty());
    assert!(handle_http_server_request(&mut state, ServerEvent::WebSocketOpen { channel_id: 9 }));
    assert_eq!(state.as_ref().unwrap().our_channel_id, 9);
    assert!(!handle_http_server_request(&mut state, ServerEvent::Other));
    let mut none: Option<State> = None;
    assert!(!handle_http_server_request(&mut none, ServerEvent::WebSocketOpen { channel_id: 9 }));
    assert!(none.is_none());
}

#[test]
fn startup_uses_saved_state_or_empty() {
    let (s, save) = startup_state(None);
    assert!(save);
    assert!(s.unwrap().subscribers.is_empty());
    let mut saved = State::initialize_empty();
    saved.current_offset = 5;
    let (s, save) = startup_state(Some(saved));
    assert!(!save);
    assert_eq!(s.unwrap().current_offset, 5);
}

#[test]
fn register_keeps_requested_limit_and_kinds() {
    let mut state = Some(State::initialize_empty());
    let params = UpdatesParams {
        offset: Some(99),
        limit: Some(5),
        timeout: Some(1),
        allowed_updates: Some(vec![frankenstein::AllowedUpdate::Message, frankenstein::AllowedUpdate::CallbackQuery]),
    };
    let init = TgInitialize { token: "K".to_string(), params: Some(params) };
    match handle_request(&mut state, TgRequest::RegisterApiKey(init), &addr("n", "a")).unwrap() {
        RequestOutcome::Registered { poll } => assert_eq!(
            String::from_utf8(poll.unwrap().body).unwrap(),
            "{\"offset\":0,\"limit\":5,\"timeout\":15,\"allowed_updates\":[\"message\",\"callback_query\"]}"
        ),
        _ => panic!("expected a registration"),
    }
    let s = state.as_ref().unwrap();
    assert_eq!(s.poll_limit, Some(5));
    assert_eq!(s.allowed_updates.as_ref().unwrap().len(), 2);
}
