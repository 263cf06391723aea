use tg::address::{Address, ProcessId};
use tg::api::{prepare_tg_bot, worker_address, Api, HttpError};
use tg::errors::TgError;
use tg::helpers::{call_target, method_url_text, request_no_wait};
use tg::interface::TgRequest;
use tg::text::{i64_text, u64_text};

#[test]
fn decimal_text() {
    assert_eq!(u64_text(0), "0");
    assert_eq!(u64_text(1234567890), "1234567890");
    assert_eq!(i64_text(-9), "-9");
    assert_eq!(i64_text(i64::MIN), "-9223372036854775808");
    assert_eq!(i64_text(i64::MAX), "9223372036854775807");
}

#[test]
fn method_urls() {
    assert_eq!(method_url_text("https://api.telegram.org/botK", "getMe"), "https://api.telegram.org/botK/getMe");
    let t = call_target("https://api.telegram.org/botK", "getMe").unwrap();
    assert_eq!(t.url.as_str(), "https://api.telegram.org/botK/getMe");
    assert!(matches!(call_target("no scheme", "getMe"), Err(TgError::InvalidUrl(_))));
}

#[test]
fn no_wait_call_without_params_has_empty_body() {
    let c = request_no_wait("https://api.telegram.org/botK", "getUpdates", None).unwrap();
    assert!(c.body.is_empty());
    assert_eq!(c.timeout_secs, 20);
    let c = request_no_wait("https://api.telegram.org/botK", "sendMessage", Some(b"{\"chat_id\":1}".to_vec())).unwrap();
    assert_eq!(c.url.as_str(), "https://api.telegram.org/botK/sendMessage");
    assert_eq!(String::from_utf8(c.body).unwrap(), "{\"chat_id\":1}");
    assert!(matches!(request_no_wait("bad", "getUpdates", None), Err(TgError::InvalidUrl(_))));
}

#[test]
fn parent_api_frames_calls() {
    let our = Address::new("me.os", ProcessId::new("app", "chat", "me.os"));
    let api = Api::new("T0K", our);
    assert_eq!(api.api_url, "https://api.telegram.org/botT0K");
    assert_eq!(api.current_offset, 0);
    let c = api.request_call("getMe", None).unwrap();
    assert_eq!(c.url.as_str(), "https://api.telegram.org/botT0K/getMe");
    assert_eq!(c.timeout_secs, 30);
    assert!(c.body.is_empty());
    let c = api.request_no_wait("sendMessage", Some(b"{}".to_vec())).unwrap();
    assert_eq!(c.body, b"{}".to_vec());
    assert_eq!(c.timeout_secs, 20);
}

#[test]
fn bot_setup_paths() {
    let our = Address::new("me.os", ProcessId::new("app", "chat", "me.os"));
    let setup = prepare_tg_bot(&our, "T0K", None);
    assert_eq!(setup.wasm_path, "chat:me.os/pkg/tg.wasm");
    assert_eq!(setup.api.api_url, "https://api.telegram.org/botT0K");
    match setup.register {
        TgRequest::RegisterApiKey(init) => {
            assert_eq!(init.token, "T0K");
            assert!(init.params.is_none());
        }
        _ => panic!("the first request registers the key"),
    }
    assert!(matches!(setup.subscribe, TgRequest::Subscribe));
    let worker = worker_address(&our, ProcessId::new("tg", "chat", "me.os"));
    assert_eq!(worker.node, "me.os");
    assert_eq!(worker.process.to_text(), "tg:chat:me.os");
}

#[test]
fn http_error_holds_code_and_message() {
    let e = HttpError { code: 404, message: "not found".to_string() };
    assert_eq!(e.code, 404);
    assert_eq!(e.message, "not found");
}

#[test]
fn multipart_is_refused_with_fixed_text() {
    assert_eq!(
        TgError::MultipartUnsupported.fixed_text(),
        Some("tgbot doesn't support multipart uploads (yet!)")
    );
}

#[test]
fn parent_and_bot_frame_the_same_no_wait_call() {
    let body = serde_json::to_vec(&frankenstein::GetUpdatesParams {
        offset: Some(3), limit: None, timeout: Some(1), allowed_updates: None,
    }).unwrap();
    let free = request_no_wait("https://api.telegram.org/botK", "getUpdates", Some(body.clone())).unwrap();
    let our = Address::new("me.os", ProcessId::new("app", "chat", "me.os"));
    let api = Api::new("K", our);
    let parent = api.request_no_wait("getUpdates", Some(body)).unwrap();
    assert_eq!(free.url, parent.url);
    assert_eq!(free.body, parent.body);
    assert_eq!(free.headers, parent.headers);
    assert_eq!(free.timeout_secs, parent.timeout_secs);
}
