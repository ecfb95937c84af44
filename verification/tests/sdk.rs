use pointiv_extension_sdk::json::read_reply;
use pointiv_extension_sdk::{ai, clipboard, google_gmail, http, log, storage};
use pointiv_extension_sdk::{HttpResponse, Output};

#[test]
fn output_kinds() {
    let o = Output::text("result");
    assert_eq!((o.kind.as_str(), o.value.as_str()), ("text", "result"));
    let o = Output::copy("value");
    assert_eq!((o.kind.as_str(), o.value.as_str()), ("copy", "value"));
    let o = Output::type_text("value");
    assert_eq!((o.kind.as_str(), o.value.as_str()), ("type", "value"));
    let o = Output::error("oops");
    assert_eq!((o.kind.as_str(), o.value.as_str()), ("error", "oops"));
}

#[test]
fn log_lines() {
    assert_eq!(log::info("started"), "[INFO] started");
    assert_eq!(log::warn("slow response"), "[WARN] slow response");
    assert_eq!(log::error("failed"), "[ERROR] failed");
    assert_eq!(log::info(""), "[INFO] ");
}

#[test]
fn storage_read_treats_empty_as_missing() {
    assert_eq!(storage::read(Some("value".to_string())), Some("value".to_string()));
    assert_eq!(storage::read(Some(String::new())), None);
    assert_eq!(storage::read(None), None);
}

#[test]
fn storage_list_reads_json_array() {
    assert_eq!(storage::list(Some(r#"["a","b c"]"#.to_string())), vec!["a", "b c"]);
    assert_eq!(storage::list(Some("[]".to_string())), Vec::<String>::new());
    assert_eq!(storage::list(Some("not json".to_string())), Vec::<String>::new());
    assert_eq!(storage::list(Some("[1,2]".to_string())), Vec::<String>::new());
    assert_eq!(storage::list(None), Vec::<String>::new());
}

#[test]
fn clipboard_and_ai_default_to_empty() {
    assert_eq!(clipboard::read(Some("copied".to_string())), "copied");
    assert_eq!(clipboard::read(None), "");
    assert_eq!(ai::complete(Some("A summary.".to_string())), "A summary.");
    assert_eq!(ai::complete(None), "");
}

#[test]
fn http_requests() {
    let r = http::get("https://api.example.com/data");
    assert_eq!(r.method, "GET");
    assert_eq!(r.url, "https://api.example.com/data");
    assert!(r.headers.is_empty());
    assert_eq!(r.body, "");
    let r = http::post("https://api.example.com", r#"{"x":1}"#);
    assert_eq!(r.method, "POST");
    assert_eq!(r.url, "https://api.example.com");
    assert!(r.headers.is_empty());
    assert_eq!(r.body, r#"{"x":1}"#);
}

#[test]
fn http_response_fallback() {
    let r = http::response(None);
    assert_eq!((r.status, r.body.as_str()), (0, ""));
    let r = http::response(Some(HttpResponse { status: 403, body: String::new() }));
    assert_eq!((r.status, r.body.as_str()), (403, ""));
}

#[test]
fn replies_from_the_host() {
    assert_eq!(read_reply(None).unwrap_err(), "host call failed");
    assert_eq!(read_reply(Some(r#"{"error":"denied"}"#.to_string())).unwrap_err(), "denied");
    let raw = r#"{"id":"evt1","status":"confirmed"}"#;
    let ok = read_reply(Some(raw.to_string())).unwrap();
    assert_eq!(ok, serde_json::from_str::<serde_json::Value>(raw).unwrap());
    let ok = read_reply(Some(r#"{"error":5}"#.to_string())).unwrap();
    assert_eq!(ok["error"], 5);
    let ok = read_reply(Some("[1,2]".to_string())).unwrap();
    assert_eq!(ok[1], 2);
    let raw = "not json";
    let expected = serde_json::from_str::<serde_json::Value>(raw).unwrap_err().to_string();
    assert_eq!(read_reply(Some(raw.to_string())).unwrap_err(), expected);
}

#[test]
fn gmail_payload() {
    let payload = google_gmail::send("you@example.com", "Subject", "Body \"text\"\n").unwrap();
    let mut map = serde_json::Map::new();
    map.insert("to".to_string(), serde_json::Value::String("you@example.com".to_string()));
    map.insert("subject".to_string(), serde_json::Value::String("Subject".to_string()));
    map.insert("body".to_string(), serde_json::Value::String("Body \"text\"\n".to_string()));
    assert_eq!(payload, serde_json::to_string(&serde_json::Value::Object(map)).unwrap());
}
