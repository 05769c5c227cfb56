use leaf::run_server::admin::{reload_file, AdminAction, AdminRouter};
use leaf::run_server::query::{query_decode, query_get};
use leaf::run_server::{missing_wasm_reply, wasm_name_from_header, worker_failure_reply};

#[test]
fn decode_two_pairs() {
    let q = query_decode("a=1&b=2");
    assert_eq!(q, vec![("a", "1"), ("b", "2")]);
}

#[test]
fn decode_skips_pieces_without_equals() {
    let q = query_decode("flag&file=x.wasm&&=");
    assert_eq!(q, vec![("file", "x.wasm"), ("", "")]);
}

#[test]
fn decode_keeps_text_before_second_equals() {
    let q = query_decode("a=1=2&b==c");
    assert_eq!(q, vec![("a", "1"), ("b", "")]);
}

#[test]
fn decode_empty_query() {
    assert!(query_decode("").is_empty());
    assert!(query_decode("&&&").is_empty());
}

#[test]
fn decode_trailing_ampersand() {
    assert_eq!(query_decode("k=v&"), vec![("k", "v")]);
}

#[test]
fn decode_join_of_two_queries() {
    let left = query_decode("a=1&x");
    let right = query_decode("b=2&c=3");
    let mut joined = left.clone();
    joined.extend(right);
    assert_eq!(query_decode("a=1&x&b=2&c=3"), joined);
}

#[test]
fn decode_of_encoded_pairs() {
    let pairs = vec![("file", "app.wasm"), ("mode", ""), ("", "v")];
    let encoded = pairs.iter().map(|(k, v)| format!("{}={}", k, v)).collect::<Vec<_>>().join("&");
    assert_eq!(query_decode(&encoded), pairs);
}

#[test]
fn get_finds_first_match() {
    let q = query_decode("file=a.wasm&file=b.wasm");
    assert_eq!(query_get(&q, "file"), Some("a.wasm"));
}

#[test]
fn get_missing_key() {
    let q = query_decode("files=a.wasm&fil=b");
    assert_eq!(query_get(&q, "file"), None);
}

#[test]
fn reload_needs_file_parameter() {
    assert_eq!(reload_file("file=app.wasm").ok(), Some("app.wasm".to_string()));
    let r = reload_file("x=1").err().unwrap();
    assert_eq!(r.status, 400);
    assert_eq!(r.body, "file is required");
}

#[test]
fn admin_routes_only_reload() {
    let router = AdminRouter::new();
    assert_eq!(router.route("/reload"), AdminAction::Reload);
    assert_eq!(router.route("/reload/"), AdminAction::NotFound);
    assert_eq!(router.route("/"), AdminAction::NotFound);
    assert_eq!(router.route("/reloads"), AdminAction::NotFound);
}

#[test]
fn wasm_header_is_required() {
    assert_eq!(wasm_name_from_header(Some("hello.wasm")).ok(), Some("hello.wasm".to_string()));
    let r = wasm_name_from_header(None).err().unwrap();
    assert_eq!(r.status, 400);
    assert_eq!(r.body, "header x-wasm-path is required");
}

#[test]
fn runner_failure_replies() {
    let r = missing_wasm_reply();
    assert_eq!((r.status, r.body.as_str()), (500, "wasm file not found"));
    let r = worker_failure_reply("trap".to_string());
    assert_eq!((r.status, r.body.as_str()), (500, "trap"));
}
