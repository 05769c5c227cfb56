use leaf::bindings::http_fetch::HttpError;
use leaf::cli_server::page;
use leaf::generator::{
    guest_generator, pick_world, split_world, GeneratorError, GuestGeneratorType, WitDocument, WorldError,
};
use leaf::server::{hello_reply, ServerCtx};
use leaf::service::{InitError, PoolSlot, ServerContext};
use leaf::wasm::Manager;
use leaf::wit::fetch::{
    connector_for, fetch_outcome, request_body, Connector, FetchImpl, FetchOptions, Transport,
};
use std::sync::atomic::Ordering;

#[test]
fn fetch_routes_by_scheme() {
    let mut f = FetchImpl::new(7);
    assert_eq!(f.route("http://www.rust-lang.org"), Some(Ok(Connector::Http)));
    assert_eq!(f.route("https://www.rust-lang.org"), Some(Ok(Connector::Https)));
    assert_eq!(f.route("/abc"), Some(Err(HttpError::InvalidRequest)));
    assert_eq!(f.route("http://exa mple.com"), None);
    assert_eq!(f.counter, 4);
    assert_eq!(f.req_id, 7);
}

#[test]
fn connectors() {
    assert_eq!(connector_for(Some("https")), Ok(Connector::Https));
    assert_eq!(connector_for(Some("ftp")), Ok(Connector::Http));
    assert_eq!(connector_for(None), Err(HttpError::InvalidRequest));
}

#[test]
fn default_fetch_options() {
    let o = FetchOptions::default();
    assert_eq!(o.timeout, 30);
    assert!(!o.decompress);
}

#[test]
fn pages_of_the_development_server() {
    assert_eq!(page("/", 0), "home! counter = 0");
    assert_eq!(page("/posts", 12), "posts, of course! counter = 12");
    assert_eq!(page("/authors", -3), "authors extraordinare! counter = -3");
    assert_eq!(page("/other", 5), "oh no! not found");
}

#[test]
fn server_counter_starts_at_zero() {
    let s = ServerCtx::new();
    assert_eq!(s.req_id.load(Ordering::SeqCst), 0);
    let c = s.connection();
    c.req_id.fetch_add(1, Ordering::SeqCst);
    assert_eq!(s.req_id.load(Ordering::SeqCst), 1);
    let r = hello_reply();
    assert_eq!((r.status, r.body.as_str()), (200, "Hello"));
}

#[test]
fn generators() {
    assert_eq!(guest_generator(GuestGeneratorType::Rust), Ok(GuestGeneratorType::Rust));
    assert_eq!(guest_generator(GuestGeneratorType::Js), Err(GeneratorError::NotSupported));
    assert_eq!(guest_generator(GuestGeneratorType::Golang), Err(GeneratorError::NotSupported));
    assert_eq!(GeneratorError::NotSupported.message(), "not support guest generator");
    assert_eq!(split_world("http.handler"), ("http".to_string(), Some("handler".to_string())));
    assert_eq!(split_world("a.b.c"), ("a".to_string(), Some("b.c".to_string())));
    assert_eq!(split_world("doc"), ("doc".to_string(), None));
    assert_eq!(split_world("doc."), ("doc".to_string(), Some(String::new())));
}

#[test]
fn pool_manager_path() {
    let m = Manager::new("./tests/sample.wasm".to_string());
    assert_eq!(m.wasm_path(), "./tests/sample.wasm");
}

#[test]
fn service_starts_only_with_an_installed_pool() {
    let mut slot: PoolSlot<u32> = PoolSlot::new();
    assert_eq!(slot.get(), None);
    let ctx = ServerContext::new(&mut slot, Ok(7)).ok().unwrap();
    assert_eq!(slot.get(), Some(&7));
    assert_eq!(ctx.req_id.load(Ordering::SeqCst), 1);
    let conn = ctx.connection();
    assert_eq!(conn.req_id.fetch_add(1, Ordering::SeqCst), 1);
    assert_eq!(ctx.req_id.load(Ordering::SeqCst), 2);
    assert_eq!(
        ServerContext::new(&mut slot, Ok(8)).err(),
        Some(InitError::InitComponentManagerPool("Failed to set pool".to_string()))
    );
    assert_eq!(slot.get(), Some(&7));
    assert_eq!(
        ServerContext::new(&mut slot, Err("no runtime".to_string())).err(),
        Some(InitError::InitComponentManagerPool("no runtime".to_string()))
    );
    assert_eq!(slot.get(), Some(&7));
    let mut empty: PoolSlot<u32> = PoolSlot::new();
    assert!(ServerContext::new(&mut empty, Err("no runtime".to_string())).is_err());
    assert_eq!(empty.get(), None);
}

#[test]
fn fetch_outcomes() {
    assert!(matches!(fetch_outcome(Transport::Failed), Err(HttpError::InvalidRequest)));
    let r = fetch_outcome(Transport::Answered {
        status: 301,
        headers: vec![("location".to_string(), "https://www.rust-lang.org/".to_string())],
        body: b"moved".to_vec(),
    })
    .unwrap();
    assert_eq!(r.status, 301);
    assert_eq!(r.headers[0].1, "https://www.rust-lang.org/");
    assert_eq!(r.body, Some(b"moved".to_vec()));
    assert_eq!(request_body(None), Vec::<u8>::new());
    assert_eq!(request_body(Some(vec![1, 2])), vec![1, 2]);
}

fn doc(name: &str, worlds: &[&str], default_world: Option<usize>) -> WitDocument {
    WitDocument {
        name: name.to_string(),
        worlds: worlds.iter().map(|w| w.to_string()).collect(),
        default_world,
    }
}

#[test]
fn world_choice() {
    let one = vec![doc("http", &["handler", "fetcher"], Some(0))];
    assert_eq!(pick_world(&one, None), Ok((0, 0)));
    assert_eq!(pick_world(&one, Some("http")), Ok((0, 0)));
    assert_eq!(pick_world(&one, Some("http.fetcher")), Ok((0, 1)));
    let e = pick_world(&one, Some("http.nope")).unwrap_err();
    assert_eq!(e, WorldError::NoWorld("nope".to_string()));
    assert_eq!(e.message(), "no world named `nope` in document");
    let e = pick_world(&one, Some("kv")).unwrap_err();
    assert_eq!(e.message(), "no document named `kv` in package");
    let two = vec![doc("http", &["handler"], None), doc("kv", &["store"], Some(0))];
    let e = pick_world(&two, None).unwrap_err();
    assert_eq!(e.message(), "multiple documents found in package, specify a default world");
    assert_eq!(pick_world(&two, Some("kv")), Ok((1, 0)));
    let e = pick_world(&two, Some("http")).unwrap_err();
    assert_eq!(e.message(), "no default world in document");
    let e = pick_world(&[], None).unwrap_err();
    assert_eq!(e.message(), "no documents found in package");
}
