//! The runner: it serves requests by running the wasm file that a header
//! names, and it has an admin endpoint that reloads a wasm file.
use vstd::prelude::*;

pub mod admin;
pub mod query;

verus! {

/// An HTTP reply: a status and a text body.
#[derive(Debug)]
pub struct Reply {
    /// The HTTP status.
    pub status: u16,
    /// The body.
    pub body: String,
}

/// A reply with the given status and body.
pub fn create_response(status: u16, message: String) -> (r: Reply)
    ensures
        r.status == status,
        r.body@ == message@,
{
    Reply { status, body: message }
}

/// The wasm file a request asks for, named by its `x-wasm-path` header; a
/// request without the header is answered 400.
pub fn wasm_name_from_header(header: Option<&str>) -> (r: Result<String, Reply>)
    ensures
        header is Some ==> r is Ok && r->Ok_0@ == header->Some_0@,
        header is None ==> r is Err && r->Err_0.status == 400 && r->Err_0.body@
            == "header x-wasm-path is required"@,
{
    match header {
        Some(h) => Ok(String::from_str(h)),
        None => Err(create_response(400, String::from_str("header x-wasm-path is required"))),
    }
}

/// The runner's greeting: 200 `Hello, Leaf-Runner!`.
pub fn runner_hello_reply() -> (r: Reply)
    ensures
        r.status == 200,
        r.body@ == "Hello, Leaf-Runner!"@,
{
    create_response(200, String::from_str("Hello, Leaf-Runner!"))
}

/// The reply to a request whose wasm file does not exist: 500.
pub fn missing_wasm_reply() -> (r: Reply)
    ensures
        r.status == 500,
        r.body@ == "wasm file not found"@,
{
    create_response(500, String::from_str("wasm file not found"))
}

/// The reply to a request that the wasm worker failed to handle: 500 with the failure.
pub fn worker_failure_reply(message: String) -> (r: Reply)
    ensures
        r.status == 500,
        r.body@ == message@,
{
    create_response(500, message)
}

} // verus!
