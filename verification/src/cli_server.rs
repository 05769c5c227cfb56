//! The development server of the minimal command line: a few fixed pages
//! that show how many requests came before.
use vstd::prelude::*;
use crate::decimal::{decimal_i64, spec_decimal};
use crate::text::{concat, str_equal};

verus! {

/// The body of the page at `path` for request number `req_id`.
pub open spec fn spec_page(path: Seq<char>, req_id: int) -> Seq<char> {
    if path == "/"@ {
        "home! counter = "@ + spec_decimal(req_id)
    } else if path == "/posts"@ {
        "posts, of course! counter = "@ + spec_decimal(req_id)
    } else if path == "/authors"@ {
        "authors extraordinare! counter = "@ + spec_decimal(req_id)
    } else {
        "oh no! not found"@
    }
}

/// The body of the page at `path` for request number `req_id`: the home,
/// posts and authors pages show the number; every other path is not found.
pub fn page(path: &str, req_id: i64) -> (r: String)
    ensures
        r@ == spec_page(path@, req_id as int),
{
    if str_equal(path, "/") {
        let n = decimal_i64(req_id);
        concat("home! counter = ", n.as_str())
    } else if str_equal(path, "/posts") {
        let n = decimal_i64(req_id);
        concat("posts, of course! counter = ", n.as_str())
    } else if str_equal(path, "/authors") {
        let n = decimal_i64(req_id);
        concat("authors extraordinare! counter = ", n.as_str())
    } else {
        String::from_str("oh no! not found")
    }
}

} // verus!
