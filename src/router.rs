use vstd::prelude::*;
use crate::text::text_eq;

verus! {

/// The HTTP method of an inbound request, as far as routing reads it.
#[derive(Debug, Clone, Copy, PartialEq, Eq, Structural)]
pub enum HttpMethod {
    Get,
    Post,
    Other,
}

/// The handler an inbound request is dispatched to.
#[derive(Debug, Clone, Copy, PartialEq, Eq, Structural)]
pub enum Route {
    /// The height interceptor.
    GetHeight,
    /// The template augmentation engine.
    GetBlockTemplate,
    /// The submission coordinator.
    SubmitBlock,
    /// The upstream response goes back unchanged.
    Passthrough,
}

pub open spec fn route_spec(method: HttpMethod, path: Seq<char>) -> Route {
    match method {
        HttpMethod::Get => if path == "/get_height"@ || path == "/getheight"@ {
            Route::GetHeight
        } else {
            Route::Passthrough
        },
        HttpMethod::Post => if path == "/submit_block"@ || path == "/submitblock"@ {
            Route::SubmitBlock
        } else if path == "/get_block_template"@ || path == "/getblocktemplate"@ {
            Route::GetBlockTemplate
        } else {
            Route::Passthrough
        },
        HttpMethod::Other => Route::Passthrough,
    }
}

/// Picks the handler for a request by method and path.
pub fn route(method: HttpMethod, path: &str) -> (r: Route)
    ensures
        r == route_spec(method, path@),
{
    match method {
        HttpMethod::Get => {
            if text_eq(path, "/get_height") || text_eq(path, "/getheight") {
                Route::GetHeight
            } else {
                Route::Passthrough
            }
        },
        HttpMethod::Post => {
            if text_eq(path, "/submit_block") || text_eq(path, "/submitblock") {
                Route::SubmitBlock
            } else if text_eq(path, "/get_block_template") || text_eq(path, "/getblocktemplate") {
                Route::GetBlockTemplate
            } else {
                Route::Passthrough
            }
        },
        HttpMethod::Other => Route::Passthrough,
    }
}

/// Whether an HTTP status code is a success (2xx); any other upstream reply is
/// handed back to the caller untouched.
pub fn is_success_status(code: u16) -> (r: bool)
    ensures
        r == (200 <= code && code < 300),
{
    200 <= code && code < 300
}

/// The handler for a request once the upstream node has replied: a reply
/// that is not a success goes back untouched, bypassing every handler.
pub fn dispatch(upstream_status: u16, method: HttpMethod, path: &str) -> (r: Route)
    ensures
        !(200 <= upstream_status && upstream_status < 300) ==> r == Route::Passthrough,
        200 <= upstream_status && upstream_status < 300 ==> r == route_spec(method, path@),
{
    if is_success_status(upstream_status) {
        route(method, path)
    } else {
        Route::Passthrough
    }
}

} // verus!
