//! What the admin interface decides: which page a request is for, and with
//! which status a command is answered.

use vstd::prelude::*;

verus! {

/// The pages of the admin interface.
#[derive(Debug, Clone, Copy, PartialEq, Eq, Structural)]
pub enum Route {
    /// The front page.
    Index,
    /// Ask every peer for its status.
    SendPeerStatus,
    /// The status records collected so far.
    Events,
    /// No such page.
    NotFound,
}

/// The page that a request with this method and path is for.
pub open spec fn route_of(method: Seq<char>, path: Seq<char>) -> Route {
    if method == "GET"@ && (path == "/"@ || path == "/index.html"@) {
        Route::Index
    } else if method == "POST"@ && path == "/api/send_ps"@ {
        Route::SendPeerStatus
    } else if method == "GET"@ && path == "/api/events"@ {
        Route::Events
    } else {
        Route::NotFound
    }
}

/// The status code that tells an operator how a status request went: 200 if
/// it went out, 500 if it did not.
pub open spec fn status_of(sent: Result<(), ()>) -> u16 {
    match sent {
        Ok(_) => 200,
        Err(_) => 500,
    }
}

/// Whether two texts are the same.
fn same_text(left: &str, right: &str) -> (same: bool)
    ensures
        same == (left@ == right@),
{
    left.to_owned() == right.to_owned()
}

/// The admin interface of a node.
#[derive(Debug)]
pub struct AdminServer;

impl AdminServer {
    /// The page that a request with this method and path is for.
    pub fn route(method: &str, path: &str) -> (route: Route)
        ensures
            route == route_of(method@, path@),
    {
        if same_text(method, "GET") && (same_text(path, "/") || same_text(path, "/index.html")) {
            Route::Index
        } else if same_text(method, "POST") && same_text(path, "/api/send_ps") {
            Route::SendPeerStatus
        } else if same_text(method, "GET") && same_text(path, "/api/events") {
            Route::Events
        } else {
            Route::NotFound
        }
    }

    /// The status code that tells an operator how a status request went.
    pub fn status_for(sent: &Result<(), ()>) -> (code: u16)
        ensures
            code == status_of(*sent),
    {
        match sent {
            Ok(_) => 200,
            Err(_) => 500,
        }
    }
}

} // verus!
