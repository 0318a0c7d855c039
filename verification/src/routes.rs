//! The two routes of the service and the answers they give.

use vstd::prelude::*;

pub mod health_check;
pub mod subscriptions;

verus! {

/// The status of an answer to a request that was carried out.
pub const OK: u16 = 200;

/// The status of an answer to a request that cannot be read.
pub const BAD_REQUEST: u16 = 400;

/// The status of an answer to a request that the database did not take.
pub const INTERNAL_SERVER_ERROR: u16 = 500;

/// The request methods that the service answers to.
#[derive(Clone, Copy, Debug, PartialEq, Eq, Structural)]
pub enum Method {
    Get,
    Post,
}

/// The two things that the service does.
#[derive(Clone, Copy, Debug, PartialEq, Eq, Structural)]
pub enum Handler {
    /// Answer the liveness probe.
    HealthCheck,
    /// Take a subscription.
    Subscribe,
}

/// A route: which requests go to a handler.
#[derive(Clone, Copy, Debug)]
pub struct Route {
    pub method: Method,
    pub path: &'static str,
    pub handler: Handler,
}

/// Whether `route` sends the requests with this method and path to this
/// handler.
pub open spec fn leads(route: Route, method: Method, path: Seq<char>, handler: Handler) -> bool {
    route.method == method && route.path@ == path && route.handler == handler
}

/// The routes of the service: `GET /health_check` is the liveness probe,
/// `POST /subscriptions` takes a subscription, and there is no other.
pub fn routes() -> (table: Vec<Route>)
    ensures
        table@.len() == 2,
        leads(table@[0], Method::Get, "/health_check"@, Handler::HealthCheck),
        leads(table@[1], Method::Post, "/subscriptions"@, Handler::Subscribe),
{
    let mut table: Vec<Route> = Vec::new();
    table.push(Route { method: Method::Get, path: "/health_check", handler: Handler::HealthCheck });
    table.push(Route { method: Method::Post, path: "/subscriptions", handler: Handler::Subscribe });
    table
}

/// An answer to a request: the status and the body.
#[derive(Debug)]
pub struct Response {
    pub status: u16,
    pub body: Vec<u8>,
}

impl Response {
    /// An answer with the given status and nothing in its body.
    pub fn empty(status: u16) -> (response: Response)
        ensures
            response.status == status,
            response.body@ == Seq::<u8>::empty(),
    {
        Response { status, body: Vec::new() }
    }

    /// The number of bytes in the body.
    pub fn content_length(&self) -> (length: usize)
        ensures
            length == self.body@.len(),
    {
        self.body.len()
    }

    /// Whether the status says that the request was carried out.
    pub fn is_success(&self) -> (success: bool)
        ensures
            success == (200 <= self.status < 300),
    {
        200 <= self.status && self.status < 300
    }
}

} // verus!
