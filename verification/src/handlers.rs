//! The pure cores of the request handlers: each is a function from its
//! typed input to the response text, with an exact contract. Routing,
//! parameter extraction, JSON envelopes, and status codes belong to the
//! external router and response-formatting collaborators around the library.

use vstd::prelude::*;

verus! {

/// A transient, request-scoped record of the two optional query-string
/// parameters, constructed per request and discarded after the handler
/// returns.
pub struct Params {
    pub first: Option<String>,
    pub second: Option<String>,
}

/// The message body of the route `GET /`.
pub fn root() -> (r: String)
    ensures
        r@ == "I am GET /"@,
{
    String::from_str("I am GET /")
}

/// The route `GET /echo/:echo` returns the extracted path segment unchanged.
pub fn echo(segment: String) -> (r: String)
    ensures
        r@ == segment@,
{
    segment
}

/// The message body of the route `GET /foo`.
pub fn get_foo() -> (r: String)
    ensures
        r@ == "I am GET /foo"@,
{
    String::from_str("I am GET /foo")
}

/// The message body of the route `POST /foo`.
pub fn post_foo() -> (r: String)
    ensures
        r@ == "I am POST /foo"@,
{
    String::from_str("I am POST /foo")
}

/// The message body of the route `POST /foo/:name`: a fixed prefix followed
/// by the extracted `name` path segment.
pub fn post_foo_name(name: String) -> (r: String)
    ensures
        r@ == "I am POST /foo/:name, name="@ + name@,
{
    let prefix = String::from_str("I am POST /foo/:name, name=");
    prefix.concat(name.as_str())
}

/// The route `GET /parameters` reports the request's parameter bundle back
/// to the caller unchanged; serializing it is the response formatter's job.
pub fn get_parameters(params: Params) -> (r: Params)
    ensures
        r == params,
{
    params
}

/// The body text reported for a given health state.
pub fn health_message(health: bool) -> (r: String)
    ensures
        health ==> r@ == "Healthy!"@,
        !health ==> r@ == "Not healthy!"@,
{
    match health {
        true => String::from_str("Healthy!"),
        false => String::from_str("Not healthy!"),
    }
}

/// The route `GET /health/`: the service is always healthy, and reports a
/// success status (`true`) together with the corresponding body text.
pub fn health_check() -> (r: (bool, String))
    ensures
        r.0 == true,
        r.1@ == "Healthy!"@,
{
    let health = true;
    (health, health_message(health))
}

} // verus!
