use vstd::prelude::*;
use vstd::string::StringExecFns;

verus! {

/// Body of the answer to `GET /`.
pub fn index_body() -> (body: String)
    ensures
        body@ == "Welcome to icheck, the worlds' most advanced recon server!"@,
{
    String::from_str("Welcome to icheck, the worlds' most advanced recon server!")
}

/// Body of the answer to `POST /echo`: the request body, unchanged.
pub fn echo_body(req_body: String) -> (body: String)
    ensures
        body@ == req_body@,
{
    req_body
}

/// Body of the answer to `GET /hey`.
pub fn hello_body() -> (body: String)
    ensures
        body@ == "Hey there!"@,
{
    String::from_str("Hey there!")
}

/// Greeting written for each client of the plain TCP server.
pub fn client_greeting() -> (greeting: String)
    ensures
        greeting@ == "Hello \u{1F445}"@,
{
    String::from_str("Hello \u{1F445}")
}

} // verus!
