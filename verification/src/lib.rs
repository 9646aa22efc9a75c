//! Subscription and newsletter logic of a small mailing-list service:
//! validation of subscriber names and e-mail addresses, parsing of HTTP
//! Basic credentials, the decisions of the subscription and publication
//! endpoints, and the database connection URL.

pub mod configuration;
pub mod domain;
pub mod routes;
pub mod text;

use vstd::prelude::*;
use vstd::string::StringExecFns;

verus! {

/// The greeting for `name`, or for the world when no name is given:
/// `Hello {name}!`.
pub open spec fn greeting_text(name: Option<Seq<char>>) -> Seq<char> {
    "Hello "@ + (match name {
        Some(n) => n,
        None => "World"@,
    }) + "!"@
}

/// Greets the name taken from the request path, if any.
pub fn greeting(name: Option<&str>) -> (text: String)
    ensures
        text@ == greeting_text(
            match name {
                Some(n) => Some(n@),
                None => None,
            },
        ),
{
    let name = match name {
        Some(n) => n,
        None => "World",
    };
    let mut text = String::from_str("Hello ");
    text.append(name);
    text.append("!");
    text
}

} // verus!
