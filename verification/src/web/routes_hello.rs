//! The greeting bodies of the demo routes.
//!
//! The two hello routes carry no authentication and no state; what
//! they compute — the markup greeting a name — is built here, and the
//! transport only wraps it in a response.

use vstd::prelude::*;

verus! {

/// Body of the query-parameter route: greets the given name in strong
/// markup, `world` when none was given.
pub fn hello_message(name: Option<&str>) -> (r: String)
    ensures
        r@ == "Hello <strong>"@ + (match name {
            Some(n) => n@,
            None => "world"@,
        }) + "</strong>"@,
{
    let mut out = "Hello <strong>".to_owned();
    match name {
        Some(n) => out.append(n),
        None => out.append("world"),
    }
    out.append("</strong>");
    out
}

/// Body of the path-parameter route: greets the given name plainly.
pub fn hello_path_message(name: &str) -> (r: String)
    ensures
        r@ == "Hello "@ + name@,
{
    let mut out = "Hello ".to_owned();
    out.append(name);
    out
}

} // verus!
