//! The login boundary.
//!
//! In the current scope credentials are checked against the single
//! built-in account, and a successful login mints the auth token the
//! resolver will accept on later requests. The HTTP layer sets the
//! cookie and sends the body; the decision is made here.

use vstd::prelude::*;

use crate::error::Error;
use crate::json::JsonValue;
use crate::strutil::str_eq;
use crate::web::mw_auth::{resolution_of, token_user_id, token_wf};

verus! {

/// What a login request carries.
pub struct LoginPayload {
    pub username: String,
    pub password: String,
}

/// What a successful login hands back: the body to send, and the
/// token to set under the auth cookie.
pub struct LoginSuccess {
    pub body: JsonValue,
    pub auth_token: String,
}

/// The id of the one account the login flow issues: `demo1`.
pub open spec fn demo_user_id() -> nat {
    1
}

/// Is `v` the login success body `{"result": {"success": true}}`?
pub open spec fn is_login_success_body(v: JsonValue) -> bool {
    match v {
        JsonValue::Obj(fs) => {
            &&& fs@.len() == 1
            &&& fs@[0].0@ == "result"@
            &&& fs@[0].1 matches JsonValue::Obj(inner)
            &&& inner@.len() == 1
            &&& inner@[0].0@ == "success"@
            &&& inner@[0].1 == JsonValue::Bool(true)
        },
        _ => false,
    }
}

/// Log in: exactly the pair `demo1` / `welcome` succeeds, minting the
/// auth token `user-1.exp.sign` for the account's principal id; any
/// other pair fails with `LoginFail`.
pub fn api_login(payload: LoginPayload) -> (r: Result<LoginSuccess, Error>)
    ensures
        if payload.username@ == "demo1"@ && payload.password@ == "welcome"@ {
            r matches Ok(s) && s.auth_token@ == "user-1.exp.sign"@ && is_login_success_body(s.body)
        } else {
            r == Err::<LoginSuccess, Error>(Error::LoginFail)
        },
{
    if !str_eq(payload.username.as_str(), "demo1") || !str_eq(
        payload.password.as_str(),
        "welcome",
    ) {
        return Err(Error::LoginFail);
    }

    let mut inner: Vec<(String, JsonValue)> = Vec::new();
    inner.push(("success".to_owned(), JsonValue::Bool(true)));
    let mut fs: Vec<(String, JsonValue)> = Vec::new();
    fs.push(("result".to_owned(), JsonValue::Obj(inner)));

    Ok(LoginSuccess { body: JsonValue::Obj(fs), auth_token: "user-1.exp.sign".to_owned() })
}

/// The token a successful login mints is well formed and names the
/// account's principal id.
pub proof fn lemma_login_token_wf()
    ensures
        token_wf("user-1.exp.sign"@),
        token_user_id("user-1.exp.sign"@) == demo_user_id(),
{
    reveal_strlit("user-1.exp.sign");
    let s = "user-1.exp.sign"@;
    assert(s.len() == 15);
    assert(s[5] == '1');
    assert(s[6] == '.');
    assert(crate::web::mw_auth::digit_run_end(s, 6) == 6);
    assert(crate::web::mw_auth::digit_run_end(s, 5) == 6);
    let rest = crate::web::mw_auth::token_rest(s);
    assert(rest =~= s.subrange(7, 15));
    assert(rest.len() == 8);
    assert(rest[3] == '.');
    assert(rest[4] == 's');
    assert(rest[5] == 'i');
    assert(rest[6] == 'g');
    assert(crate::web::mw_auth::last_dot_before(rest, 6) == crate::web::mw_auth::last_dot_before(
        rest,
        5,
    ));
    assert(crate::web::mw_auth::last_dot_before(rest, 5) == crate::web::mw_auth::last_dot_before(
        rest,
        4,
    ));
    assert(crate::web::mw_auth::last_dot_before(rest, 4) == crate::web::mw_auth::last_dot_before(
        rest,
        3,
    ));
    assert(crate::web::mw_auth::last_dot_before(rest, 3) == 3);
    assert(crate::web::mw_auth::split_idx(rest) == 3);
    let run = crate::web::mw_auth::token_digits(s);
    assert(run =~= s.subrange(5, 6));
    assert(run.last() == '1');
    assert(run.drop_last() =~= Seq::<char>::empty());
    assert(crate::web::mw_auth::digits_val(Seq::<char>::empty()) == 0);
    assert(crate::web::mw_auth::digits_val(run) == 1);
}

/// Round trip: a request whose auth cookie carries the token a
/// successful login minted always resolves to a success whose
/// principal id is the one the login issued.
pub proof fn lemma_login_resolve_round_trip(
    token: Seq<char>,
    outcome: Result<crate::ctx::Ctx, Error>,
)
    requires
        token == "user-1.exp.sign"@,
        resolution_of(Some(token), outcome),
    ensures
        outcome matches Ok(c) && c.user_id() == demo_user_id(),
{
    lemma_login_token_wf();
}

} // verus!
