use web_core::error::Error;
use web_core::web::mw_auth::{cookie_is_poisoned, ctx_from_request_parts, mw_ctx_resolver,
    mw_require_auth, parse_token};

#[test]
fn parse_token_ok() {
    let (user_id, exp, sign) = parse_token("user-42.exp.sign").unwrap();
    assert_eq!(user_id, 42);
    assert_eq!(exp, "exp");
    assert_eq!(sign, "sign");
}

#[test]
fn parse_token_leading_zeros() {
    let (user_id, _, _) = parse_token("user-007.e.s").unwrap();
    assert_eq!(user_id, 7);
}

#[test]
fn parse_token_splits_at_last_dot() {
    let (user_id, exp, sign) = parse_token("user-12.a.b.c").unwrap();
    assert_eq!(user_id, 12);
    assert_eq!(exp, "a.b");
    assert_eq!(sign, "c");
}

#[test]
fn parse_token_wrong_format() {
    for bad in [
        "",
        "user-",
        "user-1",
        "user-1.",
        "user-1.a",
        "user-1.a.",
        "user-.a.b",
        "user-x.a.b",
        "user1.a.b",
        "User-1.a.b",
        "user-1a.b",
        "user-1.a\nb.c",
        "user-1.a.b\n",
    ] {
        assert!(
            matches!(parse_token(bad), Err(Error::AuthFailTokenWrongFormat)),
            "should refuse {bad:?}"
        );
    }
}

#[test]
fn parse_token_overflow_refused() {
    // One above u64::MAX.
    let res = parse_token("user-18446744073709551616.e.s");
    assert!(matches!(res, Err(Error::AuthFailTokenWrongFormat)));
    // u64::MAX itself still fits.
    let (user_id, _, _) = parse_token("user-18446744073709551615.e.s").unwrap();
    assert_eq!(user_id, u64::MAX);
}

#[test]
fn resolver_no_cookie() {
    let outcome = mw_ctx_resolver(None);
    assert!(matches!(outcome, Err(Error::AuthFailNoAuthTokenCookie)));
    assert!(!cookie_is_poisoned(&outcome));
}

#[test]
fn resolver_bad_token_is_poisoned() {
    let outcome = mw_ctx_resolver(Some("garbage"));
    assert!(matches!(outcome, Err(Error::AuthFailTokenWrongFormat)));
    assert!(cookie_is_poisoned(&outcome));
}

#[test]
fn resolver_good_token() {
    let outcome = mw_ctx_resolver(Some("user-5.exp.sign"));
    let ctx = outcome.as_ref().unwrap();
    assert_eq!(ctx.user_id(), 5);
    assert!(!cookie_is_poisoned(&outcome));
}

#[test]
fn gate_passes_success_and_blocks_failure() {
    let ok = mw_ctx_resolver(Some("user-5.exp.sign"));
    assert!(mw_require_auth(&ok).is_ok());

    let err = mw_ctx_resolver(None);
    let gated = mw_require_auth(&err);
    assert!(matches!(gated, Err(Error::AuthFailNoAuthTokenCookie)));
}

#[test]
fn extractor_without_resolver_is_wiring_error() {
    let res = ctx_from_request_parts(None);
    assert!(matches!(res, Err(Error::AuthFailCtxNotInRequestExt)));
}

#[test]
fn extractor_propagates_stored_outcome() {
    let stored = mw_ctx_resolver(Some("user-9.exp.sign"));
    let res = ctx_from_request_parts(Some(&stored));
    assert_eq!(res.unwrap().user_id(), 9);

    let stored_err = mw_ctx_resolver(Some("broken"));
    let res = ctx_from_request_parts(Some(&stored_err));
    assert!(matches!(res, Err(Error::AuthFailTokenWrongFormat)));
}
