//! Authentication-context resolution.
//!
//! [`parse_token`] is the token codec: it decodes the opaque credential
//! carried by the auth cookie. [`mw_ctx_resolver`] turns the cookie's
//! presence or absence into the request's resolution outcome;
//! [`mw_require_auth`] gates protected routes on that outcome; and
//! [`ctx_from_request_parts`] is the on-demand accessor a handler uses
//! when it needs the authenticated principal.
//!
//! A token is well formed when it reads `user-<digits>.<exp>.<sig>`:
//! the literal prefix `user-`, a non-empty run of decimal digits, a
//! dot, and two non-empty segments separated by a dot, neither holding
//! a line break. The expiration segment is the longest such prefix, so
//! the separating dot is the last one that leaves the signature
//! non-empty. Expiration and signature are accepted without further
//! verification in the current scope: a known gap of the security
//! model, kept deliberately.

use vstd::prelude::*;

use crate::ctx::Ctx;
use crate::error::Error;

verus! {

/// Is `c` a decimal digit?
pub open spec fn is_digit_char(c: char) -> bool {
    48 <= c as u32 <= 57
}

/// Numeric value of the digit `c`.
pub open spec fn digit_val(c: char) -> nat
    recommends
        is_digit_char(c),
{
    (c as u32 - 48) as nat
}

/// Value of a run of decimal digits, most significant first.
pub open spec fn digits_val(s: Seq<char>) -> nat
    recommends
        forall|i: int| 0 <= i < s.len() ==> is_digit_char(s[i]),
    decreases s.len(),
{
    if s.len() == 0 {
        0
    } else {
        digits_val(s.drop_last()) * 10 + digit_val(s.last())
    }
}

/// First position at or after `i` that does not hold a digit (or the
/// end of `s`).
pub open spec fn digit_run_end(s: Seq<char>, i: int) -> int
    recommends
        0 <= i <= s.len(),
    decreases s.len() - i,
{
    if i < s.len() && is_digit_char(s[i]) {
        digit_run_end(s, i + 1)
    } else {
        i
    }
}

/// `s` holds no line break.
pub open spec fn no_newline(s: Seq<char>) -> bool {
    forall|i: int| 0 <= i < s.len() ==> s[i] != '\n'
}

/// Largest position in `[1, j]` where `s` holds a dot, `-1` when there
/// is none.
pub open spec fn last_dot_before(s: Seq<char>, j: int) -> int
    recommends
        j < s.len(),
    decreases j,
{
    if j < 1 {
        -1
    } else if s[j] == '.' {
        j
    } else {
        last_dot_before(s, j - 1)
    }
}

/// The dot that separates expiration from signature: the last one that
/// leaves both segments non-empty.
pub open spec fn split_idx(r: Seq<char>) -> int {
    last_dot_before(r, r.len() - 2)
}

/// `s` starts with the literal `user-` and has more behind it.
pub open spec fn token_prefix_ok(s: Seq<char>) -> bool {
    &&& s.len() > 5
    &&& s[0] == 'u'
    &&& s[1] == 's'
    &&& s[2] == 'e'
    &&& s[3] == 'r'
    &&& s[4] == '-'
}

/// End of the digit run that follows the `user-` prefix.
pub open spec fn digits_end(s: Seq<char>) -> int {
    digit_run_end(s, 5)
}

/// Everything after the dot that closes the digit run.
pub open spec fn token_rest(s: Seq<char>) -> Seq<char> {
    s.subrange(digits_end(s) + 1, s.len() as int)
}

/// Does `s` read `user-<digits>.<exp>.<sig>`?
pub open spec fn token_wf(s: Seq<char>) -> bool {
    &&& token_prefix_ok(s)
    &&& digits_end(s) > 5
    &&& digits_end(s) < s.len()
    &&& s[digits_end(s)] == '.'
    &&& no_newline(token_rest(s))
    &&& split_idx(token_rest(s)) >= 1
}

/// The digit run of `s`.
pub open spec fn token_digits(s: Seq<char>) -> Seq<char> {
    s.subrange(5, digits_end(s))
}

/// The principal id a well-formed token names.
pub open spec fn token_user_id(s: Seq<char>) -> nat {
    digits_val(token_digits(s))
}

/// The expiration segment of a well-formed token.
pub open spec fn token_exp(s: Seq<char>) -> Seq<char> {
    token_rest(s).subrange(0, split_idx(token_rest(s)))
}

/// The signature segment of a well-formed token.
pub open spec fn token_sig(s: Seq<char>) -> Seq<char> {
    token_rest(s).subrange(split_idx(token_rest(s)) + 1, token_rest(s).len() as int)
}

/// Is `c` a decimal digit?
fn is_digit_exec(c: char) -> (r: bool)
    ensures
        r == is_digit_char(c),
{
    let u = c as u32;
    48 <= u && u <= 57
}

/// A prefix of a digit run never exceeds the whole run's value.
proof fn lemma_digits_val_prefix(s: Seq<char>, m: int)
    requires
        0 <= m <= s.len(),
    ensures
        digits_val(s.subrange(0, m)) <= digits_val(s),
    decreases s.len() - m,
{
    if m == s.len() {
        assert(s.subrange(0, m) =~= s);
    } else {
        let t = s.subrange(0, m + 1);
        assert(t.drop_last() =~= s.subrange(0, m));
        lemma_digits_val_prefix(s, m + 1);
    }
}

/// Every character of a digit run is a digit.
proof fn lemma_digit_run(s: Seq<char>, i: int)
    requires
        0 <= i <= s.len(),
    ensures
        i <= digit_run_end(s, i) <= s.len(),
        forall|k: int| i <= k < digit_run_end(s, i) ==> is_digit_char(s[k]),
    decreases s.len() - i,
{
    if i < s.len() && is_digit_char(s[i]) {
        lemma_digit_run(s, i + 1);
    }
}

/// Decode the token format `user-<digits>.<exp>.<sig>`.
///
/// Returns the principal id together with the expiration and signature
/// segments; fails with [`Error::AuthFailTokenWrongFormat`] exactly
/// when the string does not match the pattern or the digit run does
/// not fit an unsigned 64-bit integer.
pub fn parse_token(token: &str) -> (r: Result<(u64, String, String), Error>)
    ensures
        match r {
            Ok((user_id, exp, sign)) => {
                &&& token_wf(token@)
                &&& token_user_id(token@) <= u64::MAX
                &&& user_id == token_user_id(token@)
                &&& exp@ == token_exp(token@)
                &&& sign@ == token_sig(token@)
            },
            Err(e) => {
                &&& e == Error::AuthFailTokenWrongFormat
                &&& !(token_wf(token@) && token_user_id(token@) <= u64::MAX)
            },
        },
{
    let ghost s = token@;
    let n = token.unicode_len();

    // The literal prefix `user-`, with at least one character behind it.
    if n < 6 {
        return Err(Error::AuthFailTokenWrongFormat);
    }
    if token.get_char(0) != 'u' || token.get_char(1) != 's' || token.get_char(2) != 'e'
        || token.get_char(3) != 'r' || token.get_char(4) != '-' {
        return Err(Error::AuthFailTokenWrongFormat);
    }

    // The run of digits behind the prefix.
    let mut de: usize = 5;
    while de < n && is_digit_exec(token.get_char(de))
        invariant
            5 <= de <= n,
            n == s.len(),
            token@ == s,
            digit_run_end(s, 5) == digit_run_end(s, de as int),
        decreases n - de,
    {
        proof {
            assert(digit_run_end(s, de as int) == digit_run_end(s, de + 1));
        }
        de = de + 1;
    }
    proof {
        assert(digit_run_end(s, de as int) == de as int);
        assert(digits_end(s) == de as int);
    }

    if de == 5 {
        return Err(Error::AuthFailTokenWrongFormat);
    }
    if de >= n {
        return Err(Error::AuthFailTokenWrongFormat);
    }
    if token.get_char(de) != '.' {
        return Err(Error::AuthFailTokenWrongFormat);
    }

    // The rest must hold no line break ...
    let rs = de + 1;
    let ghost rest = token_rest(s);
    proof {
        assert(rest =~= s.subrange(rs as int, n as int));
    }
    let mut j = rs;
    while j < n
        invariant
            rs <= j <= n,
            n == s.len(),
            token@ == s,
            rs == digits_end(s) + 1,
            rest == s.subrange(rs as int, n as int),
            forall|k: int| 0 <= k < j - rs ==> rest[k] != '\n',
        decreases n - j,
    {
        if token.get_char(j) == '\n' {
            proof {
                assert(rest[j - rs] == s[j as int]);
            }
            return Err(Error::AuthFailTokenWrongFormat);
        }
        proof {
            assert(rest[j - rs] == s[j as int]);
        }
        j = j + 1;
    }
    proof {
        assert(no_newline(rest));
    }

    // ... and split at the last dot that leaves a non-empty signature.
    let mut k = n - 2;
    let mut split: usize = 0;
    let mut found = false;
    proof {
        assert(rest.len() == n - rs);
        if (k as int) < rs as int {
            assert(last_dot_before(rest, rest.len() - 2) == -1);
        }
    }
    loop
        invariant_except_break
            !found,
        invariant
            rs >= 6,
            k <= n - 2,
            n == s.len(),
            token@ == s,
            rs == digits_end(s) + 1,
            rest == s.subrange(rs as int, n as int),
            k >= rs ==> split_idx(rest) == last_dot_before(rest, k - rs as int),
            k < rs ==> split_idx(rest) < 1,
        ensures
            found ==> rs < split <= n - 2 && split_idx(rest) == split - rs as int,
            !found ==> split_idx(rest) < 1,
        decreases k,
    {
        if k <= rs {
            proof {
                if k == rs {
                    assert(last_dot_before(rest, 0) == -1);
                }
            }
            break;
        }
        if token.get_char(k) == '.' {
            proof {
                assert(rest[k - rs as int] == s[k as int]);
                assert(last_dot_before(rest, k - rs as int) == k - rs as int);
            }
            split = k;
            found = true;
            break;
        }
        proof {
            assert(rest[k - rs as int] == s[k as int]);
            assert(last_dot_before(rest, k - rs as int) == last_dot_before(rest, k - rs as int - 1));
        }
        k = k - 1;
    }
    if !found {
        return Err(Error::AuthFailTokenWrongFormat);
    }
    proof {
        assert(token_wf(s));
    }

    // Value of the digit run, refused when it overflows.
    proof {
        lemma_digit_run(s, 5);
    }
    let mut val: u64 = 0;
    let mut i: usize = 5;
    while i < de
        invariant
            5 <= i <= de,
            de <= n,
            n == s.len(),
            token@ == s,
            digits_end(s) == de as int,
            forall|q: int| 5 <= q < de ==> is_digit_char(s[q]),
            val == digits_val(s.subrange(5, i as int)),
        decreases de - i,
    {
        let c = token.get_char(i);
        proof {
            assert(is_digit_char(s[i as int]));
        }
        let d = (c as u32 - 48) as u64;
        let wide: u128 = val as u128 * 10 + d as u128;
        proof {
            assert(s.subrange(5, i + 1).drop_last() =~= s.subrange(5, i as int));
            assert(s.subrange(5, i + 1).last() == s[i as int]);
        }
        if wide > u64::MAX as u128 {
            proof {
                let run = token_digits(s);
                assert(run.subrange(0, i - 4) =~= s.subrange(5, i + 1));
                lemma_digits_val_prefix(run, i - 4);
            }
            return Err(Error::AuthFailTokenWrongFormat);
        }
        val = wide as u64;
        i = i + 1;
    }
    proof {
        assert(s.subrange(5, de as int) == token_digits(s));
    }

    let exp = token.substring_char(rs, split).to_owned();
    let sign = token.substring_char(split + 1, n).to_owned();
    proof {
        assert(exp@ =~= token_exp(s));
        assert(sign@ =~= token_sig(s));
    }
    Ok((val, exp, sign))
}

/// The digit run from `i` ends exactly at `j` when everything from
/// `i` up to `j` is a digit and the character at `j` is not.
proof fn lemma_digit_run_end_at(s: Seq<char>, i: int, j: int)
    requires
        0 <= i <= j < s.len(),
        forall|k: int| i <= k < j ==> is_digit_char(#[trigger] s[k]),
        !is_digit_char(s[j]),
    ensures
        digit_run_end(s, i) == j,
    decreases j - i,
{
    if i < j {
        lemma_digit_run_end_at(s, i + 1, j);
    }
}

/// Scanning down from `j`, the last dot is at `d` when nothing above
/// it up to `j` is a dot.
proof fn lemma_last_dot_at(s: Seq<char>, d: int, j: int)
    requires
        1 <= d <= j < s.len(),
        s[d] == '.',
        forall|k: int| d < k <= j ==> s[k] != '.',
    ensures
        last_dot_before(s, j) == d,
    decreases j - d,
{
    if d < j {
        lemma_last_dot_at(s, d, j - 1);
    }
}

/// Every string assembled as `user-<digits>.<exp>.<sig>` — a
/// non-empty run of decimal digits, then two non-empty segments
/// without line breaks, the signature without dots — is a well-formed
/// token, and the principal id it names is the value of its digit
/// run. Together with [`parse_token`]'s contract: the codec accepts
/// exactly these strings, and returns exactly these parts.
pub proof fn lemma_token_format(digits: Seq<char>, exp: Seq<char>, sig: Seq<char>)
    requires
        digits.len() > 0,
        forall|i: int| 0 <= i < digits.len() ==> is_digit_char(#[trigger] digits[i]),
        exp.len() > 0,
        no_newline(exp),
        sig.len() > 0,
        no_newline(sig),
        forall|i: int| 0 <= i < sig.len() ==> #[trigger] sig[i] != '.',
    ensures
        ({
            let t = "user-"@ + digits + "."@ + exp + "."@ + sig;
            &&& token_wf(t)
            &&& token_user_id(t) == digits_val(digits)
            &&& token_exp(t) == exp
            &&& token_sig(t) == sig
        }),
{
    reveal_strlit("user-");
    reveal_strlit(".");
    let t = "user-"@ + digits + "."@ + exp + "."@ + sig;
    let dl = digits.len() as int;
    let de = 5 + dl;
    assert(t.len() == 5 + dl + 1 + exp.len() + 1 + sig.len());
    assert(t[0] == 'u' && t[1] == 's' && t[2] == 'e' && t[3] == 'r' && t[4] == '-');
    assert forall|k: int| 5 <= k < de implies is_digit_char(#[trigger] t[k]) by {
        assert(t[k] == digits[k - 5]);
    }
    assert(t[de] == '.');
    assert(!is_digit_char('.'));
    lemma_digit_run_end_at(t, 5, de);
    assert(digits_end(t) == de);
    let rest = token_rest(t);
    assert(rest =~= exp + "."@ + sig);
    let dd = exp.len() as int;
    assert(rest[dd] == '.');
    assert forall|k: int| dd < k < rest.len() implies #[trigger] rest[k] != '.' by {
        assert(rest[k] == sig[k - dd - 1]);
    }
    lemma_last_dot_at(rest, dd, rest.len() - 2);
    assert(split_idx(rest) == dd);
    assert forall|k: int| 0 <= k < rest.len() implies #[trigger] rest[k] != '\n' by {
        if k < dd {
            assert(rest[k] == exp[k]);
        } else if k > dd {
            assert(rest[k] == sig[k - dd - 1]);
        }
    }
    assert(token_wf(t));
    assert(token_digits(t) =~= digits);
    assert(token_exp(t) =~= exp);
    assert(token_sig(t) =~= sig);
}

/// The resolution outcome the resolver owes for a given cookie value:
/// no cookie fails with `AuthFailNoAuthTokenCookie`; a cookie that does
/// not decode fails with `AuthFailTokenWrongFormat`; a well-formed
/// token yields the context of the principal it names.
pub open spec fn resolution_of(auth_token: Option<Seq<char>>, r: Result<Ctx, Error>) -> bool {
    match auth_token {
        None => r == Err::<Ctx, Error>(Error::AuthFailNoAuthTokenCookie),
        Some(t) => {
            if token_wf(t) && token_user_id(t) <= u64::MAX {
                r matches Ok(c) && c.user_id() == token_user_id(t)
            } else {
                r == Err::<Ctx, Error>(Error::AuthFailTokenWrongFormat)
            }
        },
    }
}

/// Resolve the authentication context of a request from the value of
/// its auth cookie, if any. Runs for every request and never rejects
/// the request itself: it stores an outcome, and downstream readers —
/// route guard, extractor, response mapper — decide what it means.
pub fn mw_ctx_resolver(auth_token: Option<&str>) -> (r: Result<Ctx, Error>)
    ensures
        resolution_of(
            match auth_token {
                Some(t) => Some(t@),
                None => None,
            },
            r,
        ),
{
    match auth_token {
        None => Err(Error::AuthFailNoAuthTokenCookie),
        Some(t) => match parse_token(t) {
            Ok((user_id, _exp, _sign)) => Ok(Ctx::new(user_id)),
            Err(e) => Err(e),
        },
    }
}

/// Should the resolver clear the auth cookie? Yes for every failure
/// but the mere absence of the cookie: a cookie that failed to decode
/// is treated as poisoned, while with `AuthFailNoAuthTokenCookie`
/// there is nothing to clear.
pub fn cookie_is_poisoned(result_ctx: &Result<Ctx, Error>) -> (r: bool)
    ensures
        r == (result_ctx matches Err(e) && !(e is AuthFailNoAuthTokenCookie)),
{
    match result_ctx {
        Err(Error::AuthFailNoAuthTokenCookie) => false,
        Err(_) => true,
        Ok(_) => false,
    }
}

/// Gate for protected routes: pass the request through exactly when
/// the stored resolution outcome is a success, abort it with the
/// stored failure otherwise (the handler then never runs).
pub fn mw_require_auth(result_ctx: &Result<Ctx, Error>) -> (r: Result<(), Error>)
    ensures
        result_ctx is Ok <==> r is Ok,
        *result_ctx matches Err(e) ==> r == Err::<(), Error>(e),
{
    match result_ctx {
        Ok(_) => Ok(()),
        Err(e) => Err(e.clone()),
    }
}

/// On-demand accessor for the authenticated principal, used inside a
/// handler body. Fails with `AuthFailCtxNotInRequestExt` when no
/// resolution outcome was ever stored — the resolver middleware is not
/// installed on this route — and otherwise propagates the stored
/// outcome.
pub fn ctx_from_request_parts(stored: Option<&Result<Ctx, Error>>) -> (r: Result<Ctx, Error>)
    ensures
        match stored {
            None => r == Err::<Ctx, Error>(Error::AuthFailCtxNotInRequestExt),
            Some(outcome) => r == *outcome,
        },
{
    match stored {
        None => Err(Error::AuthFailCtxNotInRequestExt),
        Some(Ok(c)) => Ok(c.clone()),
        Some(Err(e)) => Err(e.clone()),
    }
}

} // verus!
