//! Resolution of the request's authentication context from the auth-token
//! cookie.
//!
//! The resolution alternates outside work (parsing and validating the token,
//! loading the user, renewing the token, creating the context) with
//! decisions. The decisions are the transition function
//! [`ctx_resolve_next`]: the caller performs each action it returns and feeds
//! back the outcome as the next event.
//!
//! IMPORTANT: The resolution itself never fails the request; its result,
//! success or error, is kept with the request so that the middleware that
//! requires authentication, or the handlers, can act on it.

use vstd::prelude::*;
use crate::error::Error;
use crate::utils::cookie::{CookieView, WebCookie};
use crate::utils::cookies::{Cookies, CookiesView};
use crate::utils::cookie_jar::is_removal_of;

verus! {

/// The name of the cookie that carries the web token.
pub const AUTH_TOKEN: &'static str = "auth-token";

pub open spec fn auth_token_name() -> Seq<char> {
    AUTH_TOKEN@
}

#[derive(Debug, Clone)]
pub enum CtxExtError {
    TokenNotInCookie,
    TokenWrongFormat,
    UserNotFound,
    ModelAccessError(String),
    FailValidate,
    CannotSetTokenCookie,
    CtxNotInRequestExt,
    CtxCreateFail(String),
}

/// Get the context resolved by the resolver from what the request holds:
/// `ext` is the resolution result kept with the request, if any.
pub fn ctx_from_req<C>(ext: Option<Result<C, CtxExtError>>) -> (r: Result<C, Error>)
    ensures
        match ext {
            None => r matches Err(Error::CtxExt(CtxExtError::CtxNotInRequestExt)),
            Some(Ok(c)) => r == Ok::<C, Error>(c),
            Some(Err(e)) => r == Err::<C, Error>(Error::CtxExt(e)),
        },
{
    match ext {
        None => Err(Error::CtxExt(CtxExtError::CtxNotInRequestExt)),
        Some(Ok(c)) => Ok(c),
        Some(Err(e)) => Err(Error::CtxExt(e)),
    }
}

/// The web token the request carries: the value of the auth-token cookie.
pub fn token_from_cookies(cookies: &Cookies) -> (r: Result<String, CtxExtError>)
    ensures
        match cookies@.lookup(auth_token_name()) {
            Some(c) => r matches Ok(t) && t@ == c.value,
            None => r matches Err(CtxExtError::TokenNotInCookie),
        },
{
    match cookies.get(AUTH_TOKEN) {
        Some(c) => Ok(c.value),
        None => Err(CtxExtError::TokenNotInCookie),
    }
}

/// The cookie that carries a (renewed) web token: HTTP only, for all paths.
pub open spec fn token_cookie(token: Seq<char>) -> CookieView {
    CookieView {
        path: Some("/"@),
        http_only: Some(true),
        ..CookieView::bare(auth_token_name(), token)
    }
}

/// Send the web token back to the client in the auth-token cookie.
pub fn set_token_cookie(cookies: &mut Cookies, token: &str)
    ensures
        final(cookies)@ == old(cookies)@.added(token_cookie(token@)),
{
    let mut cookie = WebCookie::new(AUTH_TOKEN, token);
    cookie.set_http_only(true);
    cookie.set_path("/");
    cookies.add(cookie);
}

/// The resolution failed for another reason than the request carrying no
/// token: the token it carries is of no use.
pub open spec fn token_rejected<C>(res: Result<C, CtxExtError>) -> bool {
    res is Err && !(res matches Err(CtxExtError::TokenNotInCookie))
}

/// Once the context is resolved: when the token was rejected, remove the
/// auth-token cookie; otherwise leave the jar as it is.
pub fn clear_token_cookie_on_failure<C>(cookies: &mut Cookies, res: &Result<C, CtxExtError>)
    ensures
        token_rejected(*res) ==> old(cookies)@.removed_into(
            CookieView::bare(auth_token_name(), Seq::<char>::empty()),
            final(cookies)@,
        ),
        !token_rejected(*res) ==> final(cookies)@ == old(cookies)@,
        (*res matches Err(e) && !(e is TokenNotInCookie)) ==> old(cookies)@.removed_into(
            CookieView::bare(AUTH_TOKEN@, Seq::<char>::empty()),
            final(cookies)@,
        ),
        (*res is Ok || *res matches Err(CtxExtError::TokenNotInCookie)) ==> final(cookies)@ == old(
            cookies,
        )@,
{
    let rejected = match res {
        Ok(_) => false,
        Err(CtxExtError::TokenNotInCookie) => false,
        Err(_) => true,
    };
    if rejected {
        cookies.remove(WebCookie::named(AUTH_TOKEN));
    }
}

// region:    --- Resolution steps

/// Where the resolution stands: the outside work it waits for.
#[derive(Debug, Clone, Copy, PartialEq, Eq, Structural)]
pub enum CtxResolveStep {
    ParseToken,
    LoadUser,
    ValidateToken,
    RenewToken,
    CreateCtx,
    Finished,
}

/// The outcome of loading the user named by the token.
#[derive(Debug)]
pub enum UserLookup {
    Found,
    NotFound,
    /// The model failed; its message.
    Failed(String),
}

/// The outcome of the outside work the resolution waited for.
#[derive(Debug)]
pub enum CtxResolveEvent {
    /// The token string parsed (`true`) or not.
    TokenParsed(bool),
    UserLoaded(UserLookup),
    /// The token is valid for the user (`true`) or not.
    TokenValidated(bool),
    /// A renewed token was set in the auth-token cookie (`true`) or could not
    /// be made.
    TokenRenewed(bool),
    /// The context was created, or its creation failed with that message.
    CtxCreated(Result<(), String>),
}

/// What to do next.
#[derive(Debug)]
pub enum CtxResolveAction {
    /// Parse this token string.
    ParseToken(String),
    /// Load the user named by the token.
    LoadUser,
    /// Validate the token against the user's token salt.
    ValidateToken,
    /// Renew the token and set it in the auth-token cookie.
    RenewToken,
    /// Create the context of the user.
    CreateCtx,
    /// The resolution ended with this error.
    Fail(CtxExtError),
    /// The resolution ended with the context created.
    Succeed,
}

/// `event` reports the outside work that `step` waits for.
pub open spec fn event_answers(step: CtxResolveStep, event: CtxResolveEvent) -> bool {
    match step {
        CtxResolveStep::ParseToken => event is TokenParsed,
        CtxResolveStep::LoadUser => event is UserLoaded,
        CtxResolveStep::ValidateToken => event is TokenValidated,
        CtxResolveStep::RenewToken => event is TokenRenewed,
        CtxResolveStep::CreateCtx => event is CtxCreated,
        CtxResolveStep::Finished => false,
    }
}

/// The error of the check that `event` reports, when that check failed.
pub open spec fn check_failure(event: CtxResolveEvent) -> Option<CtxExtError> {
    match event {
        CtxResolveEvent::TokenParsed(ok) => if ok {
            None
        } else {
            Some(CtxExtError::TokenWrongFormat)
        },
        CtxResolveEvent::UserLoaded(lookup) => match lookup {
            UserLookup::Found => None,
            UserLookup::NotFound => Some(CtxExtError::UserNotFound),
            UserLookup::Failed(msg) => Some(CtxExtError::ModelAccessError(msg)),
        },
        CtxResolveEvent::TokenValidated(ok) => if ok {
            None
        } else {
            Some(CtxExtError::FailValidate)
        },
        CtxResolveEvent::TokenRenewed(ok) => if ok {
            None
        } else {
            Some(CtxExtError::CannotSetTokenCookie)
        },
        CtxResolveEvent::CtxCreated(res) => match res {
            Ok(()) => None,
            Err(msg) => Some(CtxExtError::CtxCreateFail(msg)),
        },
    }
}

/// The check that comes after `step` in the chain parse, load user, validate,
/// renew, create.
pub open spec fn next_check(step: CtxResolveStep) -> CtxResolveStep {
    match step {
        CtxResolveStep::ParseToken => CtxResolveStep::LoadUser,
        CtxResolveStep::LoadUser => CtxResolveStep::ValidateToken,
        CtxResolveStep::ValidateToken => CtxResolveStep::RenewToken,
        CtxResolveStep::RenewToken => CtxResolveStep::CreateCtx,
        _ => CtxResolveStep::Finished,
    }
}

/// What to do once the check of `step` passed: run the next check, or, after
/// the last one, succeed.
pub open spec fn action_after(step: CtxResolveStep) -> CtxResolveAction {
    match step {
        CtxResolveStep::ParseToken => CtxResolveAction::LoadUser,
        CtxResolveStep::LoadUser => CtxResolveAction::ValidateToken,
        CtxResolveStep::ValidateToken => CtxResolveAction::RenewToken,
        CtxResolveStep::RenewToken => CtxResolveAction::CreateCtx,
        _ => CtxResolveAction::Succeed,
    }
}

/// The step and action that follow `event` at `step`: a failed check ends
/// the resolution with its error; a passed one moves on to the next check.
pub open spec fn resolve_next(step: CtxResolveStep, event: CtxResolveEvent) -> (
    CtxResolveStep,
    CtxResolveAction,
) {
    match check_failure(event) {
        Some(err) => (CtxResolveStep::Finished, CtxResolveAction::Fail(err)),
        None => (next_check(step), action_after(step)),
    }
}

/// Start the resolution: parse the token of the auth-token cookie, or end
/// with `TokenNotInCookie` when there is none.
pub fn ctx_resolve_start(cookies: &Cookies) -> (r: (CtxResolveStep, CtxResolveAction))
    ensures
        match cookies@.lookup(auth_token_name()) {
            Some(c) => r.0 == CtxResolveStep::ParseToken && (r.1 matches CtxResolveAction::ParseToken(
                t,
            ) && t@ == c.value),
            None => r.0 == CtxResolveStep::Finished && r.1 matches CtxResolveAction::Fail(
                CtxExtError::TokenNotInCookie,
            ),
        },
{
    match token_from_cookies(cookies) {
        Ok(token) => (CtxResolveStep::ParseToken, CtxResolveAction::ParseToken(token)),
        Err(e) => (CtxResolveStep::Finished, CtxResolveAction::Fail(e)),
    }
}

/// Decide what follows the outcome of the work `step` waited for.
pub fn ctx_resolve_next(step: CtxResolveStep, event: CtxResolveEvent) -> (r: (
    CtxResolveStep,
    CtxResolveAction,
))
    requires
        event_answers(step, event),
    ensures
        r == resolve_next(step, event),
{
    match event {
        CtxResolveEvent::TokenParsed(ok) => if ok {
            (CtxResolveStep::LoadUser, CtxResolveAction::LoadUser)
        } else {
            (CtxResolveStep::Finished, CtxResolveAction::Fail(CtxExtError::TokenWrongFormat))
        },
        CtxResolveEvent::UserLoaded(lookup) => match lookup {
            UserLookup::Found => (CtxResolveStep::ValidateToken, CtxResolveAction::ValidateToken),
            UserLookup::NotFound => (
                CtxResolveStep::Finished,
                CtxResolveAction::Fail(CtxExtError::UserNotFound),
            ),
            UserLookup::Failed(msg) => (
                CtxResolveStep::Finished,
                CtxResolveAction::Fail(CtxExtError::ModelAccessError(msg)),
            ),
        },
        CtxResolveEvent::TokenValidated(ok) => if ok {
            (CtxResolveStep::RenewToken, CtxResolveAction::RenewToken)
        } else {
            (CtxResolveStep::Finished, CtxResolveAction::Fail(CtxExtError::FailValidate))
        },
        CtxResolveEvent::TokenRenewed(ok) => if ok {
            (CtxResolveStep::CreateCtx, CtxResolveAction::CreateCtx)
        } else {
            (CtxResolveStep::Finished, CtxResolveAction::Fail(CtxExtError::CannotSetTokenCookie))
        },
        CtxResolveEvent::CtxCreated(res) => match res {
            Ok(()) => (CtxResolveStep::Finished, CtxResolveAction::Succeed),
            Err(msg) => (
                CtxResolveStep::Finished,
                CtxResolveAction::Fail(CtxExtError::CtxCreateFail(msg)),
            ),
        },
    }
}

// endregion: --- Resolution steps

// region:    --- Laws

/// The action the resolution ends with when its checks have these outcomes,
/// following [`resolve_next`] from the token parse.
pub open spec fn resolution_end(
    parsed: bool,
    user: UserLookup,
    validated: bool,
    renewed: bool,
    created: Result<(), String>,
) -> CtxResolveAction {
    let (s1, a1) = resolve_next(CtxResolveStep::ParseToken, CtxResolveEvent::TokenParsed(parsed));
    if s1 == CtxResolveStep::Finished {
        a1
    } else {
        let (s2, a2) = resolve_next(CtxResolveStep::LoadUser, CtxResolveEvent::UserLoaded(user));
        if s2 == CtxResolveStep::Finished {
            a2
        } else {
            let (s3, a3) = resolve_next(CtxResolveStep::ValidateToken, CtxResolveEvent::TokenValidated(validated));
            if s3 == CtxResolveStep::Finished {
                a3
            } else {
                let (s4, a4) = resolve_next(CtxResolveStep::RenewToken, CtxResolveEvent::TokenRenewed(renewed));
                if s4 == CtxResolveStep::Finished {
                    a4
                } else {
                    resolve_next(CtxResolveStep::CreateCtx, CtxResolveEvent::CtxCreated(created)).1
                }
            }
        }
    }
}

/// The resolution runs its checks in the order parse, load user, validate,
/// renew, create; it succeeds exactly when all of them pass, and otherwise
/// ends with the error of the first check that failed.
pub proof fn law_resolution_stops_at_first_failure(
    parsed: bool,
    user: UserLookup,
    validated: bool,
    renewed: bool,
    created: Result<(), String>,
)
    ensures
        resolve_next(CtxResolveStep::ParseToken, CtxResolveEvent::TokenParsed(parsed)).0 == (if parsed {
            CtxResolveStep::LoadUser
        } else {
            CtxResolveStep::Finished
        }),
        resolve_next(CtxResolveStep::LoadUser, CtxResolveEvent::UserLoaded(user)).0 == (if user is Found {
            CtxResolveStep::ValidateToken
        } else {
            CtxResolveStep::Finished
        }),
        resolve_next(CtxResolveStep::ValidateToken, CtxResolveEvent::TokenValidated(validated)).0 == (if validated {
            CtxResolveStep::RenewToken
        } else {
            CtxResolveStep::Finished
        }),
        resolve_next(CtxResolveStep::RenewToken, CtxResolveEvent::TokenRenewed(renewed)).0 == (if renewed {
            CtxResolveStep::CreateCtx
        } else {
            CtxResolveStep::Finished
        }),
        resolve_next(CtxResolveStep::CreateCtx, CtxResolveEvent::CtxCreated(created)).0 == CtxResolveStep::Finished,
        resolution_end(parsed, user, validated, renewed, created) is Succeed <==> (parsed
            && user is Found && validated && renewed && created is Ok),
        !parsed ==> resolution_end(parsed, user, validated, renewed, created)
            == CtxResolveAction::Fail(CtxExtError::TokenWrongFormat),
        parsed && user is NotFound ==> resolution_end(parsed, user, validated, renewed, created)
            == CtxResolveAction::Fail(CtxExtError::UserNotFound),
        parsed ==> (user matches UserLookup::Failed(msg) ==> resolution_end(
            parsed,
            user,
            validated,
            renewed,
            created,
        ) == CtxResolveAction::Fail(CtxExtError::ModelAccessError(msg))),
        parsed && user is Found && !validated ==> resolution_end(
            parsed,
            user,
            validated,
            renewed,
            created,
        ) == CtxResolveAction::Fail(CtxExtError::FailValidate),
        parsed && user is Found && validated && !renewed ==> resolution_end(
            parsed,
            user,
            validated,
            renewed,
            created,
        ) == CtxResolveAction::Fail(CtxExtError::CannotSetTokenCookie),
        parsed && user is Found && validated && renewed ==> (created matches Err(msg)
            ==> resolution_end(parsed, user, validated, renewed, created)
            == CtxResolveAction::Fail(CtxExtError::CtxCreateFail(msg))),
{
}

/// A token set in the auth-token cookie is the token that the next read of
/// the cookie gives, so the resolution starts by parsing that very token.
pub proof fn law_renewed_token_is_read_back(v: CookiesView, token: Seq<char>)
    ensures
        v.added(token_cookie(token)).lookup(auth_token_name()) matches Some(c) && c.value == token,
{
}

/// Once a rejected token is cleared, a read of the auth-token cookie finds
/// none: the resolution ends with `TokenNotInCookie` instead of rejecting the
/// same token again.
pub proof fn law_rejected_token_is_cleared<C>(
    res: Result<C, CtxExtError>,
    before: CookiesView,
    after: CookiesView,
)
    requires
        token_rejected(res),
        before.removed_into(CookieView::bare(auth_token_name(), Seq::<char>::empty()), after),
    ensures
        after.lookup(auth_token_name()) is None,
{
}

/// A resolution result rejects the token exactly when it is an error other
/// than `TokenNotInCookie`: a token of the wrong format, of an unknown user,
/// that fails validation or renewal, or whose context cannot be created, or a
/// model failure; never a success.
pub proof fn law_token_rejected_exactly_on_errors_but_missing<C>(c: C, e: CtxExtError)
    ensures
        token_rejected(Err::<C, CtxExtError>(e)) <==> !(e is TokenNotInCookie),
        !token_rejected(Ok::<C, CtxExtError>(c)),
        token_rejected(Err::<C, CtxExtError>(CtxExtError::TokenWrongFormat)),
        token_rejected(Err::<C, CtxExtError>(CtxExtError::UserNotFound)),
        token_rejected(Err::<C, CtxExtError>(CtxExtError::FailValidate)),
        token_rejected(Err::<C, CtxExtError>(CtxExtError::CannotSetTokenCookie)),
        !token_rejected(Err::<C, CtxExtError>(CtxExtError::TokenNotInCookie)),
{
}

/// The renewed token cookie is `auth-token=<token>; HttpOnly; Path=/` and
/// nothing more: a session cookie with no `Max-Age`, no expiry, no domain, no
/// `Secure` and no `SameSite`, so it is never a removal cookie.
pub proof fn law_token_cookie_is_a_session_cookie(token: Seq<char>, c: CookieView)
    ensures
        token_cookie(token).name == AUTH_TOKEN@,
        token_cookie(token).value == token,
        token_cookie(token).path == Some("/"@),
        token_cookie(token).http_only == Some(true),
        token_cookie(token).max_age is None,
        token_cookie(token).expires is None,
        token_cookie(token).domain is None,
        token_cookie(token).secure is None,
        token_cookie(token).same_site is None,
        !is_removal_of(token_cookie(token), c),
{
}

// endregion: --- Laws

} // verus!
