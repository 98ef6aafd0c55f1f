use lib_web::error::Error;
use lib_web::middleware::mw_auth::{
    clear_token_cookie_on_failure, ctx_from_req, ctx_resolve_next, ctx_resolve_start,
    set_token_cookie, token_from_cookies, CtxExtError, CtxResolveAction, CtxResolveEvent,
    CtxResolveStep, UserLookup, AUTH_TOKEN,
};
use lib_web::utils::cookie::WebCookie;
use lib_web::utils::cookies::Cookies;

fn jar_with_token(token: &str) -> Cookies {
    Cookies::from_request_cookies(vec![WebCookie::new(AUTH_TOKEN, token)])
}

#[test]
fn ctx_from_req_cases() {
    assert!(matches!(ctx_from_req::<i64>(Some(Ok(7))), Ok(7)));
    assert!(matches!(
        ctx_from_req::<i64>(Some(Err(CtxExtError::UserNotFound))),
        Err(Error::CtxExt(CtxExtError::UserNotFound))
    ));
    assert!(matches!(
        ctx_from_req::<i64>(None),
        Err(Error::CtxExt(CtxExtError::CtxNotInRequestExt))
    ));
}

#[test]
fn token_is_read_from_the_auth_token_cookie() {
    assert_eq!(token_from_cookies(&jar_with_token("tok")).unwrap(), "tok");
    assert!(matches!(
        token_from_cookies(&Cookies::new()),
        Err(CtxExtError::TokenNotInCookie)
    ));
}

#[test]
fn renewed_token_is_read_back() {
    let mut jar = jar_with_token("old");
    set_token_cookie(&mut jar, "new");
    assert_eq!(token_from_cookies(&jar).unwrap(), "new");
    let set = jar.get(AUTH_TOKEN).unwrap();
    assert_eq!(set.path.as_deref(), Some("/"));
    assert_eq!(set.http_only, Some(true));
}

#[test]
fn resolution_without_token_fails_token_not_in_cookie() {
    let (step, action) = ctx_resolve_start(&Cookies::new());
    assert_eq!(step, CtxResolveStep::Finished);
    assert!(matches!(action, CtxResolveAction::Fail(CtxExtError::TokenNotInCookie)));
}

#[test]
fn resolution_succeeds_when_every_check_passes() {
    let (step, action) = ctx_resolve_start(&jar_with_token("tok"));
    assert_eq!(step, CtxResolveStep::ParseToken);
    assert!(matches!(action, CtxResolveAction::ParseToken(ref t) if t == "tok"));
    let (step, action) = ctx_resolve_next(step, CtxResolveEvent::TokenParsed(true));
    assert!(matches!(action, CtxResolveAction::LoadUser));
    let (step, action) = ctx_resolve_next(step, CtxResolveEvent::UserLoaded(UserLookup::Found));
    assert!(matches!(action, CtxResolveAction::ValidateToken));
    let (step, action) = ctx_resolve_next(step, CtxResolveEvent::TokenValidated(true));
    assert!(matches!(action, CtxResolveAction::RenewToken));
    let (step, action) = ctx_resolve_next(step, CtxResolveEvent::TokenRenewed(true));
    assert!(matches!(action, CtxResolveAction::CreateCtx));
    let (step, action) = ctx_resolve_next(step, CtxResolveEvent::CtxCreated(Ok(())));
    assert_eq!(step, CtxResolveStep::Finished);
    assert!(matches!(action, CtxResolveAction::Succeed));
}

#[test]
fn resolution_fails_with_the_first_failed_check() {
    let (s, a) = ctx_resolve_next(CtxResolveStep::ParseToken, CtxResolveEvent::TokenParsed(false));
    assert_eq!(s, CtxResolveStep::Finished);
    assert!(matches!(a, CtxResolveAction::Fail(CtxExtError::TokenWrongFormat)));

    let (_, a) = ctx_resolve_next(
        CtxResolveStep::LoadUser,
        CtxResolveEvent::UserLoaded(UserLookup::NotFound),
    );
    assert!(matches!(a, CtxResolveAction::Fail(CtxExtError::UserNotFound)));

    let (_, a) = ctx_resolve_next(
        CtxResolveStep::LoadUser,
        CtxResolveEvent::UserLoaded(UserLookup::Failed("db down".to_string())),
    );
    assert!(matches!(a, CtxResolveAction::Fail(CtxExtError::ModelAccessError(ref m)) if m == "db down"));

    let (_, a) = ctx_resolve_next(
        CtxResolveStep::ValidateToken,
        CtxResolveEvent::TokenValidated(false),
    );
    assert!(matches!(a, CtxResolveAction::Fail(CtxExtError::FailValidate)));

    let (_, a) = ctx_resolve_next(CtxResolveStep::RenewToken, CtxResolveEvent::TokenRenewed(false));
    assert!(matches!(a, CtxResolveAction::Fail(CtxExtError::CannotSetTokenCookie)));

    let (s, a) = ctx_resolve_next(
        CtxResolveStep::CreateCtx,
        CtxResolveEvent::CtxCreated(Err("root ctx".to_string())),
    );
    assert_eq!(s, CtxResolveStep::Finished);
    assert!(matches!(a, CtxResolveAction::Fail(CtxExtError::CtxCreateFail(ref m)) if m == "root ctx"));
}

#[test]
fn rejected_token_cookie_is_removed() {
    let mut jar = jar_with_token("tok");
    clear_token_cookie_on_failure::<i64>(&mut jar, &Err(CtxExtError::FailValidate));
    assert!(jar.get(AUTH_TOKEN).is_none());
    let delta = jar.delta();
    assert_eq!(delta.len(), 1);
    assert_eq!(delta[0].name, AUTH_TOKEN);
    assert_eq!(delta[0].value, "");
    assert_eq!(delta[0].max_age, Some(0));
    assert!(matches!(
        ctx_resolve_start(&jar).1,
        CtxResolveAction::Fail(CtxExtError::TokenNotInCookie)
    ));
}

#[test]
fn missing_token_or_success_leaves_the_jar() {
    let mut jar = jar_with_token("tok");
    clear_token_cookie_on_failure::<i64>(&mut jar, &Ok(1));
    assert!(jar.delta().is_empty());
    clear_token_cookie_on_failure::<i64>(&mut jar, &Err(CtxExtError::TokenNotInCookie));
    assert!(jar.delta().is_empty());
    assert_eq!(token_from_cookies(&jar).unwrap(), "tok");
}
