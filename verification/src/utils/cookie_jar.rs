//! The cookie jar of the `cookie` crate (re-exported by `actix_web`), held
//! behind trusted items. Its contents are named by two maps, keyed by cookie
//! name: the cookies the request came with, and the changes made since.

use vstd::prelude::*;
use crate::utils::cookie::{
    expiry_in_range, CookieView, Expiry, SameSitePolicy, WebCookie, EXPIRY_MAX_NANOS,
    EXPIRY_MIN_NANOS,
};
use actix_web::cookie::CookieJar;
use actix_web::cookie::Cookie as RawCookie;
use actix_web::cookie::{Expiration, SameSite};

verus! {

#[verifier::external_type_specification]
#[verifier::external_body]
pub struct ExCookieJar(actix_web::cookie::CookieJar);

#[verifier::external_type_specification]
#[verifier::external_body]
pub struct ExRawCookie<'c>(actix_web::cookie::Cookie<'c>);

#[verifier::external_type_specification]
#[verifier::external_body]
pub struct ExSameSite(actix_web::cookie::SameSite);

#[verifier::external_type_specification]
#[verifier::external_body]
pub struct ExExpiration(actix_web::cookie::Expiration);

/// The original cookies of a jar, keyed by cookie name.
pub type JarOriginals = Map<Seq<char>, CookieView>;

/// The changes held by a jar, keyed by cookie name.
pub type JarChanges = Map<Seq<char>, (CookieView, bool)>;

/// The cookies a jar was filled with by `CookieJar::add_original`, by name.
pub uninterp spec fn jar_originals(jar: CookieJar) -> JarOriginals;

/// The changes held by a jar, by name: the cookie, and whether it records a
/// removal (`true`) or an addition (`false`).
pub uninterp spec fn jar_delta(jar: CookieJar) -> JarChanges;

/// `rc` is the removal cookie that `CookieJar::remove` records for `c`: the
/// same name and attributes, an empty value, a zero `Max-Age`, and an expiry
/// in the past (its instant depends on the clock).
pub open spec fn is_removal_of(rc: CookieView, c: CookieView) -> bool {
    &&& rc.name == c.name
    &&& rc.value == Seq::<char>::empty()
    &&& rc.path == c.path
    &&& rc.domain == c.domain
    &&& rc.http_only == c.http_only
    &&& rc.secure == c.secure
    &&& rc.same_site == c.same_site
    &&& rc.max_age == Some(0i64)
    &&& rc.expires matches Some(Expiry::At(n)) && EXPIRY_MIN_NANOS <= n <= EXPIRY_MAX_NANOS
}

/// Converts a `SameSite` attribute of this library into the `cookie` crate's.
#[verifier::external_body]
fn raw_same_site(s: SameSitePolicy) -> SameSite {
    match s {
        SameSitePolicy::Strict => SameSite::Strict,
        SameSitePolicy::Lax => SameSite::Lax,
        SameSitePolicy::Unrestricted => SameSite::None,
    }
}

/// Converts a `SameSite` attribute of the `cookie` crate into this library's.
#[verifier::external_body]
fn web_same_site(s: SameSite) -> SameSitePolicy {
    match s {
        SameSite::Strict => SameSitePolicy::Strict,
        SameSite::Lax => SameSitePolicy::Lax,
        SameSite::None => SameSitePolicy::Unrestricted,
    }
}

/// Converts an expiry of this library into the `cookie` crate's. An instant in
/// range, which the `requires` asks for, is one the `time` crate holds, so
/// `from_unix_timestamp_nanos` succeeds.
#[verifier::external_body]
fn raw_expiration(e: Expiry) -> Expiration
    requires
        expiry_in_range(Some(e)),
{
    match e {
        Expiry::Session => Expiration::Session,
        Expiry::At(n) => match time::OffsetDateTime::from_unix_timestamp_nanos(n) {
            Ok(t) => Expiration::DateTime(t),
            Err(_) => Expiration::Session,
        },
    }
}

/// Converts an expiry of the `cookie` crate into this library's.
#[verifier::external_body]
fn web_expiry(e: Expiration) -> Expiry {
    match e {
        Expiration::Session => Expiry::Session,
        Expiration::DateTime(t) => Expiry::At(t.unix_timestamp_nanos()),
    }
}

/// Converts a cookie of this library into one of the `cookie` crate. With
/// [`from_raw`] it round-trips every well-formed cookie: each attribute is set
/// as given, an expiry between [`EXPIRY_MIN_NANOS`] and [`EXPIRY_MAX_NANOS`]
/// is a date-time the `time` crate holds, and `set_expires` leaves dates up to
/// the RFC 6265 limit unchanged.
#[verifier::external_body]
pub(crate) fn into_raw(c: WebCookie) -> RawCookie<'static>
    requires
        c@.well_formed(),
{
    let mut raw = RawCookie::new(c.name, c.value);
    if let Some(path) = c.path {
        raw.set_path(path);
    }
    if let Some(domain) = c.domain {
        raw.set_domain(domain);
    }
    raw.set_http_only(c.http_only);
    raw.set_secure(c.secure);
    raw.set_same_site(c.same_site.map(raw_same_site));
    raw.set_max_age(c.max_age.map(time::Duration::seconds));
    if let Some(expires) = c.expires {
        raw.set_expires(raw_expiration(expires));
    }
    raw
}

/// Converts a cookie of the `cookie` crate into one of this library.
#[verifier::external_body]
fn from_raw(raw: &RawCookie<'static>) -> WebCookie {
    WebCookie {
        name: raw.name().to_string(),
        value: raw.value().to_string(),
        path: raw.path().map(str::to_string),
        domain: raw.domain().map(str::to_string),
        http_only: raw.http_only(),
        secure: raw.secure(),
        same_site: raw.same_site().map(web_same_site),
        max_age: raw.max_age().map(time::Duration::whole_seconds),
        expires: raw.expires().map(web_expiry),
    }
}

/// `CookieJar::new`: an empty jar.
#[verifier::external_body]
pub(crate) fn jar_new() -> (jar: CookieJar)
    ensures
        jar_originals(jar) == JarOriginals::empty(),
        jar_delta(jar) == JarChanges::empty(),
{
    CookieJar::new()
}

/// `CookieJar::add_original`: records `cookie` as one the request came with,
/// replacing the one of the same name; the changes are untouched.
#[verifier::external_body]
pub(crate) fn jar_add_original(jar: &mut CookieJar, cookie: WebCookie)
    requires
        cookie@.well_formed(),
    ensures
        jar_originals(*final(jar)) == jar_originals(*old(jar)).insert(cookie@.name, cookie@),
        jar_delta(*final(jar)) == jar_delta(*old(jar)),
{
    jar.add_original(into_raw(cookie))
}

/// `CookieJar::add`: records the addition of `cookie`, replacing the change
/// of the same name; the original cookies are untouched.
#[verifier::external_body]
pub(crate) fn jar_add(jar: &mut CookieJar, cookie: WebCookie)
    requires
        cookie@.well_formed(),
    ensures
        jar_originals(*final(jar)) == jar_originals(*old(jar)),
        jar_delta(*final(jar)) == jar_delta(*old(jar)).insert(cookie@.name, (cookie@, false)),
{
    jar.add(into_raw(cookie))
}

/// `CookieJar::remove`: where the request came with a cookie of that name,
/// records its removal cookie (see [`is_removal_of`]); otherwise drops the
/// change of that name. The original cookies are untouched. The removal
/// cookie expires a year before the current time (`make_removal`); only its
/// range is stated: `set_expires` caps it at the RFC 6265 limit, and the
/// `time` crate, built without `large-dates`, holds no instant before the
/// year -9999.
#[verifier::external_body]
pub(crate) fn jar_remove(jar: &mut CookieJar, cookie: WebCookie)
    requires
        cookie@.well_formed(),
    ensures
        jar_originals(*final(jar)) == jar_originals(*old(jar)),
        jar_originals(*old(jar)).contains_key(cookie@.name) ==> {
            let entry = jar_delta(*final(jar))[cookie@.name];
            &&& jar_delta(*final(jar)) == jar_delta(*old(jar)).insert(cookie@.name, entry)
            &&& entry.1
            &&& is_removal_of(entry.0, cookie@)
        },
        !jar_originals(*old(jar)).contains_key(cookie@.name) ==> jar_delta(*final(jar))
            == jar_delta(*old(jar)).remove(cookie@.name),
{
    jar.remove(into_raw(cookie))
}

/// What `CookieJar::get` finds under `name`: the change of that name, unless
/// it is a removal; else the original cookie of that name.
pub open spec fn jar_lookup(
    originals: JarOriginals,
    delta: JarChanges,
    name: Seq<char>,
) -> Option<CookieView> {
    if delta.contains_key(name) {
        if delta[name].1 {
            None
        } else {
            Some(delta[name].0)
        }
    } else if originals.contains_key(name) {
        Some(originals[name])
    } else {
        None
    }
}

/// The names of the cookies of `s`.
pub open spec fn names_of(s: Seq<WebCookie>) -> Set<Seq<char>> {
    s.map_values(|c: WebCookie| c@.name).to_set()
}

pub open spec fn opt_cookie_view(c: Option<WebCookie>) -> Option<CookieView> {
    match c {
        Some(c) => Some(c@),
        None => None,
    }
}

/// `CookieJar::get`, with the cookie found copied out.
#[verifier::external_body]
pub(crate) fn jar_get(jar: &CookieJar, name: &str) -> (res: Option<WebCookie>)
    ensures
        opt_cookie_view(res) == jar_lookup(jar_originals(*jar), jar_delta(*jar), name@),
{
    jar.get(name).map(from_raw)
}

/// `CookieJar::delta`, with each cookie copied out. The jar walks its changes
/// in the order of a hash set, so only the set of cookies is stated: one per
/// change, with distinct names.
#[verifier::external_body]
pub(crate) fn jar_delta_cookies(jar: &CookieJar) -> (res: Vec<WebCookie>)
    ensures
        res.len() == jar_delta(*jar).dom().len(),
        forall|i: int|
            #![trigger res@[i]]
            0 <= i < res.len() ==> jar_delta(*jar).contains_key(res@[i]@.name) && jar_delta(
                *jar,
            )[res@[i]@.name].0 == res@[i]@,
        forall|i: int, j: int|
            0 <= i < res.len() && 0 <= j < res.len() && i != j ==> res@[i]@.name != res@[j]@.name,
        jar_delta(*jar).dom() == names_of(res@),
{
    jar.delta().map(from_raw).collect()
}

} // verus!
