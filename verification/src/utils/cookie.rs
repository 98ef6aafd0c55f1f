use vstd::prelude::*;

verus! {

/// Earliest instant, in nanoseconds since the Unix epoch, that a cookie
/// expiry can hold: -9999-01-01T00:00:00Z, the earliest date of the `time`
/// crate built without `large-dates`.
pub const EXPIRY_MIN_NANOS: i128 = -377_705_116_800_000_000_000i128;

/// Latest instant, in nanoseconds since the Unix epoch, that a cookie expiry
/// can hold (9999-12-31T23:59:59.999999, the limit set by RFC 6265).
pub const EXPIRY_MAX_NANOS: i128 = 253_402_300_799_999_999_000i128;

/// When a cookie expires.
#[derive(Clone, Copy, PartialEq, Eq, Structural, Debug)]
pub enum Expiry {
    /// At the end of the browser session.
    Session,
    /// At the given instant, in nanoseconds since the Unix epoch (UTC).
    At(i128),
}

/// The `SameSite` attribute of a cookie.
#[derive(Clone, Copy, PartialEq, Eq, Structural, Debug)]
pub enum SameSitePolicy {
    Strict,
    Lax,
    /// `SameSite=None`: sent with cross-site requests too.
    Unrestricted,
}

/// An HTTP cookie: its name and value, and its attributes.
#[derive(Clone, Debug)]
pub struct WebCookie {
    pub name: String,
    pub value: String,
    pub path: Option<String>,
    pub domain: Option<String>,
    pub http_only: Option<bool>,
    pub secure: Option<bool>,
    pub same_site: Option<SameSitePolicy>,
    /// The `Max-Age` attribute, in seconds.
    pub max_age: Option<i64>,
    pub expires: Option<Expiry>,
}

/// The mathematical value of a [`WebCookie`].
pub struct CookieView {
    pub name: Seq<char>,
    pub value: Seq<char>,
    pub path: Option<Seq<char>>,
    pub domain: Option<Seq<char>>,
    pub http_only: Option<bool>,
    pub secure: Option<bool>,
    pub same_site: Option<SameSitePolicy>,
    pub max_age: Option<i64>,
    pub expires: Option<Expiry>,
}

pub open spec fn opt_string_view(s: Option<String>) -> Option<Seq<char>> {
    match s {
        Some(s) => Some(s@),
        None => None,
    }
}

impl View for WebCookie {
    type V = CookieView;

    open spec fn view(&self) -> CookieView {
        CookieView {
            name: self.name@,
            value: self.value@,
            path: opt_string_view(self.path),
            domain: opt_string_view(self.domain),
            http_only: self.http_only,
            secure: self.secure,
            same_site: self.same_site,
            max_age: self.max_age,
            expires: self.expires,
        }
    }
}

/// The expiry, if any, lies in the range of instants a cookie can carry.
pub open spec fn expiry_in_range(e: Option<Expiry>) -> bool {
    match e {
        Some(Expiry::At(n)) => EXPIRY_MIN_NANOS <= n <= EXPIRY_MAX_NANOS,
        _ => true,
    }
}

impl CookieView {
    /// A cookie with this name and value and no attributes.
    pub open spec fn bare(name: Seq<char>, value: Seq<char>) -> CookieView {
        CookieView {
            name,
            value,
            path: None,
            domain: None,
            http_only: None,
            secure: None,
            same_site: None,
            max_age: None,
            expires: None,
        }
    }

    pub open spec fn well_formed(self) -> bool {
        expiry_in_range(self.expires)
    }
}

fn clone_opt_string(s: &Option<String>) -> (r: Option<String>)
    ensures
        opt_string_view(r) == opt_string_view(*s),
{
    match s {
        Some(s) => Some(s.clone()),
        None => None,
    }
}

impl WebCookie {
    /// A cookie with the given name and value and no attributes.
    pub fn new(name: &str, value: &str) -> (c: WebCookie)
        ensures
            c@ == CookieView::bare(name@, value@),
    {
        WebCookie {
            name: name.to_owned(),
            value: value.to_owned(),
            path: None,
            domain: None,
            http_only: None,
            secure: None,
            same_site: None,
            max_age: None,
            expires: None,
        }
    }

    /// A cookie with the given name, an empty value and no attributes.
    pub fn named(name: &str) -> (c: WebCookie)
        ensures
            c@ == CookieView::bare(name@, Seq::<char>::empty()),
    {
        proof {
            reveal_strlit("");
            assert(""@ =~= Seq::<char>::empty());
        }
        WebCookie::new(name, "")
    }

    /// A copy of this cookie.
    pub fn duplicate(&self) -> (c: WebCookie)
        ensures
            c@ == self@,
    {
        WebCookie {
            name: self.name.clone(),
            value: self.value.clone(),
            path: clone_opt_string(&self.path),
            domain: clone_opt_string(&self.domain),
            http_only: self.http_only,
            secure: self.secure,
            same_site: self.same_site,
            max_age: self.max_age,
            expires: self.expires,
        }
    }

    pub fn set_path(&mut self, path: &str)
        ensures
            final(self)@ == (CookieView { path: Some(path@), ..old(self)@ }),
    {
        self.path = Some(path.to_owned());
    }

    pub fn set_http_only(&mut self, http_only: bool)
        ensures
            final(self)@ == (CookieView { http_only: Some(http_only), ..old(self)@ }),
    {
        self.http_only = Some(http_only);
    }
}

} // verus!
