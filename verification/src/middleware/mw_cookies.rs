//! The `Set-Cookie` header values that write the jar's changes back to the
//! response.

use vstd::prelude::*;
use crate::utils::cookie::{CookieView, WebCookie};
use crate::utils::cookie_jar::{into_raw, names_of};
use crate::utils::cookies::Cookies;
use crate::utils::cookie_jar::JarChanges;
use actix_web::http::header::{HeaderValue, InvalidHeaderValue};

verus! {

#[verifier::external_type_specification]
#[verifier::external_body]
pub struct ExHeaderValue(actix_web::http::header::HeaderValue);

#[verifier::external_type_specification]
#[verifier::external_body]
pub struct ExInvalidHeaderValue(actix_web::http::header::InvalidHeaderValue);

/// The text that `Cookie::encoded` of the `cookie` crate gives for a cookie:
/// `name=value` percent-encoded, then its attributes.
pub uninterp spec fn cookie_encoding(c: CookieView) -> Seq<char>;

/// A character that an HTTP header value may hold: a tab, or any character
/// other than the ASCII controls and DEL.
pub open spec fn is_header_value_char(c: char) -> bool {
    c == '\t' || (c as u32 >= 32 && c as u32 != 127)
}

pub open spec fn is_header_value(s: Seq<char>) -> bool {
    forall|i: int| 0 <= i < s.len() ==> #[trigger] is_header_value_char(s[i])
}

/// All the changes of the jar encode to valid header values.
pub open spec fn changes_encodable(cookies: Cookies) -> bool {
    forall|k: Seq<char>| #[trigger]
        cookies@.changes.contains_key(k) ==> is_header_value(cookie_encoding(cookies@.changes[k].0))
}

/// The text a header value holds.
pub uninterp spec fn header_value_text(v: HeaderValue) -> Seq<char>;

/// `values` send back `changes`, one value per changed name in the order of
/// `names`: `names` lists each changed name once, and each value holds the
/// encoding of the cookie changed under its name.
pub open spec fn sends_changes_as(
    values: Seq<HeaderValue>,
    changes: JarChanges,
    names: Seq<Seq<char>>,
) -> bool {
    &&& names.len() == values.len()
    &&& names.no_duplicates()
    &&& names.to_set() == changes.dom()
    &&& forall|i: int|
        0 <= i < values.len() ==> #[trigger] header_value_text(values[i]) == cookie_encoding(
            changes[names[i]].0,
        )
}

/// `Cookie::encoded` of the `cookie` crate, as a `String`.
#[verifier::external_body]
fn encode_cookie(c: WebCookie) -> (s: String)
    requires
        c@.well_formed(),
    ensures
        s@ == cookie_encoding(c@),
{
    into_raw(c).encoded().to_string()
}

/// `HeaderValue::from_str` of the `http` crate: accepts a string when every
/// byte of it is a tab, or at least 32 and not 127, and then holds a copy of
/// its bytes.
#[verifier::external_body]
fn header_value_from_str(s: &str) -> (r: Result<HeaderValue, InvalidHeaderValue>)
    ensures
        r is Ok <==> is_header_value(s@),
        r matches Ok(v) ==> header_value_text(v) == s@,
{
    HeaderValue::from_str(s)
}

/// The values of the `Set-Cookie` headers that send the jar's changes back:
/// one per changed name, holding the encoding of the cookie changed under that
/// name. Fails when a change does not encode to a valid header value.
pub fn set_cookie_header_values(cookies: &Cookies) -> (res: Result<
    Vec<HeaderValue>,
    InvalidHeaderValue,
>)
    ensures
        res is Ok <==> changes_encodable(*cookies),
        res matches Ok(v) ==> v.len() == cookies@.changes.dom().len(),
        res matches Ok(v) ==> exists|names: Seq<Seq<char>>| #[trigger]
            sends_changes_as(v@, cookies@.changes, names),
{
    let delta = cookies.delta();
    let mut values: Vec<HeaderValue> = Vec::new();
    let n = delta.len();
    let mut i: usize = 0;
    while i < n
        invariant
            n == delta.len(),
            i <= n,
            values.len() == i,
            forall|j: int|
                0 <= j < i ==> #[trigger] header_value_text(values@[j]) == cookie_encoding(
                    delta@[j]@,
                ),
            forall|j: int| 0 <= j < i ==> is_header_value(cookie_encoding(#[trigger] delta@[j]@)),
            forall|j: int|
                #![trigger delta@[j]]
                0 <= j < delta.len() ==> cookies@.changes.contains_key(delta@[j]@.name)
                    && cookies@.changes[delta@[j]@.name].0 == delta@[j]@ && delta@[j]@.well_formed(),
        decreases n - i,
    {
        let s = encode_cookie(delta[i].duplicate());
        match header_value_from_str(s.as_str()) {
            Ok(v) => values.push(v),
            Err(e) => {
                proof {
                    let k = delta@[i as int]@.name;
                    assert(cookies@.changes.contains_key(k));
                }
                return Err(e);
            },
        }
        i = i + 1;
    }
    proof {
        assert forall|k: Seq<char>| #[trigger] cookies@.changes.contains_key(k) implies is_header_value(
            cookie_encoding(cookies@.changes[k].0),
        ) by {
            assert(names_of(delta@).contains(k));
            let names = delta@.map_values(|c: WebCookie| c@.name);
            assert(names.contains(k));
            let j = choose|j: int| 0 <= j < names.len() && #[trigger] names[j] == k;
            assert(delta@[j]@.name == k);
        }
        let names = delta@.map_values(|c: WebCookie| c@.name);
        assert(names.to_set() == cookies@.changes.dom());
        assert(names.no_duplicates()) by {
            assert forall|a: int, b: int|
                0 <= a < names.len() && 0 <= b < names.len() && a != b implies names[a]
                != names[b] by {
                assert(names[a] == delta@[a]@.name);
                assert(names[b] == delta@[b]@.name);
            }
        }
        assert forall|j: int| 0 <= j < values.len() implies #[trigger] header_value_text(
            values@[j],
        ) == cookie_encoding(cookies@.changes[names[j]].0) by {
            assert(names[j] == delta@[j]@.name);
        }
        assert(sends_changes_as(values@, cookies@.changes, names));
    }
    Ok(values)
}

} // verus!
