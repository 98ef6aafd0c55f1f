//! Request scoped cookie jar.
//!
//! The jar holds the cookies the request came with and records the cookies
//! added and removed while the request is handled; those changes are what
//! the response sends back in `Set-Cookie` headers.

use vstd::prelude::*;
use crate::utils::cookie::{CookieView, WebCookie};
use crate::utils::cookie_jar::{
    is_removal_of, jar_add, jar_add_original, jar_delta, jar_delta_cookies, jar_get, jar_lookup,
    jar_new, jar_originals, jar_remove, names_of, opt_cookie_view, JarChanges, JarOriginals,
};
use actix_web::cookie::CookieJar;

verus! {

/// The cookies of one request, and the changes made to them.
pub struct Cookies {
    jar: CookieJar,
}

/// The mathematical value of a [`Cookies`] jar.
pub struct CookiesView {
    /// The cookies the request came with, by name.
    pub originals: JarOriginals,
    /// The changes made since, by name: the cookie, and whether it records a
    /// removal.
    pub changes: JarChanges,
}

impl View for Cookies {
    type V = CookiesView;

    closed spec fn view(&self) -> CookiesView {
        CookiesView { originals: jar_originals(self.jar), changes: jar_delta(self.jar) }
    }
}

impl CookiesView {
    /// Every cookie is filed under its own name and carries a valid expiry.
    pub open spec fn well_formed(self) -> bool {
        &&& forall|k: Seq<char>| #[trigger]
            self.originals.contains_key(k) ==> self.originals[k].name == k
                && self.originals[k].well_formed()
        &&& forall|k: Seq<char>| #[trigger]
            self.changes.contains_key(k) ==> self.changes[k].0.name == k
                && self.changes[k].0.well_formed()
    }

    /// The cookie that a read of `name` gives back.
    pub open spec fn lookup(self, name: Seq<char>) -> Option<CookieView> {
        jar_lookup(self.originals, self.changes, name)
    }

    /// The jar after `c` is added.
    pub open spec fn added(self, c: CookieView) -> CookiesView {
        CookiesView { originals: self.originals, changes: self.changes.insert(c.name, (c, false)) }
    }

    /// `after` is this jar once `c` is removed: where the request came with a
    /// cookie of that name, a removal cookie is recorded; otherwise the change
    /// of that name, if any, is dropped.
    pub open spec fn removed_into(self, c: CookieView, after: CookiesView) -> bool {
        &&& after.originals == self.originals
        &&& if self.originals.contains_key(c.name) {
            &&& after.changes.contains_key(c.name)
            &&& after.changes == self.changes.insert(c.name, after.changes[c.name])
            &&& after.changes[c.name].1
            &&& is_removal_of(after.changes[c.name].0, c)
        } else {
            after.changes == self.changes.remove(c.name)
        }
    }
}

/// The cookies of `s` by name; of two with one name, the later one.
pub open spec fn cookies_by_name(s: Seq<CookieView>) -> Map<Seq<char>, CookieView>
    decreases s.len(),
{
    if s.len() == 0 {
        Map::empty()
    } else {
        cookies_by_name(s.drop_last()).insert(s.last().name, s.last())
    }
}

pub open spec fn cookie_views(s: Seq<WebCookie>) -> Seq<CookieView> {
    s.map_values(|c: WebCookie| c@)
}

impl Default for Cookies {
    /// An empty jar.
    fn default() -> (res: Cookies)
        ensures
            res@.originals == JarOriginals::empty(),
            res@.changes == JarChanges::empty(),
    {
        Cookies::new()
    }
}

impl Cookies {
    #[verifier::type_invariant]
    closed spec fn inv(self) -> bool {
        self@.well_formed()
    }

    /// An empty jar.
    pub fn new() -> (res: Cookies)
        ensures
            res@.originals == JarOriginals::empty(),
            res@.changes == JarChanges::empty(),
    {
        Cookies { jar: jar_new() }
    }

    /// Create the jar from the cookies received with the request.
    pub fn from_request_cookies(cookies: Vec<WebCookie>) -> (res: Cookies)
        requires
            forall|i: int| 0 <= i < cookies.len() ==> (#[trigger] cookies@[i])@.well_formed(),
        ensures
            res@.originals == cookies_by_name(cookie_views(cookies@)),
            res@.changes == JarChanges::empty(),
    {
        let mut jar = jar_new();
        let n = cookies.len();
        let mut i: usize = 0;
        while i < n
            invariant
                n == cookies.len(),
                i <= n,
                forall|j: int| 0 <= j < cookies.len() ==> (#[trigger] cookies@[j])@.well_formed(),
                jar_originals(jar) == cookies_by_name(cookie_views(cookies@.take(i as int))),
                jar_delta(jar) == JarChanges::empty(),
                (CookiesView { originals: jar_originals(jar), changes: jar_delta(jar) }).well_formed(),
            decreases n - i,
        {
            let c = cookies[i].duplicate();
            let ghost prev = cookies@.take(i as int);
            jar_add_original(&mut jar, c);
            proof {
                let next = cookies@.take(i + 1);
                assert(next.drop_last() =~= prev);
                assert(cookie_views(next).drop_last() =~= cookie_views(prev));
                assert(cookie_views(next).last() == cookies@[i as int]@);
            }
            i = i + 1;
        }
        proof {
            assert(cookies@.take(n as int) =~= cookies@);
        }
        Cookies { jar }
    }

    /// The cookie of that name, as the handlers see it now: the cookie last
    /// added under that name, none if it was removed, else the one the request
    /// came with.
    pub fn get(&self, name: &str) -> (res: Option<WebCookie>)
        ensures
            opt_cookie_view(res) == self@.lookup(name@),
    {
        jar_get(&self.jar, name)
    }

    /// Add (or replace) a cookie to be sent with the response.
    pub fn add(&mut self, cookie: WebCookie)
        requires
            cookie@.well_formed(),
        ensures
            final(self)@ == old(self)@.added(cookie@),
    {
        proof {
            use_type_invariant(&*self);
        }
        let mut jar = jar_new();
        std::mem::swap(&mut jar, &mut self.jar);
        jar_add(&mut jar, cookie);
        self.jar = jar;
    }

    /// Remove a cookie: the response tells the client to drop it when the
    /// request came with it.
    pub fn remove(&mut self, cookie: WebCookie)
        requires
            cookie@.well_formed(),
        ensures
            old(self)@.removed_into(cookie@, final(self)@),
    {
        proof {
            use_type_invariant(&*self);
        }
        let mut jar = jar_new();
        std::mem::swap(&mut jar, &mut self.jar);
        jar_remove(&mut jar, cookie);
        self.jar = jar;
    }

    /// The cookies added/removed during this request, to be written to the
    /// response: one per name that changed, in no particular order.
    pub fn delta(&self) -> (res: Vec<WebCookie>)
        ensures
            res.len() == self@.changes.dom().len(),
            forall|i: int|
                #![trigger res@[i]]
                0 <= i < res.len() ==> self@.changes.contains_key(res@[i]@.name)
                    && self@.changes[res@[i]@.name].0 == res@[i]@ && res@[i]@.well_formed(),
            forall|i: int, j: int|
                0 <= i < res.len() && 0 <= j < res.len() && i != j ==> res@[i]@.name
                    != res@[j]@.name,
            self@.changes.dom() == names_of(res@),
    {
        proof {
            use_type_invariant(self);
        }
        jar_delta_cookies(&self.jar)
    }
}

/// The last cookie of `s` with that name, if any.
pub open spec fn last_named(s: Seq<CookieView>, name: Seq<char>) -> Option<CookieView>
    decreases s.len(),
{
    if s.len() == 0 {
        None
    } else if s.last().name == name {
        Some(s.last())
    } else {
        last_named(s.drop_last(), name)
    }
}

/// A read after an add gives back the cookie added; reads of other names are
/// unchanged.
pub proof fn law_read_after_add(v: CookiesView, c: CookieView, other: Seq<char>)
    ensures
        v.added(c).lookup(c.name) == Some(c),
        other != c.name ==> v.added(c).lookup(other) == v.lookup(other),
{
}

/// After a remove, a read of that name gives nothing, whether or not the
/// request came with it; reads of other names are unchanged.
pub proof fn law_read_after_remove(
    v: CookiesView,
    c: CookieView,
    after: CookiesView,
    other: Seq<char>,
)
    requires
        v.removed_into(c, after),
    ensures
        after.lookup(c.name) == None::<CookieView>,
        other != c.name ==> after.lookup(other) == v.lookup(other),
{
}

/// A jar made from the request's cookies reads back, for each name, the last
/// of them with that name, and has nothing to send back.
pub proof fn law_fresh_jar_reads_request_cookies(cs: Seq<CookieView>, name: Seq<char>)
    ensures
        (CookiesView { originals: cookies_by_name(cs), changes: JarChanges::empty() }).lookup(name)
            == last_named(cs, name),
    decreases cs.len(),
{
    if cs.len() > 0 {
        law_fresh_jar_reads_request_cookies(cs.drop_last(), name);
    }
}

/// Removing a cookie the request did not come with, right after adding it,
/// leaves nothing of that name to send back, and reads of that name as before
/// the add.
pub proof fn law_add_then_remove_unsent(v: CookiesView, c: CookieView, after: CookiesView)
    requires
        !v.originals.contains_key(c.name),
        v.added(c).removed_into(c, after),
    ensures
        !after.changes.contains_key(c.name),
        after.lookup(c.name) == None::<CookieView>,
{
}

/// An add or a remove made on a jar.
pub enum JarOp {
    Add(CookieView),
    Remove(CookieView),
}

impl JarOp {
    pub open spec fn cookie(self) -> CookieView {
        match self {
            JarOp::Add(c) => c,
            JarOp::Remove(c) => c,
        }
    }
}

/// `after` is the jar `before` once `op` is made (by `Cookies::add` or
/// `Cookies::remove`).
pub open spec fn op_made(before: CookiesView, op: JarOp, after: CookiesView) -> bool {
    match op {
        JarOp::Add(c) => after == before.added(c),
        JarOp::Remove(c) => before.removed_into(c, after),
    }
}

/// `jars` are the successive states of a jar as the ops are made in turn.
pub open spec fn ops_made(jars: Seq<CookiesView>, ops: Seq<JarOp>) -> bool {
    &&& jars.len() == ops.len() + 1
    &&& forall|i: int| 0 <= i < ops.len() ==> #[trigger] op_made(jars[i], ops[i], jars[i + 1])
}

/// The last op of `ops` on the cookie named `name`, if any.
pub open spec fn last_op_on(ops: Seq<JarOp>, name: Seq<char>) -> Option<JarOp>
    decreases ops.len(),
{
    if ops.len() == 0 {
        None
    } else if ops.last().cookie().name == name {
        Some(ops.last())
    } else {
        last_op_on(ops.drop_last(), name)
    }
}

/// What the changes hold under `name` after ops on a jar made from the
/// request's cookies `originals`: nothing for an untouched name; the cookie
/// last added if the last op on it was an add; its removal cookie if the last
/// op was a remove and the request came with that name; nothing if the last op
/// was a remove of a name the request did not come with.
pub open spec fn expected_change(
    originals: JarOriginals,
    changes: JarChanges,
    ops: Seq<JarOp>,
    name: Seq<char>,
) -> bool {
    match last_op_on(ops, name) {
        None => !changes.contains_key(name),
        Some(JarOp::Add(c)) => changes.contains_key(name) && changes[name] == (c, false),
        Some(JarOp::Remove(c)) => if originals.contains_key(name) {
            &&& changes.contains_key(name)
            &&& changes[name].1
            &&& is_removal_of(changes[name].0, c)
        } else {
            !changes.contains_key(name)
        },
    }
}

/// After any sequence of adds and removes on a jar made from the request's
/// cookies, the request's cookies are unchanged, and the changes (what
/// `Cookies::delta` hands out, one cookie per name) hold for each name what
/// its last op left: the cookie last added, or its removal cookie where the
/// request came with it, and nothing for names untouched or removed without
/// having come with the request.
pub proof fn law_changes_after_ops(jars: Seq<CookiesView>, ops: Seq<JarOp>, name: Seq<char>)
    requires
        ops_made(jars, ops),
        jars[0].changes == JarChanges::empty(),
    ensures
        jars.last().originals == jars[0].originals,
        expected_change(jars[0].originals, jars.last().changes, ops, name),
    decreases ops.len(),
{
    if ops.len() > 0 {
        let k = ops.len() - 1;
        let jars0 = jars.drop_last();
        let ops0 = ops.drop_last();
        assert forall|i: int| 0 <= i < ops0.len() implies #[trigger] op_made(
            jars0[i],
            ops0[i],
            jars0[i + 1],
        ) by {
            assert(op_made(jars[i], ops[i], jars[i + 1]));
        }
        law_changes_after_ops(jars0, ops0, name);
        assert(op_made(jars[k], ops[k], jars[k + 1]));
        assert(jars0.last() == jars[k]);
    }
}

} // verus!
