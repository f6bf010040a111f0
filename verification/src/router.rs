//! Routing of a request to its S3 operation.
//!
//! Routes are grouped by HTTP method and path shape. Within a group the
//! routes stand in priority order: first routes with both a query tag
//! and a query pattern, then query tag only, then query pattern only,
//! then the rest, each block ordered by more query patterns, more
//! required queries, more required headers first. Resolution walks the
//! group in that order: with a query set present, the first route whose
//! query tag (a bare name) and query pattern (an exact `name=value`
//! pair) both hold wins; otherwise the first route whose required
//! queries and headers are all present wins; otherwise the group's
//! catch-all, if it has one.

use vstd::prelude::*;

use crate::ops::OperationType;
use crate::path::S3PathData;
use crate::query::{qs_has_bare, qs_has_name, qs_has_pair, OrderedQs};
use crate::req::{headers_contains, headers_has_name, Header, Method};

verus! {

/// One entry of the routing table.
pub struct Route {
    pub op: OperationType,
    pub query_tag: Option<&'static str>,
    pub query_pattern: Option<(&'static str, &'static str)>,
    pub required_queries: Vec<&'static str>,
    pub required_headers: Vec<&'static str>,
    pub needs_full_body: bool,
}

/// Whether the route's query tag and query pattern both hold of the
/// query set. A route with neither never matches by tag or pattern.
pub open spec fn spec_tag_match(r: Route, q: Seq<(Seq<char>, Seq<char>)>) -> bool {
    match (r.query_tag, r.query_pattern) {
        (Some(t), Some(p)) => qs_has_bare(q, t@) && qs_has_pair(q, p.0@, p.1@),
        (Some(t), None) => qs_has_bare(q, t@),
        (None, Some(p)) => qs_has_pair(q, p.0@, p.1@),
        (None, None) => false,
    }
}

/// Whether the route matches by its required queries and headers: it
/// has no query tag or pattern, demands at least one query or header,
/// and everything demanded is present.
pub open spec fn spec_required_match(
    r: Route,
    q: Option<Seq<(Seq<char>, Seq<char>)>>,
    h: Seq<Header>,
) -> bool {
    &&& r.query_tag is None
    &&& r.query_pattern is None
    &&& r.required_queries@.len() + r.required_headers@.len() > 0
    &&& (r.required_queries@.len() > 0 ==> (q matches Some(qv) && forall|k: int|
        0 <= k < r.required_queries@.len() ==> qs_has_name(qv, r.required_queries@[k]@)))
    &&& forall|k: int|
        0 <= k < r.required_headers@.len() ==> headers_has_name(h, r.required_headers@[k]@)
}

/// A catch-all route demands nothing.
pub open spec fn spec_is_catch_all(r: Route) -> bool {
    &&& r.query_tag is None
    &&& r.query_pattern is None
    &&& r.required_queries@.len() == 0
    &&& r.required_headers@.len() == 0
}

/// The first route of `g` matching by query tag or pattern.
pub open spec fn spec_first_tag_match(g: Seq<Route>, q: Seq<(Seq<char>, Seq<char>)>) -> Option<
    Route,
>
    decreases g.len(),
{
    if g.len() == 0 {
        None
    } else if spec_tag_match(g[0], q) {
        Some(g[0])
    } else {
        spec_first_tag_match(g.skip(1), q)
    }
}

/// The first route of `g` matching by required queries and headers.
pub open spec fn spec_first_required_match(
    g: Seq<Route>,
    q: Option<Seq<(Seq<char>, Seq<char>)>>,
    h: Seq<Header>,
) -> Option<Route>
    decreases g.len(),
{
    if g.len() == 0 {
        None
    } else if spec_required_match(g[0], q, h) {
        Some(g[0])
    } else {
        spec_first_required_match(g.skip(1), q, h)
    }
}

/// The first catch-all route of `g`.
pub open spec fn spec_first_catch_all(g: Seq<Route>) -> Option<Route>
    decreases g.len(),
{
    if g.len() == 0 {
        None
    } else if spec_is_catch_all(g[0]) {
        Some(g[0])
    } else {
        spec_first_catch_all(g.skip(1))
    }
}

/// What resolution answers for a route group: a singleton group answers
/// its one route; otherwise the first tag-or-pattern match when a query
/// set is present, else the first required-queries-and-headers match,
/// else the catch-all.
pub open spec fn spec_resolve_group(
    g: Seq<Route>,
    q: Option<Seq<(Seq<char>, Seq<char>)>>,
    h: Seq<Header>,
) -> Option<(OperationType, bool)> {
    if g.len() == 0 {
        None
    } else if g.len() == 1 {
        Some((g[0].op, g[0].needs_full_body))
    } else {
        {
            let m1 = match q {
                Some(qv) => spec_first_tag_match(g, qv),
                None => None,
            };
            match m1 {
                Some(r) => Some((r.op, r.needs_full_body)),
                None => match spec_first_required_match(g, q, h) {
                    Some(r) => Some((r.op, r.needs_full_body)),
                    None => match spec_first_catch_all(g) {
                        Some(r) => Some((r.op, r.needs_full_body)),
                        None => None,
                    },
                },
            }
        }
    }
}

proof fn lemma_first_tag_match(g: Seq<Route>, q: Seq<(Seq<char>, Seq<char>)>, k: int)
    requires
        0 <= k < g.len(),
        spec_tag_match(g[k], q),
        forall|j: int| 0 <= j < k ==> !spec_tag_match(g[j], q),
    ensures
        spec_first_tag_match(g, q) == Some(g[k]),
    decreases g.len(),
{
    if k == 0 {
    } else {
        assert forall|j: int| 0 <= j < k - 1 implies !spec_tag_match(g.skip(1)[j], q) by {
            assert(!spec_tag_match(g[j + 1], q));
        }
        lemma_first_tag_match(g.skip(1), q, k - 1);
    }
}

proof fn lemma_no_tag_match(g: Seq<Route>, q: Seq<(Seq<char>, Seq<char>)>)
    requires
        forall|j: int| 0 <= j < g.len() ==> !spec_tag_match(g[j], q),
    ensures
        spec_first_tag_match(g, q) is None,
    decreases g.len(),
{
    if g.len() > 0 {
        assert forall|j: int| 0 <= j < g.len() - 1 implies !spec_tag_match(g.skip(1)[j], q) by {
            assert(!spec_tag_match(g[j + 1], q));
        }
        lemma_no_tag_match(g.skip(1), q);
    }
}

proof fn lemma_first_required_match(
    g: Seq<Route>,
    q: Option<Seq<(Seq<char>, Seq<char>)>>,
    h: Seq<Header>,
    k: int,
)
    requires
        0 <= k < g.len(),
        spec_required_match(g[k], q, h),
        forall|j: int| 0 <= j < k ==> !spec_required_match(g[j], q, h),
    ensures
        spec_first_required_match(g, q, h) == Some(g[k]),
    decreases g.len(),
{
    if k == 0 {
    } else {
        assert forall|j: int| 0 <= j < k - 1 implies !spec_required_match(g.skip(1)[j], q, h) by {
            assert(!spec_required_match(g[j + 1], q, h));
        }
        lemma_first_required_match(g.skip(1), q, h, k - 1);
    }
}

proof fn lemma_no_required_match(
    g: Seq<Route>,
    q: Option<Seq<(Seq<char>, Seq<char>)>>,
    h: Seq<Header>,
)
    requires
        forall|j: int| 0 <= j < g.len() ==> !spec_required_match(g[j], q, h),
    ensures
        spec_first_required_match(g, q, h) is None,
    decreases g.len(),
{
    if g.len() > 0 {
        assert forall|j: int| 0 <= j < g.len() - 1 implies !spec_required_match(
            g.skip(1)[j],
            q,
            h,
        ) by {
            assert(!spec_required_match(g[j + 1], q, h));
        }
        lemma_no_required_match(g.skip(1), q, h);
    }
}

proof fn lemma_first_catch_all(g: Seq<Route>, k: int)
    requires
        0 <= k < g.len(),
        spec_is_catch_all(g[k]),
        forall|j: int| 0 <= j < k ==> !spec_is_catch_all(g[j]),
    ensures
        spec_first_catch_all(g) == Some(g[k]),
    decreases g.len(),
{
    if k == 0 {
    } else {
        assert forall|j: int| 0 <= j < k - 1 implies !spec_is_catch_all(g.skip(1)[j]) by {
            assert(!spec_is_catch_all(g[j + 1]));
        }
        lemma_first_catch_all(g.skip(1), k - 1);
    }
}

proof fn lemma_no_catch_all(g: Seq<Route>)
    requires
        forall|j: int| 0 <= j < g.len() ==> !spec_is_catch_all(g[j]),
    ensures
        spec_first_catch_all(g) is None,
    decreases g.len(),
{
    if g.len() > 0 {
        assert forall|j: int| 0 <= j < g.len() - 1 implies !spec_is_catch_all(g.skip(1)[j]) by {
            assert(!spec_is_catch_all(g[j + 1]));
        }
        lemma_no_catch_all(g.skip(1));
    }
}

/// The route's priority class: both a query tag and a pattern, tag
/// only, pattern only, or neither.
pub open spec fn spec_route_class(r: Route) -> int {
    match (r.query_tag, r.query_pattern) {
        (Some(_), Some(_)) => 1,
        (Some(_), None) => 2,
        (None, Some(_)) => 3,
        (None, None) => 4,
    }
}

/// The priority order on routes: a lower class first; within a class,
/// a pattern before none, then more required queries, then more
/// required headers. (Ties beyond that are broken by the table's own
/// order.)
pub open spec fn spec_priority_leq(a: Route, b: Route) -> bool {
    if spec_route_class(a) != spec_route_class(b) {
        spec_route_class(a) < spec_route_class(b)
    } else if a.required_queries@.len() != b.required_queries@.len() {
        a.required_queries@.len() > b.required_queries@.len()
    } else {
        a.required_headers@.len() >= b.required_headers@.len()
    }
}

/// Whether a group stands in priority order.
pub open spec fn group_priority_sorted(g: Seq<Route>) -> bool {
    forall|j: int| 0 <= j < g.len() - 1 ==> spec_priority_leq(#[trigger] g[j], g[j + 1])
}

fn route_class(r: &Route) -> (c: u32)
    ensures
        c == spec_route_class(*r),
{
    match (&r.query_tag, &r.query_pattern) {
        (Some(_), Some(_)) => 1,
        (Some(_), None) => 2,
        (None, Some(_)) => 3,
        (None, None) => 4,
    }
}

/// Check that a group stands in priority order.
pub fn check_group_priority_sorted(g: &Vec<Route>) -> (b: bool)
    ensures
        b == group_priority_sorted(g@),
{
    let n = g.len();
    if n == 0 {
        return true;
    }
    let mut j: usize = 0;
    while j < n - 1
        invariant
            0 <= j <= n - 1,
            n == g@.len(),
            n >= 1,
            forall|i: int| 0 <= i < j ==> spec_priority_leq(#[trigger] g@[i], g@[i + 1]),
        decreases n - j,
    {
        let a = &g[j];
        let b = &g[j + 1];
        let ca = route_class(a);
        let cb = route_class(b);
        let ok = if ca != cb {
            ca < cb
        } else if a.required_queries.len() != b.required_queries.len() {
            a.required_queries.len() > b.required_queries.len()
        } else {
            a.required_headers.len() >= b.required_headers.len()
        };
        if !ok {
            return false;
        }
        j = j + 1;
    }
    true
}

/// How many catch-all routes a group holds.
pub open spec fn spec_catch_all_count(g: Seq<Route>) -> int
    decreases g.len(),
{
    if g.len() == 0 {
        0
    } else {
        (if spec_is_catch_all(g[0]) {
            1int
        } else {
            0int
        }) + spec_catch_all_count(g.skip(1))
    }
}

/// A group without catch-all routes counts none.
pub proof fn lemma_catch_all_count_zero(g: Seq<Route>)
    requires
        forall|j: int| 0 <= j < g.len() ==> !spec_is_catch_all(#[trigger] g[j]),
    ensures
        spec_catch_all_count(g) == 0,
    decreases g.len(),
{
    if g.len() > 0 {
        assert forall|j: int| 0 <= j < g.skip(1).len() implies !spec_is_catch_all(
            #[trigger] g.skip(1)[j],
        ) by {
            assert(g.skip(1)[j] == g[j + 1]);
        }
        lemma_catch_all_count_zero(g.skip(1));
    }
}

/// A group whose catch-all, if any, stands last holds at most one.
pub proof fn lemma_catch_all_count_last(g: Seq<Route>)
    requires
        forall|j: int| 0 <= j < g.len() - 1 ==> !spec_is_catch_all(#[trigger] g[j]),
    ensures
        spec_catch_all_count(g) <= 1,
    decreases g.len(),
{
    if g.len() == 0 {
    } else if g.len() == 1 {
        assert(g.skip(1) =~= Seq::<Route>::empty());
        assert(spec_catch_all_count(g) == (if spec_is_catch_all(g[0]) {
            1int
        } else {
            0int
        }) + spec_catch_all_count(g.skip(1)));
        assert(spec_catch_all_count(g.skip(1)) == 0);
    } else {
        assert(!spec_is_catch_all(g[0]));
        assert forall|j: int| 0 <= j < g.skip(1).len() - 1 implies !spec_is_catch_all(
            #[trigger] g.skip(1)[j],
        ) by {
            assert(g.skip(1)[j] == g[j + 1]);
        }
        lemma_catch_all_count_last(g.skip(1));
        assert(spec_catch_all_count(g) == (if spec_is_catch_all(g[0]) {
            1int
        } else {
            0int
        }) + spec_catch_all_count(g.skip(1)));
    }
}

/// Count the catch-all routes of a group.
pub fn count_catch_alls(g: &Vec<Route>) -> (c: usize)
    ensures
        c == spec_catch_all_count(g@),
{
    let n = g.len();
    let mut c: usize = 0;
    let mut i: usize = 0;
    proof {
        assert(g@.skip(0) =~= g@);
    }
    while i < n
        invariant
            0 <= i <= n,
            n == g@.len(),
            c <= i,
            spec_catch_all_count(g@) == c + spec_catch_all_count(g@.skip(i as int)),
        decreases n - i,
    {
        proof {
            let t = g@.skip(i as int);
            assert(t[0] == g@[i as int]);
            assert(t.skip(1) =~= g@.skip(i + 1));
        }
        if is_catch_all(&g[i]) {
            c = c + 1;
        }
        i = i + 1;
    }
    proof {
        assert(g@.skip(n as int) =~= Seq::<Route>::empty());
    }
    c
}

/// Whether the route's query tag and pattern both hold of `qs`.
fn tag_match(r: &Route, qs: &OrderedQs) -> (b: bool)
    ensures
        b == spec_tag_match(*r, qs@),
{
    let tag_ok = match r.query_tag {
        Some(t) => qs.has_bare(t),
        None => false,
    };
    let pat_ok = match r.query_pattern {
        Some((n, v)) => qs.check_pattern(n, v),
        None => false,
    };
    match (r.query_tag, r.query_pattern) {
        (Some(_), Some(_)) => tag_ok && pat_ok,
        (Some(_), None) => tag_ok,
        (None, Some(_)) => pat_ok,
        (None, None) => false,
    }
}

/// Whether everything the route requires is present.
fn required_match(r: &Route, qs: Option<&OrderedQs>, headers: &Vec<Header>) -> (b: bool)
    ensures
        b == spec_required_match(
            *r,
            match qs {
                Some(q) => Some(q@),
                None => None,
            },
            headers@,
        ),
{
    if r.query_tag.is_some() || r.query_pattern.is_some() {
        return false;
    }
    let nq = r.required_queries.len();
    let nh = r.required_headers.len();
    if nq == 0 && nh == 0 {
        return false;
    }
    if nq > 0 {
        if qs.is_none() {
            return false;
        }
        let q = qs.unwrap();
        let mut k: usize = 0;
        while k < nq
            invariant
                0 <= k <= nq,
                nq == r.required_queries@.len(),
                qs is Some && q == qs->Some_0,
                forall|j: int| 0 <= j < k ==> qs_has_name(q@, r.required_queries@[j]@),
            decreases nq - k,
        {
            if !q.has(r.required_queries[k]) {
                proof {
                    let qvv: Option<Seq<(Seq<char>, Seq<char>)>> = match qs {
                        Some(qq) => Some(qq@),
                        None => None,
                    };
                    assert(qvv == Some(q@));
                    assert(!qs_has_name(q@, r.required_queries@[k as int]@));
                    assert(!spec_required_match(*r, qvv, headers@));
                }
                return false;
            }
            k = k + 1;
        }
    }
    let mut k: usize = 0;
    while k < nh
        invariant
            0 <= k <= nh,
            nh == r.required_headers@.len(),
            forall|j: int| 0 <= j < k ==> headers_has_name(headers@, r.required_headers@[j]@),
        decreases nh - k,
    {
        if !headers_contains(headers, r.required_headers[k]) {
            return false;
        }
        k = k + 1;
    }
    true
}

/// Whether the route demands nothing.
fn is_catch_all(r: &Route) -> (b: bool)
    ensures
        b == spec_is_catch_all(*r),
{
    r.query_tag.is_none() && r.query_pattern.is_none() && r.required_queries.len() == 0
        && r.required_headers.len() == 0
}

/// Resolve a request against one route group.
pub fn resolve_in_group(g: &Vec<Route>, qs: Option<&OrderedQs>, headers: &Vec<Header>) -> (r:
    Option<(OperationType, bool)>)
    ensures
        r == spec_resolve_group(
            g@,
            match qs {
                Some(q) => Some(q@),
                None => None,
            },
            headers@,
        ),
{
    let ghost qv: Option<Seq<(Seq<char>, Seq<char>)>> = match qs {
        Some(q) => Some(q@),
        None => None,
    };
    let n = g.len();
    if n == 0 {
        return None;
    }
    if n == 1 {
        return Some((g[0].op, g[0].needs_full_body));
    }
    if qs.is_some() {
        let q = qs.unwrap();
        let mut i: usize = 0;
        while i < n
            invariant
                0 <= i <= n,
                n == g@.len(),
                qs is Some && q == qs->Some_0,
                forall|j: int| 0 <= j < i ==> !spec_tag_match(g@[j], q@),
            decreases n - i,
        {
            if tag_match(&g[i], q) {
                proof {
                    lemma_first_tag_match(g@, q@, i as int);
                }
                return Some((g[i].op, g[i].needs_full_body));
            }
            i = i + 1;
        }
        proof {
            lemma_no_tag_match(g@, q@);
        }
    }
    let mut i: usize = 0;
    while i < n
        invariant
            0 <= i <= n,
            n == g@.len(),
            forall|j: int| 0 <= j < i ==> !spec_required_match(g@[j], qv, headers@),
            qv == match qs {
                Some(q) => Some(q@),
                None => None,
            },
            match qs {
                Some(q) => spec_first_tag_match(g@, q@) is None,
                None => true,
            },
        decreases n - i,
    {
        if required_match(&g[i], qs, headers) {
            proof {
                lemma_first_required_match(g@, qv, headers@, i as int);
                assert(spec_first_required_match(g@, qv, headers@) == Some(g@[i as int]));
                assert(spec_resolve_group(g@, qv, headers@) == Some(
                    (g@[i as int].op, g@[i as int].needs_full_body),
                ));
            }
            return Some((g[i].op, g[i].needs_full_body));
        }
        i = i + 1;
    }
    proof {
        lemma_no_required_match(g@, qv, headers@);
    }
    let mut i: usize = 0;
    while i < n
        invariant
            0 <= i <= n,
            n == g@.len(),
            forall|j: int| 0 <= j < i ==> !spec_is_catch_all(g@[j]),
            qv == match qs {
                Some(q) => Some(q@),
                None => None,
            },
            spec_first_required_match(g@, qv, headers@) is None,
            match qs {
                Some(q) => spec_first_tag_match(g@, q@) is None,
                None => true,
            },
        decreases n - i,
    {
        if is_catch_all(&g[i]) {
            proof {
                lemma_first_catch_all(g@, i as int);
            }
            return Some((g[i].op, g[i].needs_full_body));
        }
        i = i + 1;
    }
    proof {
        lemma_no_catch_all(g@);
    }
    None
}

} // verus!
