//! Listings are determined by what they list.

use crate::db::DeviceView;
use crate::tables::{device_leq, is_listing, text_leq, Tables};
use vstd::prelude::*;

verus! {

/// Two texts that come before each other are the same.
pub proof fn law_text_order_antisymmetric(a: Seq<char>, b: Seq<char>)
    requires
        text_leq(a, b),
        text_leq(b, a),
    ensures
        a == b,
    decreases a.len(),
{
    if a.len() > 0 && b.len() > 0 {
        law_text_order_antisymmetric(a.drop_first(), b.drop_first());
        assert(a =~= seq![a[0]] + a.drop_first());
        assert(b =~= seq![b[0]] + b.drop_first());
    } else {
        assert(a =~= b);
    }
}

/// A listing in an order that tells its rows apart is the only one.
pub proof fn law_listing_is_unique<T>(
    x: Seq<T>,
    y: Seq<T>,
    among: spec_fn(T) -> bool,
    leq: spec_fn(T, T) -> bool,
)
    requires
        is_listing(x, among, leq),
        is_listing(y, among, leq),
        forall|a: T, b: T|
            among(a) && among(b) && #[trigger] leq(a, b) && #[trigger] leq(b, a) ==> a == b,
    ensures
        x == y,
    decreases x.len(),
{
    if x.len() == 0 {
        if y.len() > 0 {
            assert(y.contains(y[0]));
            assert(x.contains(y[0]));
        }
        assert(x =~= y);
    } else {
        assert(x.contains(x[0]));
        assert(y.contains(x[0]));
        let k = choose|k: int| 0 <= k < y.len() && y[k] == x[0];
        assert(y.contains(y[0]));
        assert(x.contains(y[0]));
        let m = choose|m: int| 0 <= m < x.len() && x[m] == y[0];
        if k > 0 && m > 0 {
            assert(leq(y[0], y[k]));
            assert(leq(x[0], x[m]));
        }
        assert(x[0] == y[0]);
        let rest = |t: T| among(t) && t != x[0];
        let xs = x.drop_first();
        let ys = y.drop_first();
        lemma_rest_is_listing(x, among, leq);
        lemma_rest_is_listing(y, among, leq);
        assert(rest == (|t: T| among(t) && t != y[0]));
        law_listing_is_unique(xs, ys, rest, leq);
        assert(x =~= seq![x[0]] + xs);
        assert(y =~= seq![y[0]] + ys);
    }
}

/// A listing without its first row lists the other rows.
proof fn lemma_rest_is_listing<T>(
    x: Seq<T>,
    among: spec_fn(T) -> bool,
    leq: spec_fn(T, T) -> bool,
)
    requires
        x.len() > 0,
        is_listing(x, among, leq),
    ensures
        is_listing(x.drop_first(), |t: T| among(t) && t != x[0], leq),
{
    let xs = x.drop_first();
    let rest = |t: T| among(t) && t != x[0];
    assert forall|t: T| #[trigger] xs.contains(t) <==> rest(t) by {
        if xs.contains(t) {
            let i = choose|i: int| 0 <= i < xs.len() && xs[i] == t;
            assert(x[i + 1] == t);
            assert(x.contains(t));
        }
        if rest(t) {
            assert(x.contains(t));
            let i = choose|i: int| 0 <= i < x.len() && x[i] == t;
            assert(xs[i - 1] == t);
        }
    }
    assert forall|i: int, j: int| 0 <= i < j < xs.len() implies #[trigger] leq(xs[i], xs[j]) by {
        assert(leq(x[i + 1], x[j + 1]));
    }
}

/// Two lists of the workstations that are seen within the same days of the same moment are
/// the same list.
pub proof fn law_device_listing_is_unique(
    t: Tables,
    x: Seq<DeviceView>,
    y: Seq<DeviceView>,
    stale_days: i64,
    now: i64,
)
    requires
        t.valid(),
        is_listing(
            x,
            |d: DeviceView| t.lists_device(d, stale_days, now),
            |a: DeviceView, b: DeviceView| device_leq(a, b),
        ),
        is_listing(
            y,
            |d: DeviceView| t.lists_device(d, stale_days, now),
            |a: DeviceView, b: DeviceView| device_leq(a, b),
        ),
    ensures
        x == y,
{
    let among = |d: DeviceView| t.lists_device(d, stale_days, now);
    let leq = |a: DeviceView, b: DeviceView| device_leq(a, b);
    assert forall|a: DeviceView, b: DeviceView|
        among(a) && among(b) && #[trigger] leq(a, b) && #[trigger] leq(b, a) implies a == b by {
        if a.hostname == b.hostname {
            law_text_order_antisymmetric(a.id, b.id);
        } else {
            law_text_order_antisymmetric(a.hostname, b.hostname);
        }
    }
    law_listing_is_unique(x, y, among, leq);
}

} // verus!
