use vstd::prelude::*;

use crate::config::{
    config_valid, config_without_excluded, invalid_at, kept, type_a, without_excluded, ConfigView,
    EntryView,
};
use crate::engine::{
    all_succeeded, cycle_outcomes, cycle_plan, entry_plan, found, planned_record, sends,
    PlannedUpdateView,
};
use crate::gandi::HttpReplyView;
use crate::reconciler::{on_replied, on_resolved, on_woke, ActionView, Phase, ReconcilerView};

verus! {

/// The record type a planned item is for.
pub open spec fn item_type(u: PlannedUpdateView) -> Seq<char> {
    match u {
        PlannedUpdateView::Send(q) => q.entry_type,
        PlannedUpdateView::Missing(f) => f.entry_type,
    }
}

/// Number of (entry, record type) pairs of a configuration.
pub open spec fn record_count(c: ConfigView) -> nat {
    c.entries.flat_map(|e: EntryView| e.types).len()
}

/// What holds of every item of every `f(s[i])` holds of every item of `s.flat_map(f)`.
proof fn lemma_flat_map_all<A, B>(s: Seq<A>, f: spec_fn(A) -> Seq<B>, p: spec_fn(B) -> bool)
    requires
        forall|i: int, j: int| 0 <= i < s.len() && 0 <= j < f(s[i]).len() ==> p(#[trigger] f(s[i])[j]),
    ensures
        forall|k: int| 0 <= k < s.flat_map(f).len() ==> p(#[trigger] s.flat_map(f)[k]),
    decreases s.len(),
{
    if s.len() > 0 {
        let init = s.drop_last();
        assert forall|i: int, j: int| 0 <= i < init.len() && 0 <= j < f(init[i]).len() implies p(#[trigger] f(init[i])[j]) by {
            assert(init[i] == s[i]);
        }
        lemma_flat_map_all(init, f, p);
        init.lemma_flat_map_push(f, s.last());
        assert(init.push(s.last()) =~= s);
        assert forall|k: int| 0 <= k < s.flat_map(f).len() implies p(#[trigger] s.flat_map(f)[k]) by {
            if k >= init.flat_map(f).len() {
                assert(s.flat_map(f)[k] == f(s[s.len() - 1])[k - init.flat_map(f).len()]);
            }
        }
    } else {
        assert(s.flat_map(f) =~= Seq::<B>::empty());
    }
}

/// Two flat maps whose parts have equal lengths have equal lengths.
proof fn lemma_flat_map_len<A, B, C>(s: Seq<A>, f: spec_fn(A) -> Seq<B>, g: spec_fn(A) -> Seq<C>)
    requires
        forall|i: int| 0 <= i < s.len() ==> (#[trigger] f(s[i])).len() == g(s[i]).len(),
    ensures
        s.flat_map(f).len() == s.flat_map(g).len(),
    decreases s.len(),
{
    if s.len() > 0 {
        let init = s.drop_last();
        assert forall|i: int| 0 <= i < init.len() implies (#[trigger] f(init[i])).len() == g(init[i]).len() by {
            assert(init[i] == s[i]);
        }
        lemma_flat_map_len(init, f, g);
        init.lemma_flat_map_push(f, s.last());
        init.lemma_flat_map_push(g, s.last());
        assert(init.push(s.last()) =~= s);
    } else {
        assert(s.flat_map(f) =~= Seq::<B>::empty());
        assert(s.flat_map(g) =~= Seq::<C>::empty());
    }
}

/// A call of a plan is one of its items.
proof fn lemma_sends_from_plan(p: Seq<PlannedUpdateView>, k: int)
    requires
        0 <= k < sends(p).len(),
    ensures
        exists|j: int| 0 <= j < p.len() && p[j] == PlannedUpdateView::Send(#[trigger] sends(p)[k]),
    decreases p.len(),
{
    let init = p.drop_last();
    if k < sends(init).len() {
        lemma_sends_from_plan(init, k);
        let j = choose|j: int| 0 <= j < init.len() && init[j] == PlannedUpdateView::Send(#[trigger] sends(init)[k]);
        assert(p[j] == init[j]);
        assert(sends(p)[k] == sends(init)[k]);
    } else {
        assert(p[p.len() - 1] == PlannedUpdateView::Send(sends(p)[k]));
    }
}

/// A plan made only of calls has one call per item.
proof fn lemma_sends_all(p: Seq<PlannedUpdateView>)
    requires
        forall|j: int| 0 <= j < p.len() ==> (#[trigger] p[j]) is Send,
    ensures
        sends(p).len() == p.len(),
    decreases p.len(),
{
    if p.len() > 0 {
        let init = p.drop_last();
        assert forall|j: int| 0 <= j < init.len() implies (#[trigger] init[j]) is Send by {
            assert(init[j] == p[j]);
        }
        lemma_sends_all(init);
    }
}

/// When both lookups give back the addresses last published, and updates are
/// not forced, the cycle dispatches no update call and publishes nothing new.
pub proof fn law_unchanged_addresses_skip(
    s: ReconcilerView,
    ipv4: Result<Seq<char>, Seq<char>>,
    ipv6: Result<Seq<char>, Seq<char>>,
)
    requires
        found(ipv4) == s.last_ipv4,
        found(ipv6) == s.last_ipv6,
        !s.config.always_update,
    ensures
        !(on_resolved(s, ipv4, ipv6).1 is Dispatch),
        on_resolved(s, ipv4, ipv6).0.phase != Phase::Updating,
        on_resolved(s, ipv4, ipv6).0.last_ipv4 == s.last_ipv4,
        on_resolved(s, ipv4, ipv6).0.last_ipv6 == s.last_ipv6,
{
}

/// When updates are forced, every cycle dispatches the calls of the full
/// plan, whatever the addresses; with both addresses found and a valid
/// configuration, that is one call per (entry, record type).
pub proof fn law_forced_update_dispatches_all(
    s: ReconcilerView,
    ipv4: Result<Seq<char>, Seq<char>>,
    ipv6: Result<Seq<char>, Seq<char>>,
)
    requires
        s.config.always_update,
    ensures
        on_resolved(s, ipv4, ipv6).1 == ActionView::Dispatch(sends(cycle_plan(s.config, s.base_url, ipv4, ipv6))),
        cycle_plan(s.config, s.base_url, ipv4, ipv6).len() == record_count(s.config),
        (ipv4 is Ok && ipv6 is Ok && config_valid(s.config)) ==> sends(cycle_plan(s.config, s.base_url, ipv4, ipv6)).len() == record_count(s.config),
{
    let c = s.config;
    let f = |e: EntryView| entry_plan(c, s.base_url, ipv4, ipv6, e);
    let g = |e: EntryView| e.types;
    let p = cycle_plan(c, s.base_url, ipv4, ipv6);
    lemma_flat_map_len(c.entries, f, g);
    assert(p == c.entries.flat_map(f));
    if ipv4 is Ok && ipv6 is Ok && config_valid(c) {
        let is_send = |u: PlannedUpdateView| u is Send;
        assert forall|i: int, j: int| 0 <= i < c.entries.len() && 0 <= j < f(c.entries[i]).len() implies is_send(#[trigger] f(c.entries[i])[j]) by {
            assert(!invalid_at(c, i, j));
        }
        lemma_flat_map_all(c.entries, f, is_send);
        lemma_sends_all(p);
    }
}

/// The addresses last published change only when a cycle's calls have all
/// ended: they advance to the cycle's addresses if every outcome succeeded,
/// and stay as they were if any one failed.
pub proof fn law_atomic_state_advance(
    s: ReconcilerView,
    ipv4: Result<Seq<char>, Seq<char>>,
    ipv6: Result<Seq<char>, Seq<char>>,
    replies: Seq<Result<HttpReplyView, Seq<char>>>,
)
    ensures
        on_resolved(s, ipv4, ipv6).0.last_ipv4 == s.last_ipv4,
        on_resolved(s, ipv4, ipv6).0.last_ipv6 == s.last_ipv6,
        on_woke(s).0.last_ipv4 == s.last_ipv4,
        on_woke(s).0.last_ipv6 == s.last_ipv6,
        all_succeeded(cycle_outcomes(s.planned, replies)) ==> on_replied(s, replies).0.last_ipv4 == s.ipv4
            && on_replied(s, replies).0.last_ipv6 == s.ipv6,
        (exists|k: int| 0 <= k < cycle_outcomes(s.planned, replies).len() && (#[trigger] cycle_outcomes(s.planned, replies)[k]).response is Err)
            ==> on_replied(s, replies).0.last_ipv4 == s.last_ipv4 && on_replied(s, replies).0.last_ipv6 == s.last_ipv6,
{
}

/// Once IPv4 is excluded on the command line, no cycle plans anything for an
/// "A" record, so no "A" update is ever dispatched, whatever the entries list.
pub proof fn law_ipv4_exclusion_filters_a_records(
    c: ConfigView,
    skip_ipv6: bool,
    base: Seq<char>,
    ipv4: Result<Seq<char>, Seq<char>>,
    ipv6: Result<Seq<char>, Seq<char>>,
)
    ensures
        forall|k: int| 0 <= k < cycle_plan(config_without_excluded(c, true, skip_ipv6), base, ipv4, ipv6).len()
            ==> item_type(#[trigger] cycle_plan(config_without_excluded(c, true, skip_ipv6), base, ipv4, ipv6)[k]) != type_a(),
        forall|k: int| 0 <= k < sends(cycle_plan(config_without_excluded(c, true, skip_ipv6), base, ipv4, ipv6)).len()
            ==> (#[trigger] sends(cycle_plan(config_without_excluded(c, true, skip_ipv6), base, ipv4, ipv6))[k]).entry_type != type_a(),
{
    let cx = config_without_excluded(c, true, skip_ipv6);
    let f = |e: EntryView| entry_plan(cx, base, ipv4, ipv6, e);
    let not_a = |u: PlannedUpdateView| item_type(u) != type_a();
    let p = cycle_plan(cx, base, ipv4, ipv6);
    assert forall|i: int, j: int| 0 <= i < cx.entries.len() && 0 <= j < f(cx.entries[i]).len() implies not_a(#[trigger] f(cx.entries[i])[j]) by {
        let e = c.entries[i];
        let keep = |t: Seq<char>| kept(t, true, skip_ipv6);
        assert(cx.entries[i] == without_excluded(e, true, skip_ipv6));
        e.types.lemma_filter_pred(keep, j);
        let t = cx.entries[i].types[j];
        assert(f(cx.entries[i])[j] == planned_record(cx, base, ipv4, ipv6, cx.entries[i], t));
    }
    lemma_flat_map_all(cx.entries, f, not_a);
    assert(p == cx.entries.flat_map(f));
    assert forall|k: int| 0 <= k < sends(p).len() implies (#[trigger] sends(p)[k]).entry_type != type_a() by {
        lemma_sends_from_plan(p, k);
        let j = choose|j: int| 0 <= j < p.len() && p[j] == PlannedUpdateView::Send(#[trigger] sends(p)[k]);
        assert(not_a(p[j]));
    }
}

} // verus!
