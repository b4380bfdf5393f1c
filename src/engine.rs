use vstd::prelude::*;

use crate::config::{
    effective_fqdn, effective_ttl, same_text, type_a, type_aaaa, Config, ConfigView,
    Entry, EntryView,
};
use crate::errors::{outcome_view, text_result, ClientError, ClientErrorView};
use crate::gandi::{
    classify, classify_reply, record_url, reply_view, APIPayload, APIPayloadView, GandiAPI,
    HttpReply, HttpReplyView,
};

verus! {

/// One update call to make: the record it is for, where it goes, and its body.
#[derive(Debug)]
pub struct UpdateRequest {
    pub entry_name: String,
    pub entry_type: String,
    pub fqdn: String,
    pub url: String,
    pub payload: APIPayload,
}

/// What an [`UpdateRequest`] holds, as plain values.
pub struct UpdateRequestView {
    pub entry_name: Seq<char>,
    pub entry_type: Seq<char>,
    pub fqdn: Seq<char>,
    pub url: Seq<char>,
    pub payload: APIPayloadView,
}

impl View for UpdateRequest {
    type V = UpdateRequestView;

    open spec fn view(&self) -> UpdateRequestView {
        UpdateRequestView {
            entry_name: self.entry_name@,
            entry_type: self.entry_type@,
            fqdn: self.fqdn@,
            url: self.url@,
            payload: self.payload@,
        }
    }
}

/// The outcome of one (entry, record type) update in a cycle.
#[derive(Debug)]
pub struct ResponseFeedback {
    pub entry_name: String,
    pub entry_type: String,
    /// The API's message on success, else what went wrong.
    pub response: Result<String, ClientError>,
}

/// What a [`ResponseFeedback`] holds, as plain values.
pub struct ResponseFeedbackView {
    pub entry_name: Seq<char>,
    pub entry_type: Seq<char>,
    pub response: Result<Seq<char>, ClientErrorView>,
}

impl View for ResponseFeedback {
    type V = ResponseFeedbackView;

    open spec fn view(&self) -> ResponseFeedbackView {
        ResponseFeedbackView {
            entry_name: self.entry_name@,
            entry_type: self.entry_type@,
            response: outcome_view(self.response),
        }
    }
}

/// What a cycle does for one (entry, record type): a call to make, or an
/// outcome known without one.
#[derive(Debug)]
pub enum PlannedUpdate {
    Send(UpdateRequest),
    Missing(ResponseFeedback),
}

/// What a [`PlannedUpdate`] holds, as plain values.
pub enum PlannedUpdateView {
    Send(UpdateRequestView),
    Missing(ResponseFeedbackView),
}

impl View for PlannedUpdate {
    type V = PlannedUpdateView;

    open spec fn view(&self) -> PlannedUpdateView {
        match self {
            PlannedUpdate::Send(q) => PlannedUpdateView::Send(q@),
            PlannedUpdate::Missing(f) => PlannedUpdateView::Missing(f@),
        }
    }
}

/// The view of a plan.
pub open spec fn plan_view(p: Seq<PlannedUpdate>) -> Seq<PlannedUpdateView> {
    p.map_values(|u: PlannedUpdate| u@)
}

/// The view of a list of calls.
pub open spec fn requests_view(v: Seq<UpdateRequest>) -> Seq<UpdateRequestView> {
    v.map_values(|q: UpdateRequest| q@)
}

/// The view of a list of outcomes.
pub open spec fn feedback_view(v: Seq<ResponseFeedback>) -> Seq<ResponseFeedbackView> {
    v.map_values(|f: ResponseFeedback| f@)
}

/// The view of the ends of a list of calls.
pub open spec fn replies_view(v: Seq<Result<HttpReply, String>>) -> Seq<Result<HttpReplyView, Seq<char>>> {
    v.map_values(|r: Result<HttpReply, String>| reply_view(r))
}

/// The address a lookup found, if it found one.
pub open spec fn found(lookup: Result<Seq<char>, Seq<char>>) -> Option<Seq<char>> {
    match lookup {
        Ok(a) => Some(a),
        Err(_) => None,
    }
}

/// A cycle updates the records when it is told to always do so, or when at
/// least one lookup succeeded and some address differs from the one last
/// published (a failed lookup counting as an absent address).
pub open spec fn update_required(
    last_ipv4: Option<Seq<char>>,
    last_ipv6: Option<Seq<char>>,
    ipv4: Option<Seq<char>>,
    ipv6: Option<Seq<char>>,
    always_update: bool,
) -> bool {
    always_update || ((ipv4 is Some || ipv6 is Some) && (ipv4 != last_ipv4 || ipv6 != last_ipv6))
}

/// The call that points record type `t` of entry `e` at `address`.
pub open spec fn request_for(
    c: ConfigView,
    base: Seq<char>,
    e: EntryView,
    t: Seq<char>,
    address: Seq<char>,
) -> UpdateRequestView {
    UpdateRequestView {
        entry_name: e.name,
        entry_type: t,
        fqdn: effective_fqdn(e, c),
        url: record_url(base, effective_fqdn(e, c), e.name, t),
        payload: APIPayloadView { rrset_values: seq![address], rrset_ttl: effective_ttl(e, c) },
    }
}

/// A failed outcome of record type `t` of entry `e`, reached without a call.
pub open spec fn failed_without_call(e: EntryView, t: Seq<char>, err: ClientErrorView) -> ResponseFeedbackView {
    ResponseFeedbackView { entry_name: e.name, entry_type: t, response: Err(err) }
}

/// What a cycle does for record type `t` of entry `e`: "A" records take the
/// IPv4 address and "AAAA" records the IPv6 one; a failed lookup, or any
/// other type, fails the record without a call.
pub open spec fn planned_record(
    c: ConfigView,
    base: Seq<char>,
    ipv4: Result<Seq<char>, Seq<char>>,
    ipv6: Result<Seq<char>, Seq<char>>,
    e: EntryView,
    t: Seq<char>,
) -> PlannedUpdateView {
    if t == type_a() {
        match ipv4 {
            Ok(a) => PlannedUpdateView::Send(request_for(c, base, e, t, a)),
            Err(m) => PlannedUpdateView::Missing(failed_without_call(e, t, ClientErrorView::Ipv4missing(e.name, m))),
        }
    } else if t == type_aaaa() {
        match ipv6 {
            Ok(a) => PlannedUpdateView::Send(request_for(c, base, e, t, a)),
            Err(m) => PlannedUpdateView::Missing(failed_without_call(e, t, ClientErrorView::Ipv6missing(e.name, m))),
        }
    } else {
        PlannedUpdateView::Missing(failed_without_call(e, t, ClientErrorView::BadEntry(t)))
    }
}

/// What a cycle does for each record type of entry `e`, in order.
pub open spec fn entry_plan(
    c: ConfigView,
    base: Seq<char>,
    ipv4: Result<Seq<char>, Seq<char>>,
    ipv6: Result<Seq<char>, Seq<char>>,
    e: EntryView,
) -> Seq<PlannedUpdateView> {
    e.types.map_values(|t: Seq<char>| planned_record(c, base, ipv4, ipv6, e, t))
}

/// What an updating cycle does: one item per (entry, record type), entries
/// in order and each entry's types in order.
pub open spec fn cycle_plan(
    c: ConfigView,
    base: Seq<char>,
    ipv4: Result<Seq<char>, Seq<char>>,
    ipv6: Result<Seq<char>, Seq<char>>,
) -> Seq<PlannedUpdateView> {
    c.entries.flat_map(|e: EntryView| entry_plan(c, base, ipv4, ipv6, e))
}

/// The calls of a plan, in order.
pub open spec fn sends(p: Seq<PlannedUpdateView>) -> Seq<UpdateRequestView>
    decreases p.len(),
{
    if p.len() == 0 {
        seq![]
    } else {
        sends(p.drop_last()) + match p.last() {
            PlannedUpdateView::Send(q) => seq![q],
            PlannedUpdateView::Missing(_) => seq![],
        }
    }
}

/// The outcome of one planned item, given the end of its call if it made one.
pub open spec fn outcome_of(u: PlannedUpdateView, reply: Result<HttpReplyView, Seq<char>>) -> ResponseFeedbackView {
    match u {
        PlannedUpdateView::Send(q) => ResponseFeedbackView {
            entry_name: q.entry_name,
            entry_type: q.entry_type,
            response: classify(reply),
        },
        PlannedUpdateView::Missing(f) => f,
    }
}

/// The outcomes of a plan whose calls ended in `replies`, in call order:
/// one per planned item, in plan order.
pub open spec fn cycle_outcomes(
    p: Seq<PlannedUpdateView>,
    replies: Seq<Result<HttpReplyView, Seq<char>>>,
) -> Seq<ResponseFeedbackView>
    decreases p.len(),
{
    if p.len() == 0 {
        seq![]
    } else {
        cycle_outcomes(p.drop_last(), replies).push(
            outcome_of(p.last(), replies[sends(p.drop_last()).len() as int]),
        )
    }
}

/// Every outcome of the cycle is a success.
pub open spec fn all_succeeded(o: Seq<ResponseFeedbackView>) -> bool {
    forall|k: int| 0 <= k < o.len() ==> (#[trigger] o[k]).response is Ok
}

/// A plan has no fewer calls than any of its prefixes, one more per call.
proof fn lemma_sends_prefix(p: Seq<PlannedUpdateView>, k: int)
    requires
        0 <= k <= p.len(),
    ensures
        sends(p.take(k)).len() <= sends(p).len(),
        k < p.len() ==> sends(p.take(k + 1)).len() == sends(p.take(k)).len() + if p[k] is Send { 1int } else { 0int },
    decreases p.len() - k,
{
    if k < p.len() {
        assert(p.take(k + 1).drop_last() =~= p.take(k));
        lemma_sends_prefix(p, k + 1);
    } else {
        assert(p.take(k) =~= p);
    }
}

/// Whether `last` is the address `lookup` found, or both are absent.
fn same_address(last: &Option<String>, lookup: &Result<String, String>) -> (r: bool)
    ensures
        r == (last.deep_view() == found(text_result(*lookup))),
{
    match (last, lookup) {
        (Some(p), Ok(q)) => p.eq(q),
        (None, Err(_)) => true,
        _ => false,
    }
}

/// Decides whether a cycle updates the records, from the addresses last
/// published and the two lookups just made.
pub fn needs_update(
    last_ipv4: &Option<String>,
    last_ipv6: &Option<String>,
    ipv4: &Result<String, String>,
    ipv6: &Result<String, String>,
    always_update: bool,
) -> (r: bool)
    ensures
        r == update_required(
            last_ipv4.deep_view(),
            last_ipv6.deep_view(),
            found(text_result(*ipv4)),
            found(text_result(*ipv6)),
            always_update,
        ),
{
    if always_update {
        return true;
    }
    if ipv4.is_err() && ipv6.is_err() {
        return false;
    }
    !same_address(last_ipv4, ipv4) || !same_address(last_ipv6, ipv6)
}

/// A copy of a list of texts.
fn copy_texts(v: &Vec<String>) -> (r: Vec<String>)
    ensures
        r.deep_view() == v.deep_view(),
{
    let mut r: Vec<String> = Vec::new();
    for i in 0..v.len()
        invariant
            r@.len() == i,
            forall|k: int| 0 <= k < i ==> r@[k]@ == v@[k]@,
    {
        r.push(v[i].clone());
    }
    assert(r.deep_view() =~= v.deep_view());
    r
}

impl UpdateRequest {
    /// A copy of this request.
    pub fn duplicate(&self) -> (r: UpdateRequest)
        ensures
            r@ == self@,
    {
        UpdateRequest {
            entry_name: self.entry_name.clone(),
            entry_type: self.entry_type.clone(),
            fqdn: self.fqdn.clone(),
            url: self.url.clone(),
            payload: APIPayload {
                rrset_values: copy_texts(&self.payload.rrset_values),
                rrset_ttl: self.payload.rrset_ttl,
            },
        }
    }
}

/// A failed outcome reached without a call.
fn failure(entry: &Entry, rtype: &String, err: ClientError) -> (r: PlannedUpdate)
    ensures
        r@ == PlannedUpdateView::Missing(failed_without_call(entry@, rtype@, err@)),
{
    PlannedUpdate::Missing(ResponseFeedback { entry_name: entry.name.clone(), entry_type: rtype.clone(), response: Err(err) })
}

/// What a cycle does for record type `rtype` of `entry`.
pub fn plan_record(
    config: &Config,
    entry: &Entry,
    rtype: &String,
    base_url: &str,
    ipv4: &Result<String, String>,
    ipv6: &Result<String, String>,
) -> (r: PlannedUpdate)
    ensures
        r@ == planned_record(config@, base_url@, text_result(*ipv4), text_result(*ipv6), entry@, rtype@),
{
    let address = if same_text(rtype, "A") {
        match ipv4 {
            Ok(a) => a,
            Err(m) => {
                return failure(entry, rtype, ClientError::Ipv4missing(entry.name.clone(), m.clone()));
            },
        }
    } else if same_text(rtype, "AAAA") {
        match ipv6 {
            Ok(a) => a,
            Err(m) => {
                return failure(entry, rtype, ClientError::Ipv6missing(entry.name.clone(), m.clone()));
            },
        }
    } else {
        return failure(entry, rtype, ClientError::BadEntry(rtype.clone()));
    };
    let fqdn = Config::fqdn(entry, config);
    let url = GandiAPI {
        base_url,
        fqdn,
        rrset_name: entry.name.as_str(),
        rrset_type: rtype.as_str(),
    }.url();
    let mut values: Vec<String> = Vec::new();
    values.push(address.clone());
    assert(values.deep_view() =~= seq![address@]);
    PlannedUpdate::Send(UpdateRequest {
        entry_name: entry.name.clone(),
        entry_type: rtype.clone(),
        fqdn: fqdn.to_owned(),
        url,
        payload: APIPayload { rrset_values: values, rrset_ttl: Config::ttl(entry, config) },
    })
}

/// What an updating cycle does, for every entry and each of its record types.
pub fn plan_cycle(
    config: &Config,
    base_url: &str,
    ipv4: &Result<String, String>,
    ipv6: &Result<String, String>,
) -> (r: Vec<PlannedUpdate>)
    ensures
        plan_view(r@) == cycle_plan(config@, base_url@, text_result(*ipv4), text_result(*ipv6)),
{
    let ghost c = config@;
    let ghost f = |e: EntryView| entry_plan(c, base_url@, text_result(*ipv4), text_result(*ipv6), e);
    let mut r: Vec<PlannedUpdate> = Vec::new();
    for i in 0..config.entry.len()
        invariant
            c == config@,
            f == (|e: EntryView| entry_plan(c, base_url@, text_result(*ipv4), text_result(*ipv6), e)),
            plan_view(r@) == c.entries.take(i as int).flat_map(f),
    {
        let entry = &config.entry[i];
        let ghost before = plan_view(r@);
        let ghost ep = entry_plan(c, base_url@, text_result(*ipv4), text_result(*ipv6), entry@);
        assert(c.entries[i as int] == entry@);
        for j in 0..entry.types.len()
            invariant
                c == config@,
                ep == entry_plan(c, base_url@, text_result(*ipv4), text_result(*ipv6), entry@),
                plan_view(r@) == before + ep.take(j as int),
        {
            let u = plan_record(config, entry, &entry.types[j], base_url, ipv4, ipv6);
            let ghost prev = r@;
            r.push(u);
            assert(plan_view(r@) =~= plan_view(prev).push(u@));
            assert(ep.take(j + 1) =~= ep.take(j as int).push(u@));
        }
        proof {
            assert(ep.take(entry.types.len() as int) =~= ep);
            c.entries.lemma_flat_map_take_append(f, i as int);
        }
    }
    assert(c.entries.take(config.entry.len() as int) =~= c.entries);
    r
}

/// The calls of a plan, in order.
pub fn requests_of(planned: &Vec<PlannedUpdate>) -> (r: Vec<UpdateRequest>)
    ensures
        requests_view(r@) == sends(plan_view(planned@)),
{
    let ghost p = plan_view(planned@);
    let mut r: Vec<UpdateRequest> = Vec::new();
    for k in 0..planned.len()
        invariant
            p == plan_view(planned@),
            requests_view(r@) == sends(p.take(k as int)),
    {
        assert(p.take(k + 1).drop_last() =~= p.take(k as int));
        let ghost prev = r@;
        match &planned[k] {
            PlannedUpdate::Send(q) => {
                r.push(q.duplicate());
                assert(requests_view(r@) =~= requests_view(prev) + seq![q@]);
            },
            PlannedUpdate::Missing(_) => {
                assert(requests_view(r@) =~= requests_view(prev) + seq![]);
            },
        }
    }
    assert(p.take(planned.len() as int) =~= p);
    r
}

/// The outcomes of a plan whose calls ended in `replies`, the ends given in
/// call order.
pub fn merge_outcomes(planned: Vec<PlannedUpdate>, replies: &Vec<Result<HttpReply, String>>) -> (r: Vec<ResponseFeedback>)
    requires
        replies@.len() == sends(plan_view(planned@)).len(),
    ensures
        feedback_view(r@) == cycle_outcomes(plan_view(planned@), replies_view(replies@)),
{
    let ghost p = plan_view(planned@);
    let ghost rv = replies_view(replies@);
    let mut rest = planned;
    let n = rest.len();
    let n_replies = replies.len();
    let mut r: Vec<ResponseFeedback> = Vec::new();
    let mut m: usize = 0;
    let mut k: usize = 0;
    while rest.len() > 0
        invariant
            k <= p.len(),
            p.len() == n,
            n_replies == replies@.len(),
            rest@.len() == p.len() - k,
            plan_view(rest@) == p.skip(k as int),
            m == sends(p.take(k as int)).len(),
            replies@.len() == sends(p).len(),
            rv == replies_view(replies@),
            feedback_view(r@) == cycle_outcomes(p.take(k as int), rv),
        decreases rest.len(),
    {
        proof {
            lemma_sends_prefix(p, k as int);
            lemma_sends_prefix(p, k + 1);
            assert(p.take(k + 1).drop_last() =~= p.take(k as int));
        }
        let ghost prev = r@;
        let ghost rest_before = rest@;
        let u = rest.remove(0);
        assert(plan_view(rest_before)[0] == u@);
        assert(p.skip(k as int)[0] == p[k as int]);
        match u {
            PlannedUpdate::Send(q) => {
                let response = classify_reply(&replies[m]);
                r.push(ResponseFeedback { entry_name: q.entry_name, entry_type: q.entry_type, response });
                m = m + 1;
            },
            PlannedUpdate::Missing(f) => {
                r.push(f);
            },
        }
        k = k + 1;
        assert(feedback_view(r@) =~= feedback_view(prev).push(r@.last()@));
        assert forall|i: int| 0 <= i < rest@.len() implies #[trigger] plan_view(rest@)[i] == p.skip(k as int)[i] by {
            assert(rest@[i] == rest_before[i + 1]);
            assert(plan_view(rest_before)[i + 1] == p.skip(k - 1)[i + 1]);
        }
        assert(plan_view(rest@) =~= p.skip(k as int));
    }
    assert(p.take(k as int) =~= p);
    r
}

/// The successful outcomes among `o`.
pub open spec fn successes(o: Seq<ResponseFeedbackView>) -> Seq<ResponseFeedbackView> {
    o.filter(|f: ResponseFeedbackView| f.response is Ok)
}

/// How many outcomes are successes.
pub fn succeeded_count(outcomes: &Vec<ResponseFeedback>) -> (r: usize)
    ensures
        r == successes(feedback_view(outcomes@)).len(),
{
    let ghost o = feedback_view(outcomes@);
    let ghost ok = |f: ResponseFeedbackView| f.response is Ok;
    let mut n: usize = 0;
    for k in 0..outcomes.len()
        invariant
            o == feedback_view(outcomes@),
            ok == (|f: ResponseFeedbackView| f.response is Ok),
            n == o.take(k as int).filter(ok).len(),
            n <= k,
    {
        proof {
            o.take(k as int).lemma_filter_push(o[k as int], ok);
            assert(o.take(k + 1) =~= o.take(k as int).push(o[k as int]));
        }
        if outcomes[k].response.is_ok() {
            n = n + 1;
        }
    }
    assert(o.take(outcomes.len() as int) =~= o);
    n
}

/// Whether every outcome is a success.
pub fn cycle_succeeded(outcomes: &Vec<ResponseFeedback>) -> (r: bool)
    ensures
        r == all_succeeded(feedback_view(outcomes@)),
{
    for k in 0..outcomes.len()
        invariant
            forall|k2: int| 0 <= k2 < k ==> (#[trigger] feedback_view(outcomes@)[k2]).response is Ok,
    {
        if outcomes[k].response.is_err() {
            assert(!(feedback_view(outcomes@)[k as int].response is Ok));
            return false;
        }
    }
    true
}

} // verus!
