use vstd::prelude::*;

use crate::config::{copy_opt, Config, ConfigView};
use crate::engine::{
    all_succeeded, cycle_outcomes, cycle_plan, cycle_succeeded, feedback_view, found,
    merge_outcomes, needs_update, plan_cycle, plan_view, replies_view, requests_of,
    requests_view, sends, update_required, PlannedUpdate, PlannedUpdateView, ResponseFeedback,
    UpdateRequest, UpdateRequestView,
};
use crate::errors::text_result;
use crate::gandi::{HttpReply, HttpReplyView};

verus! {

/// Where the reconciliation loop stands.
#[derive(Debug, Clone, Copy, PartialEq, Eq, Structural)]
pub enum Phase {
    /// Waiting for the two address lookups.
    Resolving,
    /// Waiting for the update calls of the cycle.
    Updating,
    /// Waiting out the delay before the next cycle.
    Sleeping,
    /// The run is over.
    Done,
}

/// What the loop is to do next.
#[derive(Debug)]
pub enum Action {
    /// Look up the IPv4 and IPv6 addresses, then report them to `resolved`.
    Resolve,
    /// Make these calls, through the shared rate limiter, then report their
    /// ends to `replied` in the same order.
    Dispatch(Vec<UpdateRequest>),
    /// Wait this many seconds, then call `woke`.
    Sleep(u64),
    /// Stop: the run is complete.
    Finish,
}

/// What an [`Action`] holds, as plain values.
pub enum ActionView {
    Resolve,
    Dispatch(Seq<UpdateRequestView>),
    Sleep(u64),
    Finish,
}

impl View for Action {
    type V = ActionView;

    open spec fn view(&self) -> ActionView {
        match self {
            Action::Resolve => ActionView::Resolve,
            Action::Dispatch(v) => ActionView::Dispatch(requests_view(v@)),
            Action::Sleep(d) => ActionView::Sleep(*d),
            Action::Finish => ActionView::Finish,
        }
    }
}

/// The state of the reconciliation loop: the configuration it serves, the
/// addresses last published with full success, and the cycle in progress.
pub struct Reconciler {
    config: Config,
    base_url: String,
    repeat: Option<u64>,
    last_ipv4: Option<String>,
    last_ipv6: Option<String>,
    phase: Phase,
    ipv4: Option<String>,
    ipv6: Option<String>,
    planned: Vec<PlannedUpdate>,
}

/// What a [`Reconciler`] holds, as plain values. `ipv4`, `ipv6` and
/// `planned` describe the cycle in progress.
pub struct ReconcilerView {
    pub config: ConfigView,
    pub base_url: Seq<char>,
    pub repeat: Option<u64>,
    pub last_ipv4: Option<Seq<char>>,
    pub last_ipv6: Option<Seq<char>>,
    pub phase: Phase,
    pub ipv4: Option<Seq<char>>,
    pub ipv6: Option<Seq<char>>,
    pub planned: Seq<PlannedUpdateView>,
}

impl View for Reconciler {
    type V = ReconcilerView;

    closed spec fn view(&self) -> ReconcilerView {
        ReconcilerView {
            config: self.config@,
            base_url: self.base_url@,
            repeat: self.repeat,
            last_ipv4: self.last_ipv4.deep_view(),
            last_ipv6: self.last_ipv6.deep_view(),
            phase: self.phase,
            ipv4: self.ipv4.deep_view(),
            ipv6: self.ipv6.deep_view(),
            planned: plan_view(self.planned@),
        }
    }
}

/// A loop that has published nothing yet and starts by resolving.
pub open spec fn initial_state(c: ConfigView, base: Seq<char>, repeat: Option<u64>) -> ReconcilerView {
    ReconcilerView {
        config: c,
        base_url: base,
        repeat,
        last_ipv4: None,
        last_ipv6: None,
        phase: Phase::Resolving,
        ipv4: None,
        ipv6: None,
        planned: seq![],
    }
}

/// Where a cycle leads: to a sleep of the delay when repeating, else to the end.
pub open spec fn cycle_end(repeat: Option<u64>) -> (Phase, ActionView) {
    match repeat {
        Some(d) => (Phase::Sleeping, ActionView::Sleep(d)),
        None => (Phase::Done, ActionView::Finish),
    }
}

/// The step taken once both lookups have ended: an updating cycle plans every
/// record and dispatches its calls; any other cycle ends at once.
pub open spec fn on_resolved(
    s: ReconcilerView,
    ipv4: Result<Seq<char>, Seq<char>>,
    ipv6: Result<Seq<char>, Seq<char>>,
) -> (ReconcilerView, ActionView) {
    if update_required(s.last_ipv4, s.last_ipv6, found(ipv4), found(ipv6), s.config.always_update) {
        let p = cycle_plan(s.config, s.base_url, ipv4, ipv6);
        (
            ReconcilerView { phase: Phase::Updating, ipv4: found(ipv4), ipv6: found(ipv6), planned: p, ..s },
            ActionView::Dispatch(sends(p)),
        )
    } else {
        (ReconcilerView { phase: cycle_end(s.repeat).0, ..s }, cycle_end(s.repeat).1)
    }
}

/// The step taken once every call of the cycle has ended: the published
/// addresses advance to the cycle's if and only if every outcome succeeded.
pub open spec fn on_replied(
    s: ReconcilerView,
    replies: Seq<Result<HttpReplyView, Seq<char>>>,
) -> (ReconcilerView, ActionView) {
    let advance = all_succeeded(cycle_outcomes(s.planned, replies));
    (
        ReconcilerView {
            last_ipv4: if advance { s.ipv4 } else { s.last_ipv4 },
            last_ipv6: if advance { s.ipv6 } else { s.last_ipv6 },
            phase: cycle_end(s.repeat).0,
            planned: seq![],
            ..s
        },
        cycle_end(s.repeat).1,
    )
}

/// The step taken once the delay between cycles is over.
pub open spec fn on_woke(s: ReconcilerView) -> (ReconcilerView, ActionView) {
    (ReconcilerView { phase: Phase::Resolving, ..s }, ActionView::Resolve)
}

/// The address a lookup found, if it found one.
fn found_address(lookup: &Result<String, String>) -> (r: Option<String>)
    ensures
        r.deep_view() == found(text_result(*lookup)),
{
    match lookup {
        Ok(a) => Some(a.clone()),
        Err(_) => None,
    }
}

impl Reconciler {
    /// A loop over `config` against the API at `base_url`, repeating after
    /// `repeat` seconds if given. Its first action is to resolve.
    pub fn new(config: Config, base_url: String, repeat: Option<u64>) -> (r: Reconciler)
        ensures
            r@ == initial_state(config@, base_url@, repeat),
    {
        let r = Reconciler {
            config,
            base_url,
            repeat,
            last_ipv4: None,
            last_ipv6: None,
            phase: Phase::Resolving,
            ipv4: None,
            ipv6: None,
            planned: Vec::new(),
        };
        assert(r@.planned =~= seq![]);
        r
    }

    /// Where the loop stands.
    pub fn phase(&self) -> (r: Phase)
        ensures
            r == self@.phase,
    {
        self.phase
    }

    /// The IPv4 address last published with full success.
    pub fn last_ipv4(&self) -> (r: &Option<String>)
        ensures
            r.deep_view() == self@.last_ipv4,
    {
        &self.last_ipv4
    }

    /// The IPv6 address last published with full success.
    pub fn last_ipv6(&self) -> (r: &Option<String>)
        ensures
            r.deep_view() == self@.last_ipv6,
    {
        &self.last_ipv6
    }

    /// The configuration the loop serves.
    pub fn config(&self) -> (r: &Config)
        ensures
            r@ == self@.config,
    {
        &self.config
    }

    /// Ends the cycle: sleep when repeating, else finish.
    fn end_cycle(&mut self) -> (a: Action)
        ensures
            final(self)@ == (ReconcilerView { phase: cycle_end(old(self)@.repeat).0, ..old(self)@ }),
            a@ == cycle_end(old(self)@.repeat).1,
    {
        match self.repeat {
            Some(d) => {
                self.phase = Phase::Sleeping;
                Action::Sleep(d)
            },
            None => {
                self.phase = Phase::Done;
                Action::Finish
            },
        }
    }

    /// Takes the ends of the two lookups (an address, or why none was found)
    /// and decides the cycle.
    pub fn resolved(&mut self, ipv4: Result<String, String>, ipv6: Result<String, String>) -> (a: Action)
        requires
            old(self)@.phase == Phase::Resolving,
        ensures
            (final(self)@, a@) == on_resolved(old(self)@, text_result(ipv4), text_result(ipv6)),
    {
        if needs_update(&self.last_ipv4, &self.last_ipv6, &ipv4, &ipv6, self.config.always_update) {
            let planned = plan_cycle(&self.config, self.base_url.as_str(), &ipv4, &ipv6);
            let requests = requests_of(&planned);
            self.ipv4 = found_address(&ipv4);
            self.ipv6 = found_address(&ipv6);
            self.planned = planned;
            self.phase = Phase::Updating;
            Action::Dispatch(requests)
        } else {
            self.end_cycle()
        }
    }

    /// Takes the ends of the cycle's calls, in the order they were
    /// dispatched, and returns the outcome of every planned record with the
    /// next action.
    pub fn replied(&mut self, replies: Vec<Result<HttpReply, String>>) -> (r: (Vec<ResponseFeedback>, Action))
        requires
            old(self)@.phase == Phase::Updating,
            replies@.len() == sends(old(self)@.planned).len(),
        ensures
            feedback_view(r.0@) == cycle_outcomes(old(self)@.planned, replies_view(replies@)),
            (final(self)@, r.1@) == on_replied(old(self)@, replies_view(replies@)),
    {
        let mut planned: Vec<PlannedUpdate> = Vec::new();
        std::mem::swap(&mut planned, &mut self.planned);
        let outcomes = merge_outcomes(planned, &replies);
        if cycle_succeeded(&outcomes) {
            self.last_ipv4 = copy_opt(&self.ipv4);
            self.last_ipv6 = copy_opt(&self.ipv6);
        }
        assert(self@.planned =~= seq![]);
        let a = self.end_cycle();
        (outcomes, a)
    }

    /// Starts the next cycle once the delay is over.
    pub fn woke(&mut self) -> (a: Action)
        requires
            old(self)@.phase == Phase::Sleeping,
        ensures
            (final(self)@, a@) == on_woke(old(self)@),
    {
        self.phase = Phase::Resolving;
        Action::Resolve
    }
}

} // verus!
