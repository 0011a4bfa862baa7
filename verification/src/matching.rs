//! Match delivery: the bridge between the engine's one-callback-per-match
//! protocol and caller-supplied handling logic that can stop a scan early.
//! The engine hands the facade a run of match events; the facade delivers
//! them to a handler one by one, in order, stopping the moment the handler
//! asks to terminate.

use vstd::prelude::*;

use crate::error::{Error, HyperscanErrorCode};

verus! {

/// A handler's answer to one delivered match: keep scanning, or stop now.
#[derive(Clone, Copy, Debug, PartialEq, Eq, Structural)]
pub enum Scan {
    /// keep scanning
    Continue,
    /// stop this scan call immediately
    Terminate,
}

/// One match, as the engine reports it: the matched pattern's identifier,
/// the match's start offset (`0` unless start-of-match tracking was
/// requested at compile time), the offset one past its last byte, and the
/// engine's per-match flags.
#[derive(Clone, Copy, Debug, PartialEq, Eq, Structural)]
pub struct MatchEvent {
    /// the identifier of the pattern that matched
    pub id: u32,
    /// the start offset, `0` without start-of-match tracking
    pub from: u64,
    /// the offset one past the match's last byte
    pub to: u64,
    /// the engine's per-match flags
    pub flags: u32,
}

/// The sentinel the engine's callback protocol expects: `0` to keep
/// scanning, a non-zero value to stop.
pub fn callback_code(s: Scan) -> (r: i32)
    ensures
        r == 0 <==> s is Continue,
        s is Terminate ==> r == 1,
{
    match s {
        Scan::Continue => 0,
        Scan::Terminate => 1,
    }
}

/// Translates a finished engine call into this library's outcome: success
/// means the whole input was scanned, the scan-terminated status is the
/// normal early-stop outcome rather than an error, and every other status
/// stays an error.
pub fn scan_outcome(res: Result<(), Error>) -> (r: Result<Scan, Error>)
    ensures
        match res {
            Ok(_) => r matches Ok(s) && s is Continue,
            Err(e) => {
                if e matches Error::Hyperscan(c, _) && c == HyperscanErrorCode::ScanTerminated {
                    r matches Ok(s) && s is Terminate
                } else {
                    r matches Err(e2) && e2 == e
                }
            },
        },
{
    match res {
        Ok(_) => Ok(Scan::Continue),
        Err(e) => match e {
            Error::Hyperscan(HyperscanErrorCode::ScanTerminated, _) => Ok(Scan::Terminate),
            other => Err(other),
        },
    }
}

/// Caller-supplied match handling. A handler answers every delivered match
/// with a `Scan` decision; its view, the decision it makes next, and the
/// view it steps to are its model, so delivery can be specified exactly.
pub trait MatchHandler: View + Sized {
    /// Whether a handler in state `v` answers `m` with `Continue`.
    spec fn continues_after(v: Self::V, m: MatchEvent) -> bool;

    /// The state a handler in state `v` is in after handling `m`.
    spec fn stepped(v: Self::V, m: MatchEvent) -> Self::V;

    /// Handles one match and decides whether scanning goes on.
    fn on_match(&mut self, m: MatchEvent) -> (r: Scan)
        ensures
            final(self)@ == Self::stepped(old(self)@, m),
            r == (if Self::continues_after(old(self)@, m) {
                Scan::Continue
            } else {
                Scan::Terminate
            }),
    ;
}

/// The handler state after a run of events is delivered: events are handed
/// over in order, and delivery stops right after the first one the handler
/// answers with `Terminate`.
pub open spec fn delivered_state<H: MatchHandler>(v: H::V, evs: Seq<MatchEvent>) -> H::V
    decreases evs.len(),
{
    if evs.len() == 0 {
        v
    } else if H::continues_after(v, evs[0]) {
        delivered_state::<H>(H::stepped(v, evs[0]), evs.drop_first())
    } else {
        H::stepped(v, evs[0])
    }
}

/// The outcome of delivering a run of events: `Terminate` exactly when the
/// handler stopped the delivery before its end.
pub open spec fn delivery_outcome<H: MatchHandler>(v: H::V, evs: Seq<MatchEvent>) -> Scan
    decreases evs.len(),
{
    if evs.len() == 0 {
        Scan::Continue
    } else if H::continues_after(v, evs[0]) {
        delivery_outcome::<H>(H::stepped(v, evs[0]), evs.drop_first())
    } else {
        Scan::Terminate
    }
}

/// How many events a delivery hands to the handler before it returns.
pub open spec fn delivered_count<H: MatchHandler>(v: H::V, evs: Seq<MatchEvent>) -> int
    decreases evs.len(),
{
    if evs.len() == 0 {
        0
    } else if H::continues_after(v, evs[0]) {
        1 + delivered_count::<H>(H::stepped(v, evs[0]), evs.drop_first())
    } else {
        1
    }
}

/// A delivery hands over between none and all of the events.
pub proof fn lemma_delivered_count_bounds<H: MatchHandler>(v: H::V, evs: Seq<MatchEvent>)
    ensures
        0 <= delivered_count::<H>(v, evs) <= evs.len(),
    decreases evs.len(),
{
    if evs.len() > 0 && H::continues_after(v, evs[0]) {
        lemma_delivered_count_bounds::<H>(H::stepped(v, evs[0]), evs.drop_first());
    }
}

/// Delivers the events from position `i` on.
fn deliver_events_from<H: MatchHandler>(events: &Vec<MatchEvent>, i: usize, h: &mut H) -> (r: Scan)
    requires
        i <= events@.len(),
    ensures
        final(h)@ == delivered_state::<H>(old(h)@, events@.skip(i as int)),
        r == delivery_outcome::<H>(old(h)@, events@.skip(i as int)),
    decreases events@.len() - i,
{
    if i == events.len() {
        proof {
            assert(events@.skip(i as int) =~= Seq::<MatchEvent>::empty());
        }
        return Scan::Continue;
    }
    let m = events[i];
    proof {
        assert(events@.skip(i as int)[0] == events@[i as int]);
        assert(events@.skip(i as int).drop_first() =~= events@.skip(i as int + 1));
    }
    match h.on_match(m) {
        Scan::Continue => deliver_events_from(events, i + 1, h),
        Scan::Terminate => Scan::Terminate,
    }
}

/// Delivers a run of match events to a handler, in order, stopping right
/// after the first `Terminate` answer. Returns `Terminate` exactly when the
/// handler stopped the delivery early.
pub fn deliver_events<H: MatchHandler>(events: &Vec<MatchEvent>, h: &mut H) -> (r: Scan)
    ensures
        final(h)@ == delivered_state::<H>(old(h)@, events@),
        r == delivery_outcome::<H>(old(h)@, events@),
{
    let r = deliver_events_from(events, 0, h);
    proof {
        assert(events@.skip(0) =~= events@);
    }
    r
}

/// The model of a `MatchCollector`: the matches it has kept, in delivery
/// order, and its optional limit.
pub ghost struct CollectorView {
    /// every match delivered so far, in order
    pub matches: Seq<MatchEvent>,
    /// stop after this many matches, if set
    pub limit: Option<usize>,
}

/// A handler that keeps every delivered match, in order, and — when a limit
/// is set — asks to terminate as soon as it holds that many.
#[derive(Debug)]
pub struct MatchCollector {
    pub(crate) matches: Vec<MatchEvent>,
    pub(crate) limit: Option<usize>,
}

impl View for MatchCollector {
    type V = CollectorView;

    closed spec fn view(&self) -> CollectorView {
        CollectorView { matches: self.matches@, limit: self.limit }
    }
}

impl MatchCollector {
    /// A collector without a limit: it never asks to terminate.
    pub fn new() -> (c: Self)
        ensures
            c@.matches == Seq::<MatchEvent>::empty(),
            c@.limit is None,
    {
        MatchCollector { matches: Vec::new(), limit: None }
    }

    /// A collector that asks to terminate as soon as it holds `k` matches.
    pub fn with_limit(k: usize) -> (c: Self)
        ensures
            c@.matches == Seq::<MatchEvent>::empty(),
            c@.limit == Some(k),
    {
        MatchCollector { matches: Vec::new(), limit: Some(k) }
    }

    /// The matches collected so far, in delivery order.
    pub fn matches(&self) -> (m: &Vec<MatchEvent>)
        ensures
            m@ == self@.matches,
    {
        &self.matches
    }

    /// How many matches are collected so far.
    pub fn count(&self) -> (n: usize)
        ensures
            n == self@.matches.len(),
    {
        self.matches.len()
    }
}

impl MatchHandler for MatchCollector {
    open spec fn continues_after(v: CollectorView, m: MatchEvent) -> bool {
        match v.limit {
            None => true,
            Some(k) => v.matches.len() + 1 < k,
        }
    }

    open spec fn stepped(v: CollectorView, m: MatchEvent) -> CollectorView {
        CollectorView { matches: v.matches.push(m), limit: v.limit }
    }

    fn on_match(&mut self, m: MatchEvent) -> (r: Scan) {
        self.matches.push(m);
        match self.limit {
            None => Scan::Continue,
            Some(k) => {
                if self.matches.len() < k {
                    Scan::Continue
                } else {
                    Scan::Terminate
                }
            },
        }
    }
}

/// A handler that always continues is handed every event: afterwards it
/// holds the whole run, appended in order, and the delivery reports that
/// the input was fully scanned.
pub proof fn lemma_collector_reports_all(v: CollectorView, evs: Seq<MatchEvent>)
    requires
        v.limit is None,
    ensures
        delivered_state::<MatchCollector>(v, evs).matches == v.matches + evs,
        delivered_state::<MatchCollector>(v, evs).limit is None,
        delivery_outcome::<MatchCollector>(v, evs) == Scan::Continue,
    decreases evs.len(),
{
    if evs.len() == 0 {
        assert(v.matches + evs =~= v.matches);
    } else {
        let v2 = CollectorView { matches: v.matches.push(evs[0]), limit: v.limit };
        lemma_collector_reports_all(v2, evs.drop_first());
        assert(v.matches.push(evs[0]) + evs.drop_first() =~= v.matches + evs);
    }
}

/// Early termination with a limit of `k` remaining matches: when the run
/// holds at least that many events, exactly the first `k` are delivered and
/// the delivery stops there; a shorter run is delivered whole and the scan
/// runs to completion.
pub proof fn lemma_collector_stops_at_limit(v: CollectorView, evs: Seq<MatchEvent>, k: usize)
    requires
        v.limit == Some(k),
        v.matches.len() < k,
    ensures
        v.matches.len() + evs.len() < k ==> {
            &&& delivered_state::<MatchCollector>(v, evs).matches == v.matches + evs
            &&& delivery_outcome::<MatchCollector>(v, evs) == Scan::Continue
        },
        v.matches.len() + evs.len() >= k ==> {
            &&& delivered_state::<MatchCollector>(v, evs).matches == v.matches + evs.take(
                k - v.matches.len(),
            )
            &&& delivery_outcome::<MatchCollector>(v, evs) == Scan::Terminate
        },
    decreases evs.len(),
{
    if evs.len() == 0 {
        assert(v.matches + evs =~= v.matches);
    } else {
        let v2 = CollectorView { matches: v.matches.push(evs[0]), limit: v.limit };
        if v.matches.len() + 1 < k {
            lemma_collector_stops_at_limit(v2, evs.drop_first(), k);
            if v.matches.len() + evs.len() < k {
                assert(v.matches.push(evs[0]) + evs.drop_first() =~= v.matches + evs);
            } else {
                assert(v.matches.push(evs[0]) + evs.drop_first().take(k - v2.matches.len())
                    =~= v.matches + evs.take(k - v.matches.len()));
            }
        } else {
            assert(v.matches.push(evs[0]) =~= v.matches + evs.take(1));
        }
    }
}

} // verus!

