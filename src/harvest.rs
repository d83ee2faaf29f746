//! The orchestrator of a run, as a state machine.
//!
//! A run lists the collections of one set, expands the collections one at a
//! time into item locators, and hands each item to a detail fetch. Fetches wait
//! for a permit of the admission gate and run concurrently; every fetched
//! record goes to the aggregator. The report is due only once every dispatched
//! fetch has settled. The caller performs each returned action and feeds the
//! outcome back through the matching method; a fetch that hangs holds its
//! permit, and the run waits for it.
use vstd::prelude::*;
use crate::aggregate::Aggregator;
use crate::gate::Gate;
use crate::record::{Comic, ComicInfo, LambdaResponse, PublisherResponse};
use crate::wire::{collections_request, locator_request, single_member_object};

verus! {

/// Where a run stands.
#[derive(Clone, Copy, Debug, PartialEq, Eq, Structural)]
pub enum Phase {
    FetchingCollections,
    Expanding,
    Draining,
    Reporting,
    Aborted,
}

/// What the caller is asked to do next.
#[derive(Debug)]
pub enum Action {
    /// Send `body` to the list-collections operation.
    ListCollections { body: String },
    /// Send `body` to the list-items operation, for collection `index`.
    ListItems { index: usize, body: String },
    /// Send `body` to the get-detail operation for item `url`; the fetch holds
    /// a permit of the pool until its outcome is fed back.
    FetchDetail { task: usize, url: String, body: String },
    /// Every dispatched fetch has settled: report the collected records.
    Report,
    /// A fatal failure: stop without a report.
    Abort,
}

/// The action that starts the fetch of `url` as task `task`.
pub open spec fn is_fetch(a: Action, task: int, url: Seq<char>) -> bool {
    match a {
        Action::FetchDetail { task: t, url: u, body } => t == task && u@ == url && body@
            == single_member_object("url"@, url),
        _ => false,
    }
}

/// The action that expands collection `index`, whose locator is `url`.
pub open spec fn is_list_items(a: Action, index: int, url: Seq<char>) -> bool {
    match a {
        Action::ListItems { index: i, body } => i == index && body@ == single_member_object(
            "url"@,
            url,
        ),
        _ => false,
    }
}

/// The state of one run.
pub struct Harvest {
    pub phase: Phase,
    /// The collections listed by the discovery call.
    pub collections: Vec<Comic>,
    /// The collection being expanded.
    pub next: usize,
    /// Dispatched item locators still waiting for a permit, oldest first.
    pub waiting: Vec<String>,
    pub gate: Gate,
    /// Item locators dispatched so far, over all collections.
    pub dispatched: usize,
    /// Fetches started so far; each started fetch is in flight or settled.
    pub started: usize,
    /// Fetches that settled without a record.
    pub failed: usize,
    pub results: Aggregator,
}

impl Harvest {
    /// Fetches settled so far.
    pub open spec fn settled(&self) -> int {
        self.started - self.gate.in_flight
    }

    /// No fetch waits and none is in flight.
    pub open spec fn drained(&self) -> bool {
        self.waiting@.len() == 0 && self.gate.in_flight == 0
    }

    pub open spec fn wf(&self) -> bool {
        &&& self.gate.wf()
        &&& self.started + self.waiting@.len() == self.dispatched
        &&& self.gate.in_flight <= self.started
        &&& self.settled() == self.results.records@.len() + self.failed
        &&& self.waiting@.len() > 0 ==> self.gate.in_flight == self.gate.capacity
        &&& self.phase == Phase::FetchingCollections ==> self.dispatched == 0
        &&& self.phase == Phase::Expanding ==> self.next < self.collections@.len()
        &&& self.phase == Phase::Reporting ==> self.drained()
    }

    /// The parts of a run that starting fetches leaves alone.
    pub open spec fn same_plan(&self, other: &Harvest) -> bool {
        &&& self.phase == other.phase
        &&& self.collections@ == other.collections@
        &&& self.next == other.next
        &&& self.dispatched == other.dispatched
        &&& self.failed == other.failed
        &&& self.results.records@ == other.results.records@
        &&& self.gate.capacity == other.gate.capacity
    }

    /// A run whose gate holds `max_in_flight` permits, about to list the
    /// collections.
    pub fn new(max_in_flight: usize) -> (r: Harvest)
        requires
            max_in_flight > 0,
        ensures
            r.wf(),
            r.phase == Phase::FetchingCollections,
            r.gate.capacity == max_in_flight,
            r.results.records@.len() == 0,
            r.dispatched == 0,
    {
        Harvest {
            phase: Phase::FetchingCollections,
            collections: Vec::new(),
            next: 0,
            waiting: Vec::new(),
            gate: Gate::new(max_in_flight),
            dispatched: 0,
            started: 0,
            failed: 0,
            results: Aggregator::new(),
        }
    }

    /// The first action of a run: list the collections of the named set.
    pub fn start(&self, set_name: &str) -> (r: Action)
        ensures
            r matches Action::ListCollections { body } && body@ == single_member_object(
                "name"@,
                set_name@,
            ),
    {
        Action::ListCollections { body: collections_request(set_name) }
    }

    /// Starts waiting fetches, oldest first, while permits are free.
    fn start_waiting(&mut self, out: &mut Vec<Action>)
        requires
            old(self).gate.wf(),
            old(self).gate.in_flight <= old(self).started,
            old(self).started + old(self).waiting@.len() == old(self).dispatched,
        ensures
            final(self).same_plan(old(self)),
            final(self).gate.wf(),
            final(self).started >= old(self).started,
            final(self).started + final(self).waiting@.len() == final(self).dispatched,
            final(self).gate.in_flight <= final(self).started,
            final(self).gate.in_flight - old(self).gate.in_flight == final(self).started
                - old(self).started,
            final(self).waiting@ == old(self).waiting@.subrange(
                final(self).started - old(self).started,
                old(self).waiting@.len() as int,
            ),
            final(self).waiting@.len() > 0 ==> final(self).gate.in_flight
                == final(self).gate.capacity,
            final(out)@.len() == old(out)@.len() + (final(self).started - old(self).started),
            final(out)@.subrange(0, old(out)@.len() as int) == old(out)@,
            forall|i: int|
                0 <= i < final(self).started - old(self).started ==> is_fetch(
                    #[trigger] final(out)@[old(out)@.len() + i],
                    old(self).started + i,
                    old(self).waiting@[i]@,
                ),
    {
        let ghost s0 = *self;
        let ghost o0 = out@;
        while self.waiting.len() > 0 && self.gate.has_free()
            invariant
                self.same_plan(&s0),
                s0.started + s0.waiting@.len() == s0.dispatched,
                self.gate.wf(),
                self.started >= s0.started,
                self.gate.in_flight - s0.gate.in_flight == self.started - s0.started,
                self.started + self.waiting@.len() == s0.dispatched,
                self.waiting@ == s0.waiting@.subrange(
                    self.started - s0.started,
                    s0.waiting@.len() as int,
                ),
                out@.len() == o0.len() + (self.started - s0.started),
                out@.subrange(0, o0.len() as int) == o0,
                forall|i: int|
                    0 <= i < self.started - s0.started ==> is_fetch(
                        #[trigger] out@[o0.len() + i],
                        s0.started + i,
                        s0.waiting@[i]@,
                    ),
            decreases self.waiting@.len(),
        {
            let ghost k = self.started - s0.started;
            let ghost w = self.waiting@;
            let url = self.waiting.remove(0);
            let acquired = self.gate.try_acquire();
            let body = locator_request(url.as_str());
            out.push(Action::FetchDetail { task: self.started, url, body });
            self.started = self.started + 1;
            proof {
                assert(acquired);
                assert(w[0] == s0.waiting@[k]);
                assert(self.waiting@ =~= w.drop_first());
                assert(self.waiting@ =~= s0.waiting@.subrange(
                    self.started - s0.started,
                    s0.waiting@.len() as int,
                ));
                assert(out@.subrange(0, o0.len() as int) =~= o0);
                assert forall|i: int| 0 <= i < self.started - s0.started implies is_fetch(
                    #[trigger] out@[o0.len() + i],
                    s0.started + i,
                    s0.waiting@[i]@,
                ) by {
                    if i < k {
                    } else {
                        assert(i == k);
                    }
                }
            }
        }
    }

    /// Feeds back the reply of the list-collections call. Outside the
    /// discovery phase the run is left as it is and nothing is asked.
    pub fn collections_listed(&mut self, resp: PublisherResponse) -> (r: Vec<Action>)
        requires
            old(self).wf(),
        ensures
            final(self).wf(),
            old(self).phase != Phase::FetchingCollections ==> *final(self) == *old(self)
                && r@.len() == 0,
            old(self).phase == Phase::FetchingCollections ==> {
                &&& final(self).collections@ == resp.comics@
                &&& final(self).dispatched == 0
                &&& final(self).next == 0
                &&& resp.comics@.len() == 0 ==> final(self).phase == Phase::Reporting && r@
                    == seq![Action::Report]
                &&& resp.comics@.len() > 0 ==> final(self).phase == Phase::Expanding && r@.len()
                    == 1 && is_list_items(r@[0], 0, resp.comics@[0].url@)
            },
    {
        let mut out: Vec<Action> = Vec::new();
        if self.phase != Phase::FetchingCollections {
            return out;
        }
        self.collections = resp.comics;
        self.next = 0;
        if self.collections.len() == 0 {
            self.phase = Phase::Reporting;
            out.push(Action::Report);
            assert(out@ =~= seq![Action::Report]);
        } else {
            self.phase = Phase::Expanding;
            out.push(Action::ListItems { index: 0, body: locator_request(self.collections[0].url.as_str()) });
        }
        out
    }

    /// Feeds back a failed list-collections call: the run aborts.
    pub fn collections_failed(&mut self) -> (r: Vec<Action>)
        requires
            old(self).wf(),
        ensures
            final(self).wf(),
            old(self).phase != Phase::FetchingCollections ==> *final(self) == *old(self)
                && r@.len() == 0,
            old(self).phase == Phase::FetchingCollections ==> final(self).phase
                == Phase::Aborted && r@ == seq![Action::Abort],
    {
        let mut out: Vec<Action> = Vec::new();
        if self.phase == Phase::FetchingCollections {
            self.phase = Phase::Aborted;
            out.push(Action::Abort);
            assert(out@ =~= seq![Action::Abort]);
        }
        out
    }

    /// Feeds back a failed list-items call: the run aborts.
    pub fn items_failed(&mut self) -> (r: Vec<Action>)
        requires
            old(self).wf(),
        ensures
            final(self).wf(),
            old(self).phase != Phase::Expanding ==> *final(self) == *old(self) && r@.len() == 0,
            old(self).phase == Phase::Expanding ==> final(self).phase == Phase::Aborted && r@
                == seq![Action::Abort],
    {
        let mut out: Vec<Action> = Vec::new();
        if self.phase == Phase::Expanding {
            self.phase = Phase::Aborted;
            out.push(Action::Abort);
            assert(out@ =~= seq![Action::Abort]);
        }
        out
    }

    /// Feeds back the reply of the list-items call for the collection being
    /// expanded. Its item locators are dispatched, and as many fetches start
    /// as the permit pool admits; then the next collection is expanded, or, after the
    /// last one, the run drains, and reports at once if nothing is pending.
    /// Outside the expansion phase the run is left as it is and nothing is
    /// asked; a count of items past the machine's range aborts the run.
    pub fn items_listed(&mut self, resp: LambdaResponse) -> (r: Vec<Action>)
        requires
            old(self).wf(),
        ensures
            final(self).wf(),
            old(self).phase != Phase::Expanding ==> *final(self) == *old(self) && r@.len() == 0,
            old(self).phase == Phase::Expanding && old(self).dispatched + resp.urls@.len()
                > usize::MAX ==> final(self).phase == Phase::Aborted && r@ == seq![Action::Abort],
            old(self).phase == Phase::Expanding && old(self).dispatched + resp.urls@.len()
                <= usize::MAX ==> {
                let k = final(self).started - old(self).started;
                let queue = old(self).waiting@ + resp.urls@;
                let more = old(self).next + 1 < old(self).collections@.len();
                &&& final(self).dispatched == old(self).dispatched + resp.urls@.len()
                &&& final(self).collections@ == old(self).collections@
                &&& final(self).results.records@ == old(self).results.records@
                &&& final(self).failed == old(self).failed
                &&& final(self).next == old(self).next + 1
                &&& final(self).waiting@ == queue.subrange(k, queue.len() as int)
                &&& k <= r@.len()
                &&& forall|i: int| 0 <= i < k ==> is_fetch(#[trigger] r@[i], old(self).started + i, queue[i]@)
                &&& more ==> final(self).phase == Phase::Expanding && r@.len() == k + 1
                    && is_list_items(r@[k], old(self).next + 1, old(self).collections@[old(self).next + 1].url@)
                &&& !more && final(self).drained() ==> final(self).phase == Phase::Reporting
                    && r@.len() == k + 1 && r@[k] == Action::Report
                &&& !more && !final(self).drained() ==> final(self).phase == Phase::Draining
                    && r@.len() == k
            },
    {
        let mut out: Vec<Action> = Vec::new();
        if self.phase != Phase::Expanding {
            return out;
        }
        let mut urls = resp.urls;
        if urls.len() > usize::MAX - self.dispatched {
            self.phase = Phase::Aborted;
            out.push(Action::Abort);
            assert(out@ =~= seq![Action::Abort]);
            return out;
        }
        self.dispatched = self.dispatched + urls.len();
        self.waiting.append(&mut urls);
        let ghost st0 = self.started;
        let ghost q = self.waiting@;
        self.start_waiting(&mut out);
        let ghost k = out@.len();
        let ghost o1 = out@;
        let n = self.collections.len();
        self.next = self.next + 1;
        if self.next < n {
            out.push(Action::ListItems {
                index: self.next,
                body: locator_request(self.collections[self.next].url.as_str()),
            });
        } else if self.waiting.len() == 0 && self.gate.in_flight == 0 {
            self.phase = Phase::Reporting;
            out.push(Action::Report);
        } else {
            self.phase = Phase::Draining;
        }
        proof {
            assert forall|i: int| 0 <= i < k implies is_fetch(#[trigger] out@[i], st0 + i, q[i]@) by {
                assert(out@[i] == o1[i]);
                assert(o1[0 + i] == o1[i]);
            }
        }
        out
    }

    /// Releases the permit of a settled fetch, starts waiting fetches, and
    /// enters the report once the run drains after its last expansion.
    fn settle(&mut self, out: &mut Vec<Action>)
        requires
            old(self).wf_but_one_settled(),
            old(out)@.len() == 0,
        ensures
            final(self).wf(),
            final(self).dispatched == old(self).dispatched,
            final(self).collections@ == old(self).collections@,
            final(self).next == old(self).next,
            final(self).results.records@ == old(self).results.records@,
            final(self).failed == old(self).failed,
            final(self).started >= old(self).started,
            final(self).waiting@ == old(self).waiting@.subrange(
                final(self).started - old(self).started,
                old(self).waiting@.len() as int,
            ),
            ({
                let k = final(self).started - old(self).started;
                &&& k <= final(out)@.len()
                &&& forall|i: int| 0 <= i < k ==> is_fetch(#[trigger] final(out)@[i], old(self).started + i, old(self).waiting@[i]@)
                &&& final(self).phase == (if old(self).phase == Phase::Draining && final(self).drained() {
                    Phase::Reporting
                } else {
                    old(self).phase
                })
                &&& final(self).phase == Phase::Reporting ==> final(out)@.len() == k + 1
                    && final(out)@[k] == Action::Report
                &&& final(self).phase != Phase::Reporting ==> final(out)@.len() == k
            }),
    {
        self.gate.release();
        let ghost st0 = self.started;
        let ghost q = self.waiting@;
        self.start_waiting(out);
        let ghost o1 = out@;
        if self.phase == Phase::Draining && self.waiting.len() == 0 && self.gate.in_flight == 0 {
            self.phase = Phase::Reporting;
            out.push(Action::Report);
        }
        proof {
            assert forall|i: int| 0 <= i < self.started - st0 implies is_fetch(#[trigger] out@[i], st0 + i, q[i]@) by {
                assert(out@[i] == o1[i]);
                assert(o1[0 + i] == o1[i]);
            }
        }
    }

    /// The state just after one in-flight fetch settled and was counted, before
    /// its permit is returned.
    pub open spec fn wf_but_one_settled(&self) -> bool {
        &&& self.gate.wf()
        &&& self.started + self.waiting@.len() == self.dispatched
        &&& 0 < self.gate.in_flight <= self.started
        &&& self.settled() + 1 == self.results.records@.len() + self.failed
        &&& self.waiting@.len() > 0 ==> self.gate.in_flight == self.gate.capacity
        &&& self.phase == Phase::Expanding || self.phase == Phase::Draining
        &&& self.phase == Phase::Expanding ==> self.next < self.collections@.len()
    }

    /// A fetch is in flight, so its outcome can be fed back.
    pub open spec fn accepts_outcome(&self) -> bool {
        &&& self.phase == Phase::Expanding || self.phase == Phase::Draining
        &&& self.gate.in_flight > 0
    }

    /// Whether a fetch is in flight, so that its outcome can be fed back.
    pub fn awaits_outcome(&self) -> (r: bool)
        ensures
            r == self.accepts_outcome(),
    {
        (self.phase == Phase::Expanding || self.phase == Phase::Draining) && self.gate.in_flight > 0
    }

    /// Feeds back a fetch that produced a record: the record is appended to
    /// the results, its permit returns to the permit pool, and waiting fetches start.
    /// When nothing is left pending after the last expansion, the report is due.
    /// With no fetch in flight the run is left as it is and nothing is asked.
    pub fn detail_fetched(&mut self, record: ComicInfo) -> (r: Vec<Action>)
        requires
            old(self).wf(),
        ensures
            final(self).wf(),
            !old(self).accepts_outcome() ==> *final(self) == *old(self) && r@.len() == 0,
            old(self).accepts_outcome() ==> {
                let k = final(self).started - old(self).started;
                &&& final(self).dispatched == old(self).dispatched
                &&& final(self).collections@ == old(self).collections@
                &&& final(self).next == old(self).next
                &&& final(self).waiting@ == old(self).waiting@.subrange(k, old(self).waiting@.len() as int)
                &&& k <= r@.len()
                &&& forall|i: int| 0 <= i < k ==> is_fetch(#[trigger] r@[i], old(self).started + i, old(self).waiting@[i]@)
                &&& final(self).phase == (if old(self).phase == Phase::Draining && final(self).drained() {
                    Phase::Reporting
                } else {
                    old(self).phase
                })
                &&& final(self).phase == Phase::Reporting ==> r@.len() == k + 1 && r@[k] == Action::Report
                &&& final(self).phase != Phase::Reporting ==> r@.len() == k
            },
            old(self).accepts_outcome() ==> final(self).results.records@
                == old(self).results.records@.push(record) && final(self).failed == old(self).failed,
    {
        let mut out: Vec<Action> = Vec::new();
        if !self.awaits_outcome() {
            return out;
        }
        self.results.append(record);
        self.settle(&mut out);
        out
    }

    /// Feeds back a fetch that failed: no record is kept for it, its permit
    /// returns to the permit pool, and the run goes on as after a success. With no
    /// fetch in flight the run is left as it is and nothing is asked.
    pub fn detail_failed(&mut self) -> (r: Vec<Action>)
        requires
            old(self).wf(),
        ensures
            final(self).wf(),
            !old(self).accepts_outcome() ==> *final(self) == *old(self) && r@.len() == 0,
            old(self).accepts_outcome() ==> {
                let k = final(self).started - old(self).started;
                &&& final(self).dispatched == old(self).dispatched
                &&& final(self).collections@ == old(self).collections@
                &&& final(self).next == old(self).next
                &&& final(self).waiting@ == old(self).waiting@.subrange(k, old(self).waiting@.len() as int)
                &&& k <= r@.len()
                &&& forall|i: int| 0 <= i < k ==> is_fetch(#[trigger] r@[i], old(self).started + i, old(self).waiting@[i]@)
                &&& final(self).phase == (if old(self).phase == Phase::Draining && final(self).drained() {
                    Phase::Reporting
                } else {
                    old(self).phase
                })
                &&& final(self).phase == Phase::Reporting ==> r@.len() == k + 1 && r@[k] == Action::Report
                &&& final(self).phase != Phase::Reporting ==> r@.len() == k
            },
            old(self).accepts_outcome() ==> final(self).results.records@
                == old(self).results.records@ && final(self).failed == old(self).failed + 1,
    {
        let mut out: Vec<Action> = Vec::new();
        if !self.awaits_outcome() {
            return out;
        }
        self.failed = self.failed + 1;
        self.settle(&mut out);
        out
    }

    /// Whether the report is due.
    pub fn is_reporting(&self) -> (r: bool)
        ensures
            r == (self.phase == Phase::Reporting),
    {
        self.phase == Phase::Reporting
    }

    /// Ends the run: the collected records, in the order they were appended,
    /// once the report is due; nothing before that.
    pub fn into_report(self) -> (r: Option<Vec<ComicInfo>>)
        ensures
            r is Some <==> self.phase == Phase::Reporting,
            r matches Some(v) ==> v@ == self.results.records@,
    {
        if self.phase == Phase::Reporting {
            Some(self.results.into_records())
        } else {
            None
        }
    }
}

/// At no point of a run are more fetches in flight than the permit pool holds
/// permits, and the most ever in flight at once stays within that bound too.
pub proof fn lemma_admission_bound(h: Harvest)
    requires
        h.wf(),
    ensures
        h.gate.in_flight <= h.gate.capacity,
        h.gate.peak <= h.gate.capacity,
{
}

/// The report is due only once every dispatched fetch has settled: none
/// waits for a permit and none is in flight.
pub proof fn lemma_report_after_all_settled(h: Harvest)
    requires
        h.wf(),
        h.phase == Phase::Reporting,
    ensures
        h.waiting@.len() == 0,
        h.gate.in_flight == 0,
        h.settled() == h.dispatched,
{
}

/// When the report is due, every dispatched item is accounted for: it gave
/// one record or one failure. So when no fetch failed there are as many
/// records as item locators were dispatched over all collections, and when
/// some failed, the records miss exactly that many.
pub proof fn lemma_report_complete(h: Harvest)
    requires
        h.wf(),
        h.phase == Phase::Reporting,
    ensures
        h.results.records@.len() + h.failed == h.dispatched,
        h.failed == 0 ==> h.results.records@.len() == h.dispatched,
        h.failed == 1 ==> h.results.records@.len() + 1 == h.dispatched,
{
}

} // verus!
