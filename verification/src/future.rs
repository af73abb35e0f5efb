//! The `Future` screen's data: scheduled contract executions.
//!
//! A reload filters the active contracts to those whose next execution lies
//! after the moment of the call, maps each to a display event, sorts them
//! ascending by execution time and keeps only the first five.

use crate::app::App;
use crate::contracts::{amount_desc, generic_type_string, labelled_desc, ContractData};
use crate::labels::spec_contract_type_label;
use crate::model::{copy_event, FutureEvent};
use crate::numtext::spec_format_balance;
use crate::textops::str_eq;
use vstd::multiset::Multiset;
use vstd::prelude::*;
use vstd::view::View as _;

verus! {

/// A contract is due for the `Future` screen at time `now` when its next
/// execution lies strictly after `now` and its status says it is still
/// pending or active.  Conditional payments and revenue shares have no
/// scheduled execution.
pub open spec fn spec_eligible(c: ContractData, now: int) -> bool {
    match c {
        ContractData::Invoice { due_date, status, .. } => due_date > now && status@ == "pending"@,
        ContractData::Subscription { next_billing_date, status, .. } => next_billing_date > now
            && status@ == "active"@,
        ContractData::Generic { next_execution_at, status, .. } => next_execution_at > now
            && status == 1i32,
        _ => false,
    }
}

/// The eligible contracts of `s` at time `now`, in their original order.
pub open spec fn spec_eligible_seq(s: Seq<ContractData>, now: int) -> Seq<ContractData>
    decreases s.len(),
{
    if s.len() == 0 {
        Seq::empty()
    } else {
        spec_eligible_seq(s.drop_last(), now) + if spec_eligible(s.last(), now) {
            seq![s.last()]
        } else {
            Seq::empty()
        }
    }
}

/// How an eligible contract appears as a `Future` screen event.
pub open spec fn spec_event_matches(c: ContractData, e: FutureEvent) -> bool {
    match c {
        ContractData::Invoice { id, amount_cents, supplier_id, buyer_id, due_date, .. } => {
            &&& e.contract_id == id
            &&& e.contract_type@ == "Invoice"@
            &&& e.description@ == "Invoice payment: "@ + spec_format_balance(amount_cents as int)
                + " from "@ + supplier_id@ + " to "@ + buyer_id@
            &&& e.execution_time == due_date
        },
        ContractData::Subscription {
            id,
            monthly_fee_cents,
            provider_id,
            subscriber_id,
            next_billing_date,
            ..
        } => {
            &&& e.contract_id == id
            &&& e.contract_type@ == "Subscription"@
            &&& e.description@ == "Subscription billing: "@ + spec_format_balance(
                monthly_fee_cents as int,
            ) + " from "@ + provider_id@ + " to "@ + subscriber_id@
            &&& e.execution_time == next_billing_date
        },
        ContractData::Generic { id, contract_type, name, description, next_execution_at, .. } => {
            &&& e.contract_id == id
            &&& e.contract_type@ == "Generic ("@ + spec_contract_type_label(contract_type as int)
                + ")"@
            &&& e.description@ == name@ + ": "@ + description@
            &&& e.execution_time == next_execution_at
        },
        _ => false,
    }
}

/// The events are in ascending order of execution time.
pub open spec fn spec_sorted_by_time(s: Seq<FutureEvent>) -> bool {
    forall|i: int, j: int|
        0 <= i < j < s.len() ==> #[trigger] s[i].execution_time <= #[trigger] s[j].execution_time
}

/// Build the display event of one eligible contract.
fn event_of_contract(c: &ContractData) -> (e: FutureEvent)
    requires
        !(*c is ConditionalPayment),
        !(*c is RevenueShare),
        !(*c is Unknown),
    ensures
        spec_event_matches(*c, e),
{
    match c {
        ContractData::Invoice { id, amount_cents, supplier_id, buyer_id, due_date, status: _ } => {
            FutureEvent {
                contract_id: id.clone(),
                contract_type: "Invoice".to_owned(),
                description: amount_desc(
                    "Invoice payment: ",
                    *amount_cents,
                    " from ",
                    supplier_id.as_str(),
                    buyer_id.as_str(),
                ),
                execution_time: *due_date,
            }
        }
        ContractData::Subscription {
            id,
            monthly_fee_cents,
            provider_id,
            subscriber_id,
            next_billing_date,
            status: _,
        } => {
            FutureEvent {
                contract_id: id.clone(),
                contract_type: "Subscription".to_owned(),
                description: amount_desc(
                    "Subscription billing: ",
                    *monthly_fee_cents,
                    " from ",
                    provider_id.as_str(),
                    subscriber_id.as_str(),
                ),
                execution_time: *next_billing_date,
            }
        }
        ContractData::Generic {
            id,
            contract_type,
            name,
            description,
            next_execution_at,
            status: _,
            metadata: _,
        } => {
            FutureEvent {
                contract_id: id.clone(),
                contract_type: generic_type_string(*contract_type),
                description: labelled_desc(name.as_str(), description.as_str()),
                execution_time: *next_execution_at,
            }
        }
        _ => {
            FutureEvent {
                contract_id: String::new(),
                contract_type: String::new(),
                description: String::new(),
                execution_time: 0,
            }
        }
    }
}

/// Map the contracts that are due after `now` to display events, keeping
/// the contract order.
pub fn eligible_future_events(contracts: &Vec<ContractData>, now: i64) -> (r: Vec<FutureEvent>)
    ensures
        r@.len() == spec_eligible_seq(contracts@, now as int).len(),
        forall|i: int|
            0 <= i < r@.len() ==> spec_event_matches(
                spec_eligible_seq(contracts@, now as int)[i],
                #[trigger] r@[i],
            ),
{
    let mut r: Vec<FutureEvent> = Vec::new();
    let mut i: usize = 0;
    proof {
        assert(contracts@.take(0) =~= Seq::<ContractData>::empty());
    }
    while i < contracts.len()
        invariant
            0 <= i <= contracts.len(),
            r@.len() == spec_eligible_seq(contracts@.take(i as int), now as int).len(),
            forall|j: int|
                0 <= j < r@.len() ==> spec_event_matches(
                    spec_eligible_seq(contracts@.take(i as int), now as int)[j],
                    #[trigger] r@[j],
                ),
        decreases contracts.len() - i,
    {
        proof {
            assert(contracts@.take(i + 1 as int).drop_last() =~= contracts@.take(i as int));
            assert(contracts@.take(i + 1 as int).last() == contracts@[i as int]);
        }
        let c = &contracts[i];
        let due = match c {
            ContractData::Invoice { due_date, status, .. } => {
                *due_date > now && str_eq(status.as_str(), "pending")
            }
            ContractData::Subscription { next_billing_date, status, .. } => {
                *next_billing_date > now && str_eq(status.as_str(), "active")
            }
            ContractData::Generic { next_execution_at, status, .. } => {
                *next_execution_at > now && *status == 1
            }
            _ => false,
        };
        if due {
            let e = event_of_contract(c);
            r.push(e);
        }
        i = i + 1;
    }
    proof {
        assert(contracts@.take(contracts@.len() as int) =~= contracts@);
    }
    r
}

/// Insert `e` into the already-sorted `s`, after any event with the same
/// execution time.
pub open spec fn spec_insert_by_time(s: Seq<FutureEvent>, e: FutureEvent) -> Seq<FutureEvent>
    decreases s.len(),
{
    if s.len() == 0 {
        seq![e]
    } else if s.last().execution_time <= e.execution_time {
        s.push(e)
    } else {
        spec_insert_by_time(s.drop_last(), e).push(s.last())
    }
}

/// The stable sort of `s` ascending by execution time: events with equal
/// times keep their relative order.
pub open spec fn spec_stable_sort_by_time(s: Seq<FutureEvent>) -> Seq<FutureEvent>
    decreases s.len(),
{
    if s.len() == 0 {
        Seq::empty()
    } else {
        spec_insert_by_time(spec_stable_sort_by_time(s.drop_last()), s.last())
    }
}

/// Inserting into a sorted sequence keeps it sorted, grows it by one, and
/// adds exactly the inserted event to its contents.
proof fn lemma_insert_by_time_ensures(s: Seq<FutureEvent>, e: FutureEvent)
    requires
        spec_sorted_by_time(s),
    ensures
        spec_insert_by_time(s, e).len() == s.len() + 1,
        spec_sorted_by_time(spec_insert_by_time(s, e)),
        spec_insert_by_time(s, e).to_multiset() == s.to_multiset().insert(e),
    decreases s.len(),
{
    broadcast use vstd::multiset::group_multiset_axioms;
    broadcast use vstd::seq_lib::group_to_multiset_ensures;

    let t = spec_insert_by_time(s, e);
    if s.len() == 0 {
        assert(t =~= Seq::<FutureEvent>::empty().push(e));
        assert(Seq::<FutureEvent>::empty().to_multiset() =~= Multiset::<FutureEvent>::empty());
        assert(t.to_multiset() =~= s.to_multiset().insert(e));
    } else if s.last().execution_time <= e.execution_time {
        assert(spec_sorted_by_time(t)) by {
            assert(forall|i: int|
                0 <= i < s.len() ==> #[trigger] s[i].execution_time
                    <= s.last().execution_time);
        }
    } else {
        let front = s.drop_last();
        assert(spec_sorted_by_time(front)) by {
            assert(forall|i: int| 0 <= i < front.len() ==> front[i] == s[i]);
        }
        lemma_insert_by_time_ensures(front, e);
        let u = spec_insert_by_time(front, e);
        // every event of `u` is an event of `front`, or `e` itself; either
        // way its time stays at or below the time of the removed last event
        assert(forall|i: int|
            0 <= i < u.len() ==> #[trigger] u[i].execution_time <= s.last().execution_time) by {
            assert forall|i: int|
                0 <= i < u.len() implies #[trigger] u[i].execution_time
                <= s.last().execution_time by {
                assert(u.contains(u[i]));
                assert(u.to_multiset().count(u[i]) > 0);
                if u[i] != e {
                    assert(front.to_multiset().count(u[i]) > 0);
                    assert(front.contains(u[i]));
                    let j = choose|j: int| 0 <= j < front.len() && front[j] == u[i];
                    assert(s[j] == front[j]);
                    assert(s[j].execution_time <= s.last().execution_time);
                }
            }
        }
        assert(spec_sorted_by_time(t)) by {
            assert(forall|i: int| 0 <= i < u.len() ==> t[i] == u[i]);
            assert(t.last() == s.last());
        }
        assert(t.to_multiset() =~= s.to_multiset().insert(e)) by {
            assert(t.to_multiset() =~= u.to_multiset().insert(s.last()));
            assert(u.to_multiset() =~= front.to_multiset().insert(e));
            assert(s =~= front.push(s.last()));
            assert(s.to_multiset() =~= front.to_multiset().insert(s.last()));
        }
    }
}

/// The stable sort is sorted and is a reordering of its input: same
/// length, same events counted with multiplicity.
pub proof fn lemma_stable_sort_ensures(s: Seq<FutureEvent>)
    ensures
        spec_stable_sort_by_time(s).len() == s.len(),
        spec_sorted_by_time(spec_stable_sort_by_time(s)),
        spec_stable_sort_by_time(s).to_multiset() == s.to_multiset(),
    decreases s.len(),
{
    broadcast use vstd::multiset::group_multiset_axioms;
    broadcast use vstd::seq_lib::group_to_multiset_ensures;

    if s.len() == 0 {
        assert(spec_stable_sort_by_time(s).to_multiset() =~= s.to_multiset());
    } else {
        let front = s.drop_last();
        lemma_stable_sort_ensures(front);
        lemma_insert_by_time_ensures(spec_stable_sort_by_time(front), s.last());
        assert(s =~= front.push(s.last()));
        assert(s.to_multiset() =~= front.to_multiset().insert(s.last()));
    }
}

/// Insert one event into an already-sorted vector, after any event with
/// the same execution time.
fn insert_event_by_time(v: Vec<FutureEvent>, e: FutureEvent) -> (r: Vec<FutureEvent>)
    ensures
        r@ == spec_insert_by_time(v@, e),
    decreases v@.len(),
{
    let mut v = v;
    if v.len() == 0 {
        v.push(e);
        proof {
            assert(v@ =~= seq![e]);
        }
        v
    } else if v[v.len() - 1].execution_time <= e.execution_time {
        v.push(e);
        v
    } else {
        let last = v.pop().unwrap();
        let mut r = insert_event_by_time(v, e);
        r.push(last);
        r
    }
}

/// Sort events ascending by execution time, stably: the result is exactly
/// the stable sort of the input, so events with equal times keep the order
/// the snapshot gave them.
pub fn sort_events_by_time(events: Vec<FutureEvent>) -> (r: Vec<FutureEvent>)
    ensures
        r@ == spec_stable_sort_by_time(events@),
        r@.len() == events@.len(),
        r@.to_multiset() == events@.to_multiset(),
        spec_sorted_by_time(r@),
{
    let mut out: Vec<FutureEvent> = Vec::new();
    let mut i: usize = 0;
    proof {
        assert(events@.take(0) =~= Seq::<FutureEvent>::empty());
    }
    while i < events.len()
        invariant
            0 <= i <= events@.len(),
            out@ == spec_stable_sort_by_time(events@.take(i as int)),
        decreases events.len() - i,
    {
        proof {
            assert(events@.take(i + 1 as int).drop_last() =~= events@.take(i as int));
            assert(events@.take(i + 1 as int).last() == events@[i as int]);
        }
        let e = copy_event(&events[i]);
        out = insert_event_by_time(out, e);
        i = i + 1;
    }
    proof {
        assert(events@.take(events@.len() as int) =~= events@);
        lemma_stable_sort_ensures(events@);
    }
    out
}

/// At most the first five events.
pub fn take_first_five(events: Vec<FutureEvent>) -> (r: Vec<FutureEvent>)
    ensures
        events@.len() <= 5 ==> r@ == events@,
        events@.len() > 5 ==> r@ == events@.subrange(0, 5),
{
    let mut v = events;
    if v.len() > 5 {
        v.truncate(5);
    }
    v
}

/// The event is derived from one of the contracts that are eligible at
/// `now`.
pub open spec fn spec_event_from(contracts: Seq<ContractData>, now: int, e: FutureEvent) -> bool {
    exists|j: int|
        0 <= j < spec_eligible_seq(contracts, now).len() && spec_event_matches(
            #[trigger] spec_eligible_seq(contracts, now)[j],
            e,
        )
}

/// What a finished `Future` reload leaves behind, relative to the contract
/// snapshot and the time `now` of the reload: as many events as there are
/// eligible contracts but at most five, each one derived from an eligible
/// contract, in ascending order of execution time.
pub open spec fn spec_future_events_ok(
    contracts: Seq<ContractData>,
    now: int,
    r: Seq<FutureEvent>,
) -> bool {
    &&& r.len() == if spec_eligible_seq(contracts, now).len() <= 5 {
        spec_eligible_seq(contracts, now).len()
    } else {
        5
    }
    &&& spec_sorted_by_time(r)
    &&& forall|i: int| 0 <= i < r.len() ==> spec_event_from(contracts, now, #[trigger] r[i])
}

/// `evs` is the eligible-event sequence of the snapshot at `now`: one event
/// per eligible contract, in the snapshot's order, each derived from its
/// contract.
pub open spec fn spec_matches_eligible(
    contracts: Seq<ContractData>,
    now: int,
    evs: Seq<FutureEvent>,
) -> bool {
    &&& evs.len() == spec_eligible_seq(contracts, now).len()
    &&& forall|i: int|
        0 <= i < evs.len() ==> spec_event_matches(
            spec_eligible_seq(contracts, now)[i],
            #[trigger] evs[i],
        )
}

/// The first five events, or all of them where there are fewer.
pub open spec fn spec_take_five(s: Seq<FutureEvent>) -> Seq<FutureEvent> {
    if s.len() <= 5 {
        s
    } else {
        s.take(5)
    }
}

/// The whole of a `Future` reload at time `now`: the result is the first
/// five of the stable time-sort of exactly the eligible-event sequence —
/// so ties keep the snapshot's order, and which events survive the cut is
/// fixed.
pub open spec fn spec_future_reload(
    contracts: Seq<ContractData>,
    now: int,
    r: Seq<FutureEvent>,
) -> bool {
    &&& spec_future_events_ok(contracts, now, r)
    &&& exists|evs: Seq<FutureEvent>|
        #[trigger] spec_matches_eligible(contracts, now, evs) && r == spec_take_five(
            spec_stable_sort_by_time(evs),
        )
}

/// Select the events for the `Future` screen: the contracts due after
/// `now`, as display events, stably sorted earliest first, at most five.
pub fn select_future_events(contracts: &Vec<ContractData>, now: i64) -> (r: Vec<FutureEvent>)
    ensures
        spec_future_reload(contracts@, now as int, r@),
{
    broadcast use vstd::multiset::group_multiset_axioms;
    broadcast use vstd::seq_lib::group_to_multiset_ensures;

    let elig = eligible_future_events(contracts, now);
    let ghost elig_view = elig@;
    let sorted = sort_events_by_time(elig);
    let r = take_first_five(sorted);
    proof {
        assert forall|i: int| 0 <= i < r@.len() implies spec_event_from(
            contracts@,
            now as int,
            r@[i],
        ) by {
            assert(r@[i] == sorted@[i]);
            assert(sorted@.contains(sorted@[i]));
            assert(elig_view.to_multiset().count(r@[i]) > 0);
            assert(elig_view.contains(r@[i]));
            let j = choose|j: int| 0 <= j < elig_view.len() && elig_view[j] == r@[i];
            assert(spec_event_matches(spec_eligible_seq(contracts@, now as int)[j], elig_view[j]));
            assert(0 <= j < spec_eligible_seq(contracts@, now as int).len());
            assert(spec_event_matches(spec_eligible_seq(contracts@, now as int)[j], r@[i]));
        }
        assert(spec_matches_eligible(contracts@, now as int, elig_view));
        assert(r@ == spec_take_five(spec_stable_sort_by_time(elig_view))) by {
            if sorted@.len() > 5 {
                assert(sorted@.subrange(0, 5) =~= sorted@.take(5));
            }
        }
    }
    r
}

/// Relies on chrono's `Utc::now`: the current wall-clock time as Unix
/// milliseconds.  Nothing is assumed of the value; like the underlying
/// call, it aborts if the system clock reads before the Unix epoch.
#[verifier::external_body]
fn now_millis() -> i64 {
    chrono::Utc::now().timestamp_millis()
}

impl App {
    /// Replace the `Future` screen's list from a fresh contract snapshot:
    /// the contracts still due at the returned moment of the call, as
    /// display events, stably sorted earliest first, at most five.
    /// Nothing else changes.  The returned time is the clock reading the
    /// selection was made against, so the new list is pinned exactly
    /// relative to it.
    pub fn set_future_events(&mut self, contracts: &Vec<ContractData>) -> (t: i64)
        ensures
            spec_future_reload(contracts@, t as int, final(self).future_events@),
            *final(self) == (App { future_events: final(self).future_events, ..*old(self) }),
    {
        let now = now_millis();
        let events = select_future_events(contracts, now);
        self.future_events = events;
        now
    }
}

} // verus!
