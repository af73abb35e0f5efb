//! The screens of the client and flat (tab-style) navigation among them.
//!
//! `View` enumerates every screen.  Four of them — `Participants`,
//! `Transfer`, `History`, `Future` — form the flat tab ordering that
//! `next_view` / `prev_view` / `goto_view` cycle through.
//! `ParticipantDetail` is hierarchical only: it is entered by drilling down
//! from `Participants` and left through the breadcrumb, never through flat
//! cycling.

use vstd::prelude::*;
use vstd::view::View as _;

verus! {

/// A screen of the client.  `ParticipantDetail` is reachable only by
/// drilling down from `Participants`; the other four form the flat
/// tab ordering.
#[derive(Debug, Clone, Copy, PartialEq, Eq, Structural)]
pub enum View {
    Participants,
    ParticipantDetail,
    Transfer,
    History,
    Future,
}

/// Number of views in the flat ordering.
pub open spec fn spec_flat_len() -> int {
    4
}

/// The flat ordering of tab views, as a sequence.
pub open spec fn spec_flat_views() -> Seq<View> {
    seq![View::Participants, View::Transfer, View::History, View::Future]
}

/// A view is flat-eligible exactly when it is not the drill-down screen.
pub open spec fn spec_is_flat(v: View) -> bool {
    v != View::ParticipantDetail
}

/// Position of a view in the flat ordering; the drill-down screen, which has
/// no position, counts as position 0, so that flat navigation away from it
/// behaves as if it stood on the first tab.
pub open spec fn spec_flat_index(v: View) -> int {
    match v {
        View::Participants => 0,
        View::ParticipantDetail => 0,
        View::Transfer => 1,
        View::History => 2,
        View::Future => 3,
    }
}

/// The view that one `next_view` step reaches from `v`.
pub open spec fn spec_next_view(v: View) -> View {
    spec_flat_views()[(spec_flat_index(v) + 1) % spec_flat_len()]
}

/// The view that one `prev_view` step reaches from `v`.
pub open spec fn spec_prev_view(v: View) -> View {
    spec_flat_views()[(spec_flat_index(v) + spec_flat_len() - 1) % spec_flat_len()]
}

impl View {
    /// The flat navigation ordering: all tab views, in order.
    pub fn all() -> (r: Vec<View>)
        ensures
            r@ == spec_flat_views(),
    {
        let mut v: Vec<View> = Vec::new();
        v.push(View::Participants);
        v.push(View::Transfer);
        v.push(View::History);
        v.push(View::Future);
        proof {
            assert(v@ =~= spec_flat_views());
        }
        v
    }

    /// The label of a view, as spoken of by contracts.
    pub open spec fn spec_title(self) -> Seq<char> {
        match self {
            View::Participants => "Participants"@,
            View::ParticipantDetail => "Participant Details"@,
            View::Transfer => "Transfer"@,
            View::History => "History"@,
            View::Future => "Future"@,
        }
    }

    /// The label shown for this view.
    pub fn title(&self) -> (r: &'static str)
        ensures
            r@ == self.spec_title(),
    {
        match self {
            View::Participants => "Participants",
            View::ParticipantDetail => "Participant Details",
            View::Transfer => "Transfer",
            View::History => "History",
            View::Future => "Future",
        }
    }
}

/// Flat navigation never lands on the drill-down screen: every member of the
/// flat ordering is flat-eligible, and so are the views one `next_view` or
/// `prev_view` step reaches from anywhere.
pub proof fn lemma_flat_navigation_stays_flat(v: View)
    ensures
        forall|i: int| 0 <= i < spec_flat_len() ==> spec_is_flat(#[trigger] spec_flat_views()[i]),
        spec_is_flat(spec_next_view(v)),
        spec_is_flat(spec_prev_view(v)),
{
    assert(forall|i: int|
        0 <= i < spec_flat_len() ==> spec_is_flat(#[trigger] spec_flat_views()[i])) by {
        assert(spec_flat_views()[0] == View::Participants);
        assert(spec_flat_views()[1] == View::Transfer);
        assert(spec_flat_views()[2] == View::History);
        assert(spec_flat_views()[3] == View::Future);
    }
}

/// Flat cycling is exactly modulo the length of the flat ordering: a step
/// forward advances the flat position by one modulo that length, a step back
/// retreats it by one, the two are inverse to each other on flat views, and
/// as many forward steps as the ordering is long lead back to the start.
pub proof fn lemma_flat_cycling(v: View)
    requires
        spec_is_flat(v),
    ensures
        spec_flat_index(spec_next_view(v)) == (spec_flat_index(v) + 1) % spec_flat_len(),
        spec_flat_index(spec_prev_view(v)) == (spec_flat_index(v) + spec_flat_len() - 1)
            % spec_flat_len(),
        spec_prev_view(spec_next_view(v)) == v,
        spec_next_view(spec_prev_view(v)) == v,
        spec_next_view(spec_next_view(spec_next_view(spec_next_view(v)))) == v,
{
    match v {
        View::Participants => {}
        View::ParticipantDetail => {}
        View::Transfer => {}
        View::History => {}
        View::Future => {}
    }
}

} // verus!
