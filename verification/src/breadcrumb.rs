//! The breadcrumb trail: a pure derivation from the current view and the
//! loaded participant detail.
//!
//! The trail is never mutated incrementally except by truncation during
//! back-navigation; after every transition it is rebuilt from scratch, so
//! that it can never drift from the view it describes.

use crate::model::ParticipantDetail;
use crate::views::View;
use vstd::prelude::*;
use vstd::view::View as _;

verus! {

/// One segment of the breadcrumb trail.
#[derive(Debug, Clone, PartialEq)]
pub struct BreadcrumbSegment {
    pub label: String,
    pub view: View,
    /// Entity id when the segment represents a drill-down target.
    pub context: Option<String>,
}

/// The mathematical value of a segment: its label and context as character
/// sequences.
#[verifier::ext_equal]
pub struct BreadcrumbSegmentView {
    pub label: Seq<char>,
    pub view: View,
    pub context: Option<Seq<char>>,
}

impl vstd::prelude::View for BreadcrumbSegment {
    type V = BreadcrumbSegmentView;

    open spec fn view(&self) -> BreadcrumbSegmentView {
        BreadcrumbSegmentView {
            label: self.label@,
            view: self.view,
            context: match self.context {
                Some(c) => Some(c@),
                None => None,
            },
        }
    }
}

/// The mathematical value of a whole trail.
pub open spec fn spec_trail(b: Seq<BreadcrumbSegment>) -> Seq<BreadcrumbSegmentView> {
    b.map_values(|s: BreadcrumbSegment| s@)
}

/// The root segment of every trail that starts at the participant list.
pub open spec fn spec_root_segment(v: View) -> BreadcrumbSegmentView {
    BreadcrumbSegmentView { label: v.spec_title(), view: v, context: None }
}

/// The trail derived from the current view and, for the drill-down screen,
/// the loaded detail.  The detail segment is omitted while no detail is
/// loaded yet.
pub open spec fn spec_breadcrumb(v: View, detail: Option<ParticipantDetail>) -> Seq<
    BreadcrumbSegmentView,
> {
    match v {
        View::ParticipantDetail => match detail {
            Some(d) => seq![
                spec_root_segment(View::Participants),
                BreadcrumbSegmentView {
                    label: d.info.name@,
                    view: View::ParticipantDetail,
                    context: Some(d.info.id@),
                },
            ],
            None => seq![spec_root_segment(View::Participants)],
        },
        _ => seq![spec_root_segment(v)],
    }
}

/// Build the trail for a view and a loaded detail.
pub fn build_breadcrumb(v: View, detail: &Option<ParticipantDetail>) -> (r: Vec<BreadcrumbSegment>)
    ensures
        spec_trail(r@) == spec_breadcrumb(v, *detail),
{
    let mut r: Vec<BreadcrumbSegment> = Vec::new();
    match v {
        View::ParticipantDetail => {
            r.push(
                BreadcrumbSegment {
                    label: View::Participants.title().to_owned(),
                    view: View::Participants,
                    context: None,
                },
            );
            match detail {
                Some(d) => {
                    r.push(
                        BreadcrumbSegment {
                            label: d.info.name.clone(),
                            view: View::ParticipantDetail,
                            context: Some(d.info.id.clone()),
                        },
                    );
                }
                None => {}
            }
        }
        _ => {
            r.push(BreadcrumbSegment { label: v.title().to_owned(), view: v, context: None });
        }
    }
    proof {
        assert(spec_trail(r@) =~~= spec_breadcrumb(v, *detail));
    }
    r
}

/// The rebuild is a pure function of `(view, detail)`: any two trails
/// derived from the same view and the same loaded detail are the identical
/// sequence of values — so deriving twice with unchanged inputs changes
/// nothing.
pub proof fn lemma_breadcrumb_rebuild_deterministic(
    v: View,
    detail: Option<ParticipantDetail>,
    first: Seq<BreadcrumbSegment>,
    second: Seq<BreadcrumbSegment>,
)
    requires
        spec_trail(first) == spec_breadcrumb(v, detail),
        spec_trail(second) == spec_breadcrumb(v, detail),
    ensures
        spec_trail(first) == spec_trail(second),
        first.len() == second.len(),
        forall|i: int| 0 <= i < first.len() ==> #[trigger] first[i]@ == second[i]@,
{
    assert(spec_trail(first).len() == first.len());
    assert(spec_trail(second).len() == second.len());
    assert forall|i: int| 0 <= i < first.len() implies #[trigger] first[i]@ == second[i]@ by {
        assert(spec_trail(first)[i] == first[i]@);
        assert(spec_trail(second)[i] == second[i]@);
    }
}

/// The trail is never empty, and whenever the current view is not the
/// drill-down screen — or is the drill-down screen with its detail loaded —
/// the last segment's view is exactly the current view.
pub proof fn lemma_breadcrumb_well_formed(v: View, detail: Option<ParticipantDetail>)
    ensures
        spec_breadcrumb(v, detail).len() >= 1,
        v != View::ParticipantDetail || detail is Some ==> spec_breadcrumb(v, detail).last().view
            == v,
{
}

} // verus!
