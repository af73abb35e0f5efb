//! The application state container and its navigation operations.
//!
//! One `App` value owns every piece of engine state: the current view, the
//! breadcrumb trail, the cached entity lists, the transfer form and the
//! control flags.  The event loop threads it through exclusively; nothing
//! else mutates it.

use crate::breadcrumb::{build_breadcrumb, spec_breadcrumb, spec_trail, BreadcrumbSegment};
use crate::form::TransferForm;
use crate::model::{AccountInfo, FutureEvent, ParticipantDetail, ParticipantInfo};
use crate::views::{
    spec_flat_views, spec_next_view, spec_prev_view, View,
};
use vstd::prelude::*;
use vstd::view::View as _;

verus! {

/// The whole engine state.
#[derive(Debug)]
pub struct App {
    pub current_view: View,
    pub running: bool,
    /// Hierarchical trail; rebuilt from `(current_view, participant_detail)`
    /// after every transition.
    pub breadcrumb: Vec<BreadcrumbSegment>,
    pub participants: Vec<ParticipantInfo>,
    /// Cursor into `participants`.
    pub participant_selected: Option<usize>,
    pub participant_detail: Option<ParticipantDetail>,
    /// All known accounts, as the transfer form's autocomplete sees them.
    pub accounts: Vec<AccountInfo>,
    /// Cursor into `accounts`.
    pub account_selected: Option<usize>,
    pub transfer_form: TransferForm,
    pub history: Vec<String>,
    pub future_events: Vec<FutureEvent>,
    pub status_message: Option<String>,
    pub loading: bool,
}

/// The selection index, with an empty selection counting as the first row.
pub open spec fn spec_sel_or_zero(s: Option<usize>) -> int {
    match s {
        Some(i) => i as int,
        None => 0,
    }
}

/// Everything except the current view and the breadcrumb trail is the same
/// in `b` as in `a`.
pub open spec fn spec_same_data(a: App, b: App) -> bool {
    &&& b.running == a.running
    &&& b.participants == a.participants
    &&& b.participant_selected == a.participant_selected
    &&& b.participant_detail == a.participant_detail
    &&& b.accounts == a.accounts
    &&& b.account_selected == a.account_selected
    &&& b.transfer_form == a.transfer_form
    &&& b.history == a.history
    &&& b.future_events == a.future_events
    &&& b.status_message == a.status_message
    &&& b.loading == a.loading
}

/// The breadcrumb trail is exactly the one derived from the current view
/// and the loaded detail.
pub open spec fn spec_breadcrumb_ok(a: App) -> bool {
    spec_trail(a.breadcrumb@) == spec_breadcrumb(a.current_view, a.participant_detail)
}

/// The whole effect of one `next_view` call.
pub open spec fn spec_next_view_step(pre: App, post: App) -> bool {
    &&& post.current_view == spec_next_view(pre.current_view)
    &&& spec_same_data(pre, post)
    &&& spec_breadcrumb_ok(post)
}

/// The whole effect of one `prev_view` call.
pub open spec fn spec_prev_view_step(pre: App, post: App) -> bool {
    &&& post.current_view == spec_prev_view(pre.current_view)
    &&& spec_same_data(pre, post)
    &&& spec_breadcrumb_ok(post)
}

/// The whole effect of one `goto_view(index)` call.
pub open spec fn spec_goto_view_step(pre: App, post: App, index: int) -> bool {
    if index >= spec_flat_views().len() {
        post == pre
    } else {
        &&& post.current_view == spec_flat_views()[index]
        &&& spec_same_data(pre, post)
        &&& spec_breadcrumb_ok(post)
    }
}

/// The whole effect of one `navigate_to_breadcrumb(index)` call.
pub open spec fn spec_navigate_breadcrumb_step(pre: App, post: App, index: int) -> bool {
    if index >= pre.breadcrumb@.len() {
        post == pre
    } else {
        &&& post.current_view == pre.breadcrumb@[index].view
        &&& spec_same_data(pre, post)
        &&& spec_breadcrumb_ok(post)
    }
}

/// The whole effect of one `select_next` call.
pub open spec fn spec_select_next_step(pre: App, post: App) -> bool {
    if pre.current_view == View::Participants {
        let i = spec_sel_or_zero(pre.participant_selected);
        &&& (i + 1 < pre.participants@.len() ==> post.participant_selected == Some(
            (i + 1) as usize,
        ))
        &&& (i + 1 >= pre.participants@.len() ==> post.participant_selected
            == pre.participant_selected)
        &&& post == (App { participant_selected: post.participant_selected, ..pre })
    } else if pre.current_view == View::Transfer {
        &&& post.transfer_form.selected_field == (pre.transfer_form.selected_field as int + 1) % 4
        &&& post == (App {
            transfer_form: TransferForm {
                selected_field: post.transfer_form.selected_field,
                ..pre.transfer_form
            },
            ..pre
        })
    } else {
        post == pre
    }
}

/// The whole effect of one `select_prev` call.
pub open spec fn spec_select_prev_step(pre: App, post: App) -> bool {
    if pre.current_view == View::Participants {
        let i = spec_sel_or_zero(pre.participant_selected);
        &&& (i > 0 ==> post.participant_selected == Some((i - 1) as usize))
        &&& (i == 0 ==> post.participant_selected == pre.participant_selected)
        &&& post == (App { participant_selected: post.participant_selected, ..pre })
    } else if pre.current_view == View::Transfer {
        &&& post.transfer_form.selected_field == (pre.transfer_form.selected_field as int + 3) % 4
        &&& post == (App {
            transfer_form: TransferForm {
                selected_field: post.transfer_form.selected_field,
                ..pre.transfer_form
            },
            ..pre
        })
    } else {
        post == pre
    }
}

impl App {
    /// A fresh engine: participant list screen, empty caches, first row of
    /// each list selected, trail already derived.
    pub fn new() -> (r: App)
        ensures
            r.current_view == View::Participants,
            r.running,
            spec_breadcrumb_ok(r),
            r.participants@ == Seq::<ParticipantInfo>::empty(),
            r.participant_selected == Some(0usize),
            r.participant_detail is None,
            r.accounts@ == Seq::<AccountInfo>::empty(),
            r.account_selected == Some(0usize),
            crate::form::spec_form_empty(r.transfer_form),
            r.history@ == Seq::<String>::empty(),
            r.future_events@ == Seq::<FutureEvent>::empty(),
            r.status_message is None,
            !r.loading,
    {
        let mut app = App {
            current_view: View::Participants,
            running: true,
            breadcrumb: Vec::new(),
            participants: Vec::new(),
            participant_selected: Some(0),
            participant_detail: None,
            accounts: Vec::new(),
            account_selected: Some(0),
            transfer_form: TransferForm::empty(),
            history: Vec::new(),
            future_events: Vec::new(),
            status_message: None,
            loading: false,
        };
        app.update_breadcrumb();
        app
    }

    /// Rebuild the breadcrumb trail from the current view and the loaded
    /// detail.  Total and idempotent: the result depends on those two
    /// inputs alone.
    pub fn update_breadcrumb(&mut self)
        ensures
            final(self).current_view == old(self).current_view,
            spec_same_data(*old(self), *final(self)),
            spec_breadcrumb_ok(*final(self)),
    {
        let b = build_breadcrumb(self.current_view, &self.participant_detail);
        self.breadcrumb = b;
    }

    /// Hierarchical back-navigation: jump to the view of the trail segment
    /// at `index` and drop everything below it; out-of-range indices do
    /// nothing.  This is the one way to leave the drill-down screen apart
    /// from flat navigation.
    pub fn navigate_to_breadcrumb(&mut self, index: usize)
        ensures
            spec_navigate_breadcrumb_step(*old(self), *final(self), index as int),
    {
        if index < self.breadcrumb.len() {
            self.current_view = self.breadcrumb[index].view;
            self.breadcrumb.truncate(index + 1);
            self.update_breadcrumb();
        }
    }

    /// Flat navigation: advance to the next tab, wrapping at the end.
    pub fn next_view(&mut self)
        ensures
            spec_next_view_step(*old(self), *final(self)),
    {
        let next = match self.current_view {
            View::Participants => View::Transfer,
            View::ParticipantDetail => View::Transfer,
            View::Transfer => View::History,
            View::History => View::Future,
            View::Future => View::Participants,
        };
        proof {
            assert(next == spec_next_view(self.current_view)) by {
                assert(spec_flat_views()[0] == View::Participants);
                assert(spec_flat_views()[1] == View::Transfer);
                assert(spec_flat_views()[2] == View::History);
                assert(spec_flat_views()[3] == View::Future);
            }
        }
        self.current_view = next;
        self.update_breadcrumb();
    }

    /// Flat navigation: retreat to the previous tab, wrapping at the start.
    pub fn prev_view(&mut self)
        ensures
            spec_prev_view_step(*old(self), *final(self)),
    {
        let prev = match self.current_view {
            View::Participants => View::Future,
            View::ParticipantDetail => View::Future,
            View::Transfer => View::Participants,
            View::History => View::Transfer,
            View::Future => View::History,
        };
        proof {
            assert(prev == spec_prev_view(self.current_view)) by {
                assert(spec_flat_views()[0] == View::Participants);
                assert(spec_flat_views()[1] == View::Transfer);
                assert(spec_flat_views()[2] == View::History);
                assert(spec_flat_views()[3] == View::Future);
            }
        }
        self.current_view = prev;
        self.update_breadcrumb();
    }

    /// Flat navigation: jump to the tab at `index`; out-of-range indices do
    /// nothing.
    pub fn goto_view(&mut self, index: usize)
        ensures
            spec_goto_view_step(*old(self), *final(self), index as int),
    {
        let views = View::all();
        if index < views.len() {
            self.current_view = views[index];
            self.update_breadcrumb();
        }
    }

    /// Move the cursor of the active list (or the form focus) one step down.
    pub fn select_next(&mut self)
        ensures
            spec_select_next_step(*old(self), *final(self)),
    {
        match self.current_view {
            View::Participants => {
                let i = match self.participant_selected {
                    Some(i) => i,
                    None => 0,
                };
                let limit = if self.participants.len() == 0 {
                    0
                } else {
                    self.participants.len() - 1
                };
                if i < limit {
                    self.participant_selected = Some(i + 1);
                }
            }
            View::Transfer => {
                self.transfer_form.selected_field = (self.transfer_form.selected_field % 4 + 1)
                    % 4;
            }
            _ => {}
        }
    }

    /// Move the cursor of the active list (or the form focus) one step up.
    pub fn select_prev(&mut self)
        ensures
            spec_select_prev_step(*old(self), *final(self)),
    {
        match self.current_view {
            View::Participants => {
                let i = match self.participant_selected {
                    Some(i) => i,
                    None => 0,
                };
                if i > 0 {
                    self.participant_selected = Some(i - 1);
                }
            }
            View::Transfer => {
                self.transfer_form.selected_field = (self.transfer_form.selected_field % 4 + 3)
                    % 4;
            }
            _ => {}
        }
    }
}

} // verus!
