//! The event dispatch decisions: one key press in, one state transition
//! and one requested side effect out.
//!
//! The surrounding loop renders, polls for a key, hands it to
//! `handle_key`, and then performs the returned `Action` — the reloads and
//! the transfer submission that need the transport.  All decisions live
//! here and are verified; the loop merely carries them out.

use crate::app::{
    spec_breadcrumb_ok, spec_goto_view_step, spec_navigate_breadcrumb_step, spec_next_view_step,
    spec_prev_view_step, spec_same_data, spec_select_next_step, spec_select_prev_step, App,
};
use crate::form::{
    spec_accept_suggestion_step, spec_form_empty, spec_handle_backspace_step,
    spec_handle_char_step, spec_next_suggestion_step, spec_prev_suggestion_step, TransferForm,
};
use crate::model::{AccountInfo, ParticipantDetail, ParticipantInfo};
use crate::views::View;
use vstd::prelude::*;
use vstd::view::View as _;

verus! {

/// A key press, as the loop hands it to the engine.  Only key presses are
/// dispatched; releases never reach the engine.
#[derive(Debug, Clone, Copy, PartialEq, Eq, Structural)]
pub enum KeyInput {
    Char(char),
    Tab,
    BackTab,
    Left,
    Right,
    Up,
    Down,
    Home,
    End,
    Enter,
    Backspace,
    Esc,
    CtrlC,
}

/// What the loop must do after a key was dispatched.  Every reload is
/// best-effort: on failure the loop leaves the engine's lists as they are.
#[derive(Debug, Clone, PartialEq)]
pub enum Action {
    /// Nothing to do.
    Idle,
    /// Reload the full account list (the transfer screen was entered).
    LoadAccounts,
    /// Reload the `Future` screen's events.
    LoadFutureEvents,
    /// Reload the participant list.
    LoadParticipants,
    /// Load the detail of the participant with this id.
    LoadParticipantDetail(String),
    /// Validate and submit the transfer form.
    SubmitTransfer,
    /// Reload participants, accounts, history and future events; also the
    /// open detail, where one is open.
    Refresh { detail: Option<String> },
}

/// The reload that entering a view through flat navigation demands:
/// entering `Transfer` from elsewhere reloads the accounts, landing on
/// `Future` reloads the events.
pub open spec fn spec_flat_nav_action(pre_view: View, post_view: View) -> Action {
    if pre_view != View::Transfer && post_view == View::Transfer {
        Action::LoadAccounts
    } else if post_view == View::Future {
        Action::LoadFutureEvents
    } else {
        Action::Idle
    }
}

/// The reload that back-navigation demands, by the view it lands on.
pub open spec fn spec_back_action(post: App) -> Action {
    if post.current_view == View::ParticipantDetail {
        match post.participant_detail {
            Some(d) => Action::LoadParticipantDetail(d.info.id),
            None => Action::Idle,
        }
    } else if post.current_view == View::Participants {
        Action::LoadParticipants
    } else if post.current_view == View::Future {
        Action::LoadFutureEvents
    } else {
        Action::Idle
    }
}

/// The id of the open detail, where the detail screen is active.
pub open spec fn spec_refresh_detail(pre: App) -> Option<String> {
    if pre.current_view == View::ParticipantDetail {
        match pre.participant_detail {
            Some(d) => Some(d.info.id),
            None => None,
        }
    } else {
        None
    }
}

/// The whole effect of dispatching one key: how the state after relates to
/// the state before, and which side effect the loop owes.  The arms mirror
/// the precedence of the key bindings: the quit keys always win; inside
/// the transfer screen `Tab` cycles suggestions on the account fields and
/// printable keys edit the focused field; the digit, refresh and back keys
/// act only where they are not text input.
pub open spec fn spec_handle_key_step(pre: App, key: KeyInput, post: App, action: Action) -> bool {
    match key {
        KeyInput::CtrlC => post == (App { running: false, ..pre }) && action == Action::Idle,
        KeyInput::Esc => if pre.current_view == View::Transfer {
            &&& spec_form_empty(post.transfer_form)
            &&& post == (App { transfer_form: post.transfer_form, ..pre })
            &&& action == Action::Idle
        } else {
            post == (App { running: false, ..pre }) && action == Action::Idle
        },
        KeyInput::Tab => if pre.current_view == View::Transfer && pre.transfer_form.selected_field
            <= 1 {
            spec_next_suggestion_step(pre, post) && action == Action::Idle
        } else {
            spec_next_view_step(pre, post) && action == spec_flat_nav_action(
                pre.current_view,
                post.current_view,
            )
        },
        KeyInput::BackTab => if pre.current_view == View::Transfer
            && pre.transfer_form.selected_field <= 1 {
            spec_prev_suggestion_step(pre, post) && action == Action::Idle
        } else {
            spec_prev_view_step(pre, post) && action == spec_flat_nav_action(
                pre.current_view,
                post.current_view,
            )
        },
        KeyInput::Right => spec_next_view_step(pre, post) && action == spec_flat_nav_action(
            pre.current_view,
            post.current_view,
        ),
        KeyInput::Left => spec_prev_view_step(pre, post) && action == spec_flat_nav_action(
            pre.current_view,
            post.current_view,
        ),
        KeyInput::Down => spec_select_next_step(pre, post) && action == Action::Idle,
        KeyInput::Up => spec_select_prev_step(pre, post) && action == Action::Idle,
        KeyInput::Home => if pre.current_view == View::Participants {
            post == (App { participant_selected: Some(0usize), ..pre }) && action == Action::Idle
        } else {
            post == pre && action == Action::Idle
        },
        KeyInput::End => if pre.current_view == View::Participants && pre.participants@.len()
            > 0 {
            &&& post == (App {
                participant_selected: Some((pre.participants@.len() - 1) as usize),
                ..pre
            })
            &&& action == Action::Idle
        } else {
            post == pre && action == Action::Idle
        },
        KeyInput::Enter => if pre.current_view == View::Transfer {
            if pre.transfer_form.selected_field <= 1 {
                spec_accept_suggestion_step(pre, post) && action == Action::Idle
            } else {
                post == pre && action == Action::SubmitTransfer
            }
        } else if pre.current_view == View::Participants {
            match pre.participant_selected {
                Some(idx) => if idx < pre.participants@.len() {
                    &&& post.current_view == View::ParticipantDetail
                    &&& spec_same_data(pre, post)
                    &&& spec_breadcrumb_ok(post)
                    &&& action == Action::LoadParticipantDetail(
                        pre.participants@[idx as int].id,
                    )
                } else {
                    post == pre && action == Action::Idle
                },
                None => post == pre && action == Action::Idle,
            }
        } else {
            post == pre && action == Action::Idle
        },
        KeyInput::Backspace => spec_handle_backspace_step(pre, post) && action == Action::Idle,
        KeyInput::Char(c) => if c == 'q' {
            post == (App { running: false, ..pre }) && action == Action::Idle
        } else if c == '1' && pre.current_view != View::Transfer {
            spec_goto_view_step(pre, post, 0) && action == spec_flat_nav_action(
                pre.current_view,
                post.current_view,
            )
        } else if c == '2' && pre.current_view != View::Transfer {
            spec_goto_view_step(pre, post, 1) && action == spec_flat_nav_action(
                pre.current_view,
                post.current_view,
            )
        } else if c == '3' && pre.current_view != View::Transfer {
            spec_goto_view_step(pre, post, 2) && action == spec_flat_nav_action(
                pre.current_view,
                post.current_view,
            )
        } else if c == '4' && pre.current_view != View::Transfer {
            spec_goto_view_step(pre, post, 3) && action == spec_flat_nav_action(
                pre.current_view,
                post.current_view,
            )
        } else if c == 'j' {
            spec_select_next_step(pre, post) && action == Action::Idle
        } else if c == 'k' {
            spec_select_prev_step(pre, post) && action == Action::Idle
        } else if c == 'r' && pre.current_view != View::Transfer {
            post == pre && action == (Action::Refresh { detail: spec_refresh_detail(pre) })
        } else if c == 'b' && pre.breadcrumb@.len() > 1 {
            &&& spec_navigate_breadcrumb_step(pre, post, pre.breadcrumb@.len() - 2)
            &&& action == spec_back_action(post)
        } else {
            spec_handle_char_step(pre, post, c) && action == Action::Idle
        },
    }
}

impl App {
    /// Dispatch one key press: update the engine state and say which side
    /// effect the loop owes before the next render.
    pub fn handle_key(&mut self, key: KeyInput) -> (r: Action)
        ensures
            spec_handle_key_step(*old(self), key, *final(self), r),
    {
        match key {
            KeyInput::CtrlC => {
                self.running = false;
                Action::Idle
            }
            KeyInput::Esc => {
                if self.current_view == View::Transfer {
                    self.transfer_form = TransferForm::empty();
                } else {
                    self.running = false;
                }
                Action::Idle
            }
            KeyInput::Tab => {
                if self.current_view == View::Transfer && self.transfer_form.selected_field <= 1 {
                    self.next_suggestion();
                    Action::Idle
                } else {
                    let was_transfer = self.current_view == View::Transfer;
                    self.next_view();
                    if !was_transfer && self.current_view == View::Transfer {
                        Action::LoadAccounts
                    } else if self.current_view == View::Future {
                        Action::LoadFutureEvents
                    } else {
                        Action::Idle
                    }
                }
            }
            KeyInput::BackTab => {
                if self.current_view == View::Transfer && self.transfer_form.selected_field <= 1 {
                    self.prev_suggestion();
                    Action::Idle
                } else {
                    let was_transfer = self.current_view == View::Transfer;
                    self.prev_view();
                    if !was_transfer && self.current_view == View::Transfer {
                        Action::LoadAccounts
                    } else if self.current_view == View::Future {
                        Action::LoadFutureEvents
                    } else {
                        Action::Idle
                    }
                }
            }
            KeyInput::Right => {
                let was_transfer = self.current_view == View::Transfer;
                self.next_view();
                if !was_transfer && self.current_view == View::Transfer {
                    Action::LoadAccounts
                } else if self.current_view == View::Future {
                    Action::LoadFutureEvents
                } else {
                    Action::Idle
                }
            }
            KeyInput::Left => {
                let was_transfer = self.current_view == View::Transfer;
                self.prev_view();
                if !was_transfer && self.current_view == View::Transfer {
                    Action::LoadAccounts
                } else if self.current_view == View::Future {
                    Action::LoadFutureEvents
                } else {
                    Action::Idle
                }
            }
            KeyInput::Down => {
                self.select_next();
                Action::Idle
            }
            KeyInput::Up => {
                self.select_prev();
                Action::Idle
            }
            KeyInput::Home => {
                if self.current_view == View::Participants {
                    self.participant_selected = Some(0);
                }
                Action::Idle
            }
            KeyInput::End => {
                if self.current_view == View::Participants && self.participants.len() > 0 {
                    self.participant_selected = Some(self.participants.len() - 1);
                }
                Action::Idle
            }
            KeyInput::Enter => {
                if self.current_view == View::Transfer {
                    if self.transfer_form.selected_field <= 1 {
                        self.accept_suggestion();
                        Action::Idle
                    } else {
                        Action::SubmitTransfer
                    }
                } else if self.current_view == View::Participants {
                    match self.participant_selected {
                        Some(idx) => {
                            if idx < self.participants.len() {
                                let pid = self.participants[idx].id.clone();
                                self.current_view = View::ParticipantDetail;
                                self.update_breadcrumb();
                                Action::LoadParticipantDetail(pid)
                            } else {
                                Action::Idle
                            }
                        }
                        None => Action::Idle,
                    }
                } else {
                    Action::Idle
                }
            }
            KeyInput::Backspace => {
                self.handle_backspace();
                Action::Idle
            }
            KeyInput::Char(c) => {
                if c == 'q' {
                    self.running = false;
                    Action::Idle
                } else if c == '1' && self.current_view != View::Transfer {
                    self.goto_view(0);
                    Action::Idle
                } else if c == '2' && self.current_view != View::Transfer {
                    // jumping into the transfer screen needs the account
                    // cache the autocomplete filters
                    self.goto_view(1);
                    Action::LoadAccounts
                } else if c == '3' && self.current_view != View::Transfer {
                    self.goto_view(2);
                    Action::Idle
                } else if c == '4' && self.current_view != View::Transfer {
                    self.goto_view(3);
                    Action::LoadFutureEvents
                } else if c == 'j' {
                    self.select_next();
                    Action::Idle
                } else if c == 'k' {
                    self.select_prev();
                    Action::Idle
                } else if c == 'r' && self.current_view != View::Transfer {
                    let detail = if self.current_view == View::ParticipantDetail {
                        match &self.participant_detail {
                            Some(d) => Some(d.info.id.clone()),
                            None => None,
                        }
                    } else {
                        None
                    };
                    Action::Refresh { detail }
                } else if c == 'b' && self.breadcrumb.len() > 1 {
                    let target = self.breadcrumb.len() - 2;
                    self.navigate_to_breadcrumb(target);
                    if self.current_view == View::ParticipantDetail {
                        match &self.participant_detail {
                            Some(d) => Action::LoadParticipantDetail(d.info.id.clone()),
                            None => Action::Idle,
                        }
                    } else if self.current_view == View::Participants {
                        Action::LoadParticipants
                    } else if self.current_view == View::Future {
                        Action::LoadFutureEvents
                    } else {
                        Action::Idle
                    }
                } else {
                    self.handle_char(c);
                    Action::Idle
                }
            }
        }
    }

    /// Replace the participant list wholesale.  Nothing else changes.
    pub fn set_participants(&mut self, participants: Vec<ParticipantInfo>)
        ensures
            final(self).participants == participants,
            *final(self) == (App { participants: final(self).participants, ..*old(self) }),
    {
        self.participants = participants;
    }

    /// Replace the account cache wholesale.  Nothing else changes.
    pub fn set_accounts(&mut self, accounts: Vec<AccountInfo>)
        ensures
            final(self).accounts == accounts,
            *final(self) == (App { accounts: final(self).accounts, ..*old(self) }),
    {
        self.accounts = accounts;
    }

    /// Install a freshly loaded participant detail and rebuild the trail
    /// so that it shows the loaded participant.
    pub fn set_participant_detail(&mut self, detail: ParticipantDetail)
        ensures
            final(self).participant_detail == Some(detail),
            final(self).current_view == old(self).current_view,
            spec_breadcrumb_ok(*final(self)),
            *final(self) == (App {
                participant_detail: final(self).participant_detail,
                breadcrumb: final(self).breadcrumb,
                ..*old(self)
            }),
    {
        self.participant_detail = Some(detail);
        self.update_breadcrumb();
    }
}

} // verus!
