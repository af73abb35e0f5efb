//! The transfer form: field values, focus, validation state, and the
//! account autocomplete that backs the two account fields.

use crate::app::App;
use crate::model::AccountInfo;
use crate::model::copy_account;
use crate::textops::{lower_of, lowercase, spec_contains_sub, str_contains};
use crate::views::View;
use vstd::arithmetic::div_mod::{lemma_add_mod_noop, lemma_add_mod_noop_right};
use vstd::prelude::*;
use vstd::view::View as _;

verus! {

/// Fields of the money-transfer form.  `selected_field` names the focused
/// field: 0 = from, 1 = to, 2 = amount, 3 = reference.  At most one of
/// `error` and `success` is populated at a time.
#[derive(Debug, Clone, PartialEq)]
pub struct TransferForm {
    pub from_account: String,
    pub to_account: String,
    pub amount: String,
    pub reference: String,
    pub selected_field: usize,
    pub error: Option<String>,
    pub success: Option<String>,
    pub suggestion_index: Option<usize>,
    pub show_suggestions: bool,
}

/// An entirely empty form with focus on the first field.
pub open spec fn spec_form_empty(f: TransferForm) -> bool {
    &&& f.from_account@ == Seq::<char>::empty()
    &&& f.to_account@ == Seq::<char>::empty()
    &&& f.amount@ == Seq::<char>::empty()
    &&& f.reference@ == Seq::<char>::empty()
    &&& f.selected_field == 0
    &&& f.error is None
    &&& f.success is None
    &&& f.suggestion_index is None
    &&& !f.show_suggestions
}

/// The text of the field at position `i` (0 = from, 1 = to, 2 = amount,
/// 3 = reference).
pub open spec fn spec_field_text(f: TransferForm, i: int) -> Seq<char> {
    if i == 0 {
        f.from_account@
    } else if i == 1 {
        f.to_account@
    } else if i == 2 {
        f.amount@
    } else {
        f.reference@
    }
}

/// The four field texts of `b` equal those of `a`, except possibly the one
/// at position `i`.
pub open spec fn spec_other_fields_equal(a: TransferForm, b: TransferForm, i: int) -> bool {
    &&& (i != 0 ==> b.from_account == a.from_account)
    &&& (i != 1 ==> b.to_account == a.to_account)
    &&& (i != 2 ==> b.amount == a.amount)
    &&& (i != 3 ==> b.reference == a.reference)
}

impl TransferForm {
    /// A new, empty form.
    pub fn empty() -> (r: TransferForm)
        ensures
            spec_form_empty(r),
    {
        TransferForm {
            from_account: String::new(),
            to_account: String::new(),
            amount: String::new(),
            reference: String::new(),
            selected_field: 0,
            error: None,
            success: None,
            suggestion_index: None,
            show_suggestions: false,
        }
    }
}

impl Default for TransferForm {
    /// The default form is the empty one.
    fn default() -> (r: TransferForm)
        ensures
            spec_form_empty(r),
    {
        TransferForm::empty()
    }
}

/// An account is a candidate for filter text `filter` when the filter is
/// empty, or its case-folded form occurs in the case-folded account id or
/// account type label.
pub open spec fn spec_account_matches(a: AccountInfo, filter: Seq<char>) -> bool {
    ||| filter.len() == 0
    ||| spec_contains_sub(lower_of(a.id@), lower_of(filter))
    ||| spec_contains_sub(lower_of(a.account_type@), lower_of(filter))
}

/// The candidates among `accs` for filter text `filter`, in their original
/// order.
pub open spec fn spec_suggestions(accs: Seq<AccountInfo>, filter: Seq<char>) -> Seq<AccountInfo>
    decreases accs.len(),
{
    if accs.len() == 0 {
        Seq::empty()
    } else {
        spec_suggestions(accs.drop_last(), filter) + if spec_account_matches(
            accs.last(),
            filter,
        ) {
            seq![accs.last()]
        } else {
            Seq::empty()
        }
    }
}

/// Filter the account list against the given text, case-insensitively,
/// keeping the list's original order.
pub fn filter_accounts(accs: &Vec<AccountInfo>, filter: &String) -> (r: Vec<AccountInfo>)
    ensures
        r@ == spec_suggestions(accs@, filter@),
{
    let filter_lower = lowercase(filter.as_str());
    let mut r: Vec<AccountInfo> = Vec::new();
    let mut i: usize = 0;
    while i < accs.len()
        invariant
            0 <= i <= accs.len(),
            filter_lower@ == lower_of(filter@),
            r@ == spec_suggestions(accs@.take(i as int), filter@),
        decreases accs.len() - i,
    {
        let a = &accs[i];
        let is_match = filter.as_str().is_empty() || {
            let id_lower = lowercase(a.id.as_str());
            let ty_lower = lowercase(a.account_type.as_str());
            str_contains(id_lower.as_str(), filter_lower.as_str()) || str_contains(
                ty_lower.as_str(),
                filter_lower.as_str(),
            )
        };
        if is_match {
            r.push(copy_account(a));
        }
        proof {
            let pre = accs@.take(i as int);
            let cur = accs@.take(i + 1 as int);
            assert(cur.drop_last() =~= pre);
            assert(cur.last() == accs@[i as int]);
        }
        i = i + 1;
    }
    proof {
        assert(accs@.take(accs@.len() as int) =~= accs@);
    }
    r
}

/// The whole effect of one `handle_char(c)` call.
pub open spec fn spec_handle_char_step(pre: App, post: App, c: char) -> bool {
    if pre.current_view != View::Transfer || pre.transfer_form.selected_field > 3 {
        post == pre
    } else {
        let idx = pre.transfer_form.selected_field as int;
        &&& spec_field_text(post.transfer_form, idx) == spec_field_text(
            pre.transfer_form,
            idx,
        ).push(c)
        &&& spec_other_fields_equal(pre.transfer_form, post.transfer_form, idx)
        &&& post.transfer_form.selected_field == pre.transfer_form.selected_field
        &&& post.transfer_form.error == pre.transfer_form.error
        &&& post.transfer_form.success == pre.transfer_form.success
        &&& post.transfer_form.suggestion_index is None
        &&& post.transfer_form.show_suggestions == (idx <= 1)
        &&& post == (App { transfer_form: post.transfer_form, ..pre })
    }
}

/// The whole effect of one `handle_backspace` call.
pub open spec fn spec_handle_backspace_step(pre: App, post: App) -> bool {
    if pre.current_view != View::Transfer || pre.transfer_form.selected_field > 3 {
        post == pre
    } else {
        let idx = pre.transfer_form.selected_field as int;
        let before = spec_field_text(pre.transfer_form, idx);
        &&& spec_field_text(post.transfer_form, idx) == (if before.len() > 0 {
            before.drop_last()
        } else {
            before
        })
        &&& spec_other_fields_equal(pre.transfer_form, post.transfer_form, idx)
        &&& post.transfer_form.selected_field == pre.transfer_form.selected_field
        &&& post.transfer_form.error == pre.transfer_form.error
        &&& post.transfer_form.success == pre.transfer_form.success
        &&& post.transfer_form.suggestion_index is None
        &&& post.transfer_form.show_suggestions == (idx <= 1)
        &&& post == (App { transfer_form: post.transfer_form, ..pre })
    }
}

/// The whole effect of one `next_suggestion` call.
pub open spec fn spec_next_suggestion_step(pre: App, post: App) -> bool {
    if pre.current_view != View::Transfer || pre.transfer_form.selected_field > 1 {
        post == pre
    } else {
        let idx = pre.transfer_form.selected_field as int;
        let sugg = spec_suggestions(pre.accounts@, spec_field_text(pre.transfer_form, idx));
        if sugg.len() == 0 {
            post == pre
        } else {
            let j = match pre.transfer_form.suggestion_index {
                None => 0int,
                Some(i) => (i as int + 1) % sugg.len() as int,
            };
            &&& post.transfer_form.suggestion_index == Some(j as usize)
            &&& post.transfer_form.show_suggestions
            &&& spec_field_text(post.transfer_form, idx) == sugg[j].id@
            &&& spec_other_fields_equal(pre.transfer_form, post.transfer_form, idx)
            &&& post.transfer_form.selected_field == pre.transfer_form.selected_field
            &&& post.transfer_form.error == pre.transfer_form.error
            &&& post.transfer_form.success == pre.transfer_form.success
            &&& post == (App { transfer_form: post.transfer_form, ..pre })
        }
    }
}

/// The whole effect of one `prev_suggestion` call.
pub open spec fn spec_prev_suggestion_step(pre: App, post: App) -> bool {
    if pre.current_view != View::Transfer || pre.transfer_form.selected_field > 1 {
        post == pre
    } else {
        let idx = pre.transfer_form.selected_field as int;
        let sugg = spec_suggestions(pre.accounts@, spec_field_text(pre.transfer_form, idx));
        if sugg.len() == 0 {
            post == pre
        } else {
            let j = match pre.transfer_form.suggestion_index {
                None => sugg.len() as int - 1,
                Some(i) => if i == 0 {
                    sugg.len() as int - 1
                } else {
                    i as int - 1
                },
            };
            &&& post.transfer_form.suggestion_index == Some(j as usize)
            &&& post.transfer_form.show_suggestions
            &&& (j < sugg.len() ==> {
                &&& spec_field_text(post.transfer_form, idx) == sugg[j].id@
                &&& spec_other_fields_equal(pre.transfer_form, post.transfer_form, idx)
            })
            &&& (j >= sugg.len() ==> spec_other_fields_equal(
                pre.transfer_form,
                post.transfer_form,
                4,
            ))
            &&& post.transfer_form.selected_field == pre.transfer_form.selected_field
            &&& post.transfer_form.error == pre.transfer_form.error
            &&& post.transfer_form.success == pre.transfer_form.success
            &&& post == (App { transfer_form: post.transfer_form, ..pre })
        }
    }
}

/// The whole effect of one `accept_suggestion` call.
pub open spec fn spec_accept_suggestion_step(pre: App, post: App) -> bool {
    &&& post.transfer_form.suggestion_index is None
    &&& !post.transfer_form.show_suggestions
    &&& post.transfer_form.selected_field == (pre.transfer_form.selected_field as int + 1) % 4
    &&& spec_other_fields_equal(pre.transfer_form, post.transfer_form, 4)
    &&& post.transfer_form.error == pre.transfer_form.error
    &&& post.transfer_form.success == pre.transfer_form.success
    &&& post == (App { transfer_form: post.transfer_form, ..pre })
}

impl App {
    /// The candidate accounts for the focused account field, in the order
    /// of the account cache; empty when the focus is not on an account
    /// field.
    pub fn get_account_suggestions(&self) -> (r: Vec<AccountInfo>)
        ensures
            self.transfer_form.selected_field <= 1 ==> r@ == spec_suggestions(
                self.accounts@,
                spec_field_text(self.transfer_form, self.transfer_form.selected_field as int),
            ),
            self.transfer_form.selected_field > 1 ==> r@ == Seq::<AccountInfo>::empty(),
    {
        if self.transfer_form.selected_field == 0 {
            filter_accounts(&self.accounts, &self.transfer_form.from_account)
        } else if self.transfer_form.selected_field == 1 {
            filter_accounts(&self.accounts, &self.transfer_form.to_account)
        } else {
            Vec::new()
        }
    }

    /// Append `c` to the focused field.  On an account field this reopens
    /// the suggestion list and forgets the cycling position; on the other
    /// fields suggestions are forced off.  Outside the transfer view, or
    /// with an out-of-range focus, nothing happens.
    pub fn handle_char(&mut self, c: char)
        ensures
            spec_handle_char_step(*old(self), *final(self), c),
    {
        if self.current_view == View::Transfer {
            if self.transfer_form.selected_field == 0 {
                self.transfer_form.from_account.push(c);
            } else if self.transfer_form.selected_field == 1 {
                self.transfer_form.to_account.push(c);
            } else if self.transfer_form.selected_field == 2 {
                self.transfer_form.amount.push(c);
            } else if self.transfer_form.selected_field == 3 {
                self.transfer_form.reference.push(c);
            } else {
                return ;
            }
            self.transfer_form.suggestion_index = None;
            self.transfer_form.show_suggestions = self.transfer_form.selected_field <= 1;
        }
    }

    /// Remove the last character of the focused field, if any.  Suggestion
    /// state is reset the same way as for `handle_char`.
    pub fn handle_backspace(&mut self)
        ensures
            spec_handle_backspace_step(*old(self), *final(self)),
    {
        if self.current_view == View::Transfer {
            if self.transfer_form.selected_field == 0 {
                self.transfer_form.from_account.pop();
            } else if self.transfer_form.selected_field == 1 {
                self.transfer_form.to_account.pop();
            } else if self.transfer_form.selected_field == 2 {
                self.transfer_form.amount.pop();
            } else if self.transfer_form.selected_field == 3 {
                self.transfer_form.reference.pop();
            } else {
                return ;
            }
            self.transfer_form.suggestion_index = None;
            self.transfer_form.show_suggestions = self.transfer_form.selected_field <= 1;
        }
    }

    /// Cycle forward through the live candidate list and write the chosen
    /// account id into the focused account field.  Outside the transfer
    /// view, off the account fields, or with no candidates, nothing
    /// happens.
    pub fn next_suggestion(&mut self)
        ensures
            spec_next_suggestion_step(*old(self), *final(self)),
    {
        if self.current_view != View::Transfer || self.transfer_form.selected_field > 1 {
            return ;
        }
        let sugg = self.get_account_suggestions();
        if sugg.len() == 0 {
            return ;
        }
        self.transfer_form.show_suggestions = true;
        let new_index: usize = match self.transfer_form.suggestion_index {
            None => 0,
            Some(i) => {
                let n = sugg.len();
                proof {
                    lemma_add_mod_noop(i as int, 1int, n as int);
                    lemma_add_mod_noop_right((i as int) % (n as int), 1int, n as int);
                }
                (i % n + 1) % n
            }
        };
        self.transfer_form.suggestion_index = Some(new_index);
        let acc_id = sugg[new_index].id.clone();
        if self.transfer_form.selected_field == 0 {
            self.transfer_form.from_account = acc_id;
        } else {
            self.transfer_form.to_account = acc_id;
        }
    }

    /// Cycle backward through the live candidate list, wrapping from the
    /// first candidate to the last.  A remembered position past the end of
    /// the current list steps down without writing into the field.
    pub fn prev_suggestion(&mut self)
        ensures
            spec_prev_suggestion_step(*old(self), *final(self)),
    {
        if self.current_view != View::Transfer || self.transfer_form.selected_field > 1 {
            return ;
        }
        let sugg = self.get_account_suggestions();
        if sugg.len() == 0 {
            return ;
        }
        self.transfer_form.show_suggestions = true;
        let new_index: usize = match self.transfer_form.suggestion_index {
            None => sugg.len() - 1,
            Some(i) => {
                if i == 0 {
                    sugg.len() - 1
                } else {
                    i - 1
                }
            }
        };
        self.transfer_form.suggestion_index = Some(new_index);
        if new_index < sugg.len() {
            let acc_id = sugg[new_index].id.clone();
            if self.transfer_form.selected_field == 0 {
                self.transfer_form.from_account = acc_id;
            } else {
                self.transfer_form.to_account = acc_id;
            }
        }
    }

    /// Close the suggestion list and advance the focus by exactly one field,
    /// wrapping after the last — whether or not any suggestion existed or
    /// was applied.
    pub fn accept_suggestion(&mut self)
        ensures
            spec_accept_suggestion_step(*old(self), *final(self)),
    {
        self.transfer_form.suggestion_index = None;
        self.transfer_form.show_suggestions = false;
        self.transfer_form.selected_field = (self.transfer_form.selected_field % 4 + 1) % 4;
    }
}

} // verus!
