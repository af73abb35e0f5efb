//! Submitting the transfer form: validation, the two-entry transfer
//! request, and recording the remote outcome.
//!
//! The remote call itself is the transport's business; the engine validates
//! the form, builds the request, and — once the transport reports back —
//! records success or failure without ever partially mutating the shared
//! state on failure.

use crate::app::App;
use crate::contracts::amount_desc;
use crate::form::{spec_form_empty, TransferForm};
use crate::numtext::{parse_i64, spec_format_balance, spec_parse_i64};
use vstd::prelude::*;
use vstd::view::View as _;

verus! {

/// The request a validated form submission produces: debit the sender,
/// credit the receiver, by the same amount of cents.
#[derive(Debug, Clone, PartialEq)]
pub struct TransferPlan {
    /// Postings: account id and signed amount in cents.
    pub entries: Vec<(String, i64)>,
    pub reference: String,
}

/// The form's amount field holds a usable signed amount: it parses as a
/// 64-bit integer whose negation is also representable.
pub open spec fn spec_amount_ok(amount: Seq<char>) -> bool {
    &&& spec_parse_i64(amount) is Some
    &&& spec_parse_i64(amount) != Some(i64::MIN as int)
}

/// The history line recorded for an accepted transfer.
pub open spec fn spec_transfer_line(
    amount: int,
    from: Seq<char>,
    to: Seq<char>,
    reference: Seq<char>,
    tx_id: Seq<char>,
) -> Seq<char> {
    "Transfer "@ + spec_format_balance(amount) + " from "@ + from + " to "@ + to + " (ref: "@
        + reference + ", tx: "@ + tx_id + ")"@
}

impl App {
    /// Validate the form and build the transfer request.  Clears any prior
    /// error or success first.  Rejects an amount that does not parse (or
    /// whose negation cannot be represented) with `Invalid amount`, and an
    /// empty account field with `Both accounts required`; in both cases
    /// every field keeps its text so the user can correct and resubmit.
    /// On success the request debits the sender and credits the receiver.
    pub fn prepare_transfer(&mut self) -> (r: Option<TransferPlan>)
        ensures
            final(self).transfer_form.from_account == old(self).transfer_form.from_account,
            final(self).transfer_form.to_account == old(self).transfer_form.to_account,
            final(self).transfer_form.amount == old(self).transfer_form.amount,
            final(self).transfer_form.reference == old(self).transfer_form.reference,
            final(self).transfer_form.selected_field == old(self).transfer_form.selected_field,
            final(self).transfer_form.suggestion_index == old(
                self,
            ).transfer_form.suggestion_index,
            final(self).transfer_form.show_suggestions == old(
                self,
            ).transfer_form.show_suggestions,
            final(self).transfer_form.success is None,
            *final(self) == (App { transfer_form: final(self).transfer_form, ..*old(self) }),
            !spec_amount_ok(old(self).transfer_form.amount@) ==> {
                &&& r is None
                &&& final(self).transfer_form.error matches Some(e) && e@ == "Invalid amount"@
            },
            spec_amount_ok(old(self).transfer_form.amount@) && (old(
                self,
            ).transfer_form.from_account@.len() == 0 || old(
                self,
            ).transfer_form.to_account@.len() == 0) ==> {
                &&& r is None
                &&& final(self).transfer_form.error matches Some(e) && e@
                    == "Both accounts required"@
            },
            spec_amount_ok(old(self).transfer_form.amount@) && old(
                self,
            ).transfer_form.from_account@.len() > 0 && old(self).transfer_form.to_account@.len()
                > 0 ==> {
                &&& final(self).transfer_form.error is None
                &&& r matches Some(plan) && {
                    let v = spec_parse_i64(old(self).transfer_form.amount@).unwrap();
                    &&& plan.entries@.len() == 2
                    &&& plan.entries@[0].0 == old(self).transfer_form.from_account
                    &&& plan.entries@[0].1 == -v
                    &&& plan.entries@[1].0 == old(self).transfer_form.to_account
                    &&& plan.entries@[1].1 == v
                    &&& plan.reference == old(self).transfer_form.reference
                }
            },
    {
        self.transfer_form.error = None;
        self.transfer_form.success = None;

        let amount = match parse_i64(self.transfer_form.amount.as_str()) {
            Some(a) if a != i64::MIN => a,
            _ => {
                self.transfer_form.error = Some("Invalid amount".to_owned());
                return None;
            }
        };

        if self.transfer_form.from_account.as_str().is_empty()
            || self.transfer_form.to_account.as_str().is_empty() {
            self.transfer_form.error = Some("Both accounts required".to_owned());
            return None;
        }

        let mut entries: Vec<(String, i64)> = Vec::new();
        entries.push((self.transfer_form.from_account.clone(), -amount));
        entries.push((self.transfer_form.to_account.clone(), amount));
        Some(TransferPlan { entries, reference: self.transfer_form.reference.clone() })
    }

    /// Record an accepted transfer: append the formatted history line, set
    /// the success message with the returned transaction id, and reset
    /// every form field, keeping only that message.
    pub fn record_transfer_success(&mut self, amount: i64, tx_id: &str)
        ensures
            final(self).history@.len() == old(self).history@.len() + 1,
            (final(self).history@.last())@ == spec_transfer_line(
                amount as int,
                old(self).transfer_form.from_account@,
                old(self).transfer_form.to_account@,
                old(self).transfer_form.reference@,
                tx_id@,
            ),
            forall|i: int|
                0 <= i < old(self).history@.len() ==> final(self).history@[i] == old(
                    self,
                ).history@[i],
            final(self).transfer_form.success matches Some(s) && s@ == "Success! TX: "@ + tx_id@,
            final(self).transfer_form.from_account@ == Seq::<char>::empty(),
            final(self).transfer_form.to_account@ == Seq::<char>::empty(),
            final(self).transfer_form.amount@ == Seq::<char>::empty(),
            final(self).transfer_form.reference@ == Seq::<char>::empty(),
            final(self).transfer_form.selected_field == 0,
            final(self).transfer_form.error is None,
            final(self).transfer_form.suggestion_index is None,
            !final(self).transfer_form.show_suggestions,
            *final(self) == (App {
                history: final(self).history,
                transfer_form: final(self).transfer_form,
                ..*old(self)
            }),
    {
        let mut line = amount_desc(
            "Transfer ",
            amount,
            " from ",
            self.transfer_form.from_account.as_str(),
            self.transfer_form.to_account.as_str(),
        );
        line.append(" (ref: ");
        line.append(self.transfer_form.reference.as_str());
        line.append(", tx: ");
        line.append(tx_id);
        line.append(")");
        proof {
            assert(line@ =~= spec_transfer_line(
                amount as int,
                self.transfer_form.from_account@,
                self.transfer_form.to_account@,
                self.transfer_form.reference@,
                tx_id@,
            ));
        }
        self.history.push(line);

        let mut message = "Success! TX: ".to_owned();
        message.append(tx_id);
        let mut fresh = TransferForm::empty();
        fresh.success = Some(message);
        self.transfer_form = fresh;
    }

    /// Record a rejected transfer: surface the failure inline and leave
    /// every field as the user typed it, ready for correction.
    pub fn record_transfer_failure(&mut self, message: &str)
        ensures
            final(self).transfer_form.error matches Some(e) && e@ == "Failed: "@ + message@,
            final(self).transfer_form == (TransferForm {
                error: final(self).transfer_form.error,
                ..old(self).transfer_form
            }),
            *final(self) == (App { transfer_form: final(self).transfer_form, ..*old(self) }),
    {
        let mut text = "Failed: ".to_owned();
        text.append(message);
        self.transfer_form.error = Some(text);
    }
}

} // verus!
