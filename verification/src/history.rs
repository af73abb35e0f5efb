//! The history screen's lines: one formatted line per past transaction.

use crate::app::App;
use crate::contracts::labelled_desc;
use crate::numtext::{format_balance, spec_format_balance};
use vstd::prelude::*;
use vstd::string::StrSliceExecFns;
use vstd::view::View as _;

verus! {

/// A past transaction, as handed over by the transport.
#[derive(Debug, Clone, PartialEq)]
pub struct TransactionData {
    pub id: String,
    /// The transaction kind label of the wire format.
    pub kind: String,
    /// Postings: account id and signed amount in cents.
    pub entries: Vec<(String, i64)>,
    pub reference: String,
}

/// One posting as text: `<account>: <amount>`.
pub open spec fn spec_entry_text(e: (String, i64)) -> Seq<char> {
    e.0@ + ": "@ + spec_format_balance(e.1 as int)
}

/// The postings joined with `, `.
pub open spec fn spec_entries_joined(s: Seq<(String, i64)>) -> Seq<char>
    decreases s.len(),
{
    if s.len() == 0 {
        Seq::empty()
    } else if s.len() == 1 {
        spec_entry_text(s[0])
    } else {
        spec_entries_joined(s.drop_last()) + ", "@ + spec_entry_text(s.last())
    }
}

/// The history line of a transaction: the first eight characters of its id
/// in brackets, the kind, the joined postings, and the reference.
pub open spec fn spec_history_line(t: TransactionData) -> Seq<char> {
    "["@ + t.id@.take(8) + "] "@ + t.kind@ + " | "@ + spec_entries_joined(t.entries@) + " | "@
        + t.reference@
}

/// The postings of a transaction joined with `, `.
fn entries_joined(entries: &Vec<(String, i64)>) -> (r: String)
    ensures
        r@ == spec_entries_joined(entries@),
{
    let mut s = String::new();
    let mut i: usize = 0;
    proof {
        assert(entries@.take(0) =~= Seq::<(String, i64)>::empty());
    }
    while i < entries.len()
        invariant
            0 <= i <= entries.len(),
            s@ == spec_entries_joined(entries@.take(i as int)),
        decreases entries.len() - i,
    {
        proof {
            assert(entries@.take(i + 1 as int).drop_last() =~= entries@.take(i as int));
            assert(entries@.take(i + 1 as int).last() == entries@[i as int]);
            assert(entries@.take(i + 1 as int)[0] == entries@[0]);
        }
        if i > 0 {
            s.append(", ");
        }
        let bal = format_balance(entries[i].1);
        let entry = labelled_desc(entries[i].0.as_str(), bal.as_str());
        s.append(entry.as_str());
        proof {
            assert(s@ =~= spec_entries_joined(entries@.take(i + 1 as int)));
        }
        i = i + 1;
    }
    proof {
        assert(entries@.take(entries@.len() as int) =~= entries@);
    }
    s
}

/// Format one transaction as its history line.  The id must carry at least
/// the eight characters that are shown abbreviated.
pub fn format_transaction(t: &TransactionData) -> (r: String)
    requires
        t.id@.len() >= 8,
    ensures
        r@ == spec_history_line(*t),
{
    let mut s = "[".to_owned();
    s.append(t.id.as_str().substring_char(0, 8));
    s.append("] ");
    s.append(t.kind.as_str());
    s.append(" | ");
    let joined = entries_joined(&t.entries);
    s.append(joined.as_str());
    s.append(" | ");
    s.append(t.reference.as_str());
    proof {
        assert(t.id@.subrange(0, 8) =~= t.id@.take(8));
        assert(s@ =~= spec_history_line(*t));
    }
    s
}

impl App {
    /// Replace the history with one line per transaction, in order.
    /// Nothing else changes.
    pub fn set_transactions(&mut self, txs: &Vec<TransactionData>)
        requires
            forall|i: int| 0 <= i < txs@.len() ==> (#[trigger] txs@[i]).id@.len() >= 8,
        ensures
            final(self).history@.len() == txs@.len(),
            forall|i: int|
                0 <= i < txs@.len() ==> (#[trigger] final(self).history@[i])@
                    == spec_history_line(txs@[i]),
            *final(self) == (App { history: final(self).history, ..*old(self) }),
    {
        let mut lines: Vec<String> = Vec::new();
        let mut i: usize = 0;
        while i < txs.len()
            invariant
                0 <= i <= txs.len(),
                lines@.len() == i,
                forall|j: int| 0 <= j < txs@.len() ==> (#[trigger] txs@[j]).id@.len() >= 8,
                forall|j: int|
                    0 <= j < i ==> (#[trigger] lines@[j])@ == spec_history_line(txs@[j]),
            decreases txs.len() - i,
        {
            let line = format_transaction(&txs[i]);
            lines.push(line);
            i = i + 1;
        }
        self.history = lines;
    }
}

} // verus!
