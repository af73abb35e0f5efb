//! Contracts as the engine models them, and the mapping from a contract to
//! the human-readable row of the participant detail screen.
//!
//! The transport hands every contract over as plain values; the variants
//! mirror the wire format's contract kinds.  Timestamps are Unix
//! milliseconds; amounts are integer cents.

use crate::labels::{contract_type_to_string, spec_contract_type_label};
use crate::model::{AccountInfo, ContractInfo, ParticipantDetail, ParticipantInfo};
use crate::numtext::{dec_digits_string, format_balance, spec_dec_digits, spec_format_balance};
use crate::textops::str_eq;
use vstd::prelude::*;
use vstd::view::View as _;

verus! {

/// One contract, as handed over by the transport.
#[derive(Debug, Clone, PartialEq)]
pub enum ContractData {
    Invoice {
        id: String,
        amount_cents: i64,
        supplier_id: String,
        buyer_id: String,
        due_date: i64,
        status: String,
    },
    Subscription {
        id: String,
        monthly_fee_cents: i64,
        provider_id: String,
        subscriber_id: String,
        next_billing_date: i64,
        status: String,
    },
    Generic {
        id: String,
        contract_type: i32,
        name: String,
        description: String,
        next_execution_at: i64,
        status: i32,
        metadata: Vec<(String, String)>,
    },
    ConditionalPayment {
        id: String,
        amount_cents: i64,
        payer_id: String,
        receiver_id: String,
    },
    RevenueShare { id: String, party_ids: Vec<String>, transaction_type: String },
    Unknown,
}

/// The value of the first metadata pair whose key is `key`.
pub open spec fn spec_meta_lookup(m: Seq<(String, String)>, key: Seq<char>) -> Option<String>
    decreases m.len(),
{
    if m.len() == 0 {
        None
    } else if m[0].0@ == key {
        Some(m[0].1)
    } else {
        spec_meta_lookup(m.drop_first(), key)
    }
}

/// Some entry of `v` has the character sequence `s`.
pub open spec fn spec_contains_string(v: Seq<String>, s: Seq<char>) -> bool {
    exists|i: int| 0 <= i < v.len() && #[trigger] v[i]@ == s
}

/// The metadata keys that may name a contract participant, in the order
/// they are collected.
pub open spec fn spec_participant_fields() -> Seq<Seq<char>> {
    seq![
        "supplier_id"@,
        "buyer_id"@,
        "provider_id"@,
        "subscriber_id"@,
        "payer_id"@,
        "receiver_id"@,
        "orchestrator_id"@,
        "first_provider_id"@,
    ]
}

/// One collection step: append the id found under field `f`, unless it is
/// the excluded id or already collected.
pub open spec fn spec_collect_field(
    m: Seq<(String, String)>,
    excl: Seq<char>,
    acc: Seq<String>,
    f: Seq<char>,
) -> Seq<String> {
    match spec_meta_lookup(m, f) {
        Some(id) => if id@ != excl && !spec_contains_string(acc, id@) {
            acc.push(id)
        } else {
            acc
        },
        None => acc,
    }
}

/// The ids collected from the first `k` participant fields.
pub open spec fn spec_extract_participants(
    m: Seq<(String, String)>,
    excl: Seq<char>,
    k: int,
) -> Seq<String>
    decreases k,
{
    if k <= 0 {
        Seq::empty()
    } else {
        spec_collect_field(
            m,
            excl,
            spec_extract_participants(m, excl, k - 1),
            spec_participant_fields()[k - 1],
        )
    }
}

/// Find the value of the first metadata pair with the given key.
fn meta_lookup(m: &Vec<(String, String)>, key: &str) -> (r: Option<String>)
    ensures
        r == spec_meta_lookup(m@, key@),
{
    let mut i: usize = 0;
    proof {
        assert(m@.skip(0) =~= m@);
    }
    while i < m.len()
        invariant
            0 <= i <= m.len(),
            spec_meta_lookup(m@, key@) == spec_meta_lookup(m@.skip(i as int), key@),
        decreases m.len() - i,
    {
        proof {
            assert(m@.skip(i as int)[0] == m@[i as int]);
            assert(m@.skip(i as int).drop_first() =~= m@.skip(i + 1 as int));
        }
        if str_eq(m[i].0.as_str(), key) {
            return Some(m[i].1.clone());
        }
        i = i + 1;
    }
    proof {
        assert(m@.skip(m@.len() as int).len() == 0);
    }
    None
}

/// Whether some entry of `v` holds the same characters as `s`.
fn vec_contains_string(v: &Vec<String>, s: &String) -> (r: bool)
    ensures
        r == spec_contains_string(v@, s@),
{
    let mut i: usize = 0;
    while i < v.len()
        invariant
            0 <= i <= v.len(),
            forall|j: int| 0 <= j < i ==> #[trigger] v@[j]@ != s@,
        decreases v.len() - i,
    {
        if str_eq(v[i].as_str(), s.as_str()) {
            return true;
        }
        i = i + 1;
    }
    false
}

/// Append to `acc` the id stored under `field`, unless it is the excluded
/// id or already present.
fn collect_field(acc: &mut Vec<String>, m: &Vec<(String, String)>, excl: &str, field: &str)
    ensures
        final(acc)@ == spec_collect_field(m@, excl@, old(acc)@, field@),
{
    match meta_lookup(m, field) {
        Some(id) => {
            if !str_eq(id.as_str(), excl) && !vec_contains_string(acc, &id) {
                acc.push(id);
            }
        }
        None => {}
    }
}

/// Collect the ids of the other contract participants out of a generic
/// contract's metadata: the well-known id fields in a fixed order, the
/// excluded (viewed) participant left out, duplicates kept once.
pub fn extract_participants_from_metadata(m: &Vec<(String, String)>, exclude_id: &str) -> (r: Vec<
    String,
>)
    ensures
        r@ == spec_extract_participants(m@, exclude_id@, spec_participant_fields().len() as int),
{
    let mut acc: Vec<String> = Vec::new();
    proof {
        assert(spec_participant_fields()[0] == "supplier_id"@);
        assert(spec_participant_fields()[1] == "buyer_id"@);
        assert(spec_participant_fields()[2] == "provider_id"@);
        assert(spec_participant_fields()[3] == "subscriber_id"@);
        assert(spec_participant_fields()[4] == "payer_id"@);
        assert(spec_participant_fields()[5] == "receiver_id"@);
        assert(spec_participant_fields()[6] == "orchestrator_id"@);
        assert(spec_participant_fields()[7] == "first_provider_id"@);
        assert(spec_extract_participants(m@, exclude_id@, 0) =~= Seq::<String>::empty());
    }
    collect_field(&mut acc, m, exclude_id, "supplier_id");
    proof {
        assert(acc@ == spec_extract_participants(m@, exclude_id@, 1));
    }
    collect_field(&mut acc, m, exclude_id, "buyer_id");
    proof {
        assert(acc@ == spec_extract_participants(m@, exclude_id@, 2));
    }
    collect_field(&mut acc, m, exclude_id, "provider_id");
    proof {
        assert(acc@ == spec_extract_participants(m@, exclude_id@, 3));
    }
    collect_field(&mut acc, m, exclude_id, "subscriber_id");
    proof {
        assert(acc@ == spec_extract_participants(m@, exclude_id@, 4));
    }
    collect_field(&mut acc, m, exclude_id, "payer_id");
    proof {
        assert(acc@ == spec_extract_participants(m@, exclude_id@, 5));
    }
    collect_field(&mut acc, m, exclude_id, "receiver_id");
    proof {
        assert(acc@ == spec_extract_participants(m@, exclude_id@, 6));
    }
    collect_field(&mut acc, m, exclude_id, "orchestrator_id");
    proof {
        assert(acc@ == spec_extract_participants(m@, exclude_id@, 7));
    }
    collect_field(&mut acc, m, exclude_id, "first_provider_id");
    proof {
        assert(acc@ == spec_extract_participants(m@, exclude_id@, 8));
    }
    acc
}

/// The entries of `v` whose characters differ from `viewer`, in order.
pub open spec fn spec_retain_other(v: Seq<String>, viewer: Seq<char>) -> Seq<String>
    decreases v.len(),
{
    if v.len() == 0 {
        Seq::empty()
    } else {
        spec_retain_other(v.drop_last(), viewer) + if v.last()@ != viewer {
            seq![v.last()]
        } else {
            Seq::empty()
        }
    }
}

/// Keep the entries that are not the viewer's id, in their order.
fn retain_other(v: &Vec<String>, viewer: &str) -> (r: Vec<String>)
    ensures
        r@ == spec_retain_other(v@, viewer@),
{
    let mut r: Vec<String> = Vec::new();
    let mut i: usize = 0;
    while i < v.len()
        invariant
            0 <= i <= v.len(),
            r@ == spec_retain_other(v@.take(i as int), viewer@),
        decreases v.len() - i,
    {
        if !str_eq(v[i].as_str(), viewer) {
            r.push(v[i].clone());
        }
        proof {
            assert(v@.take(i + 1 as int).drop_last() =~= v@.take(i as int));
            assert(v@.take(i + 1 as int).last() == v@[i as int]);
        }
        i = i + 1;
    }
    proof {
        assert(v@.take(v@.len() as int) =~= v@);
    }
    r
}

/// A description of the shape `<head><amount><mid><a> to <b>`, with the
/// amount rendered as a balance.
pub(crate) fn amount_desc(head: &str, amount: i64, mid: &str, a: &str, b: &str) -> (r: String)
    ensures
        r@ == head@ + spec_format_balance(amount as int) + mid@ + a@ + " to "@ + b@,
{
    let mut s = head.to_owned();
    let bal = format_balance(amount);
    s.append(bal.as_str());
    s.append(mid);
    s.append(a);
    s.append(" to ");
    s.append(b);
    proof {
        assert(s@ =~= head@ + spec_format_balance(amount as int) + mid@ + a@ + " to "@ + b@);
    }
    s
}

/// How a contract appears as a row of the participant detail screen, seen
/// from participant `viewer`.
pub open spec fn spec_contract_info_matches(
    c: ContractData,
    viewer: Seq<char>,
    r: ContractInfo,
) -> bool {
    match c {
        ContractData::Invoice { id, amount_cents, supplier_id, buyer_id, due_date, .. } => {
            &&& r.id == id
            &&& r.contract_type@ == "Invoice"@
            &&& r.description@ == "Invoice: "@ + spec_format_balance(amount_cents as int)
                + " from "@ + supplier_id@ + " to "@ + buyer_id@
            &&& r.participants@ == spec_retain_other(seq![supplier_id, buyer_id], viewer)
            &&& r.next_execution == (if due_date > 0 {
                Some(due_date)
            } else {
                None
            })
        },
        ContractData::Subscription {
            id,
            monthly_fee_cents,
            provider_id,
            subscriber_id,
            next_billing_date,
            ..
        } => {
            &&& r.id == id
            &&& r.contract_type@ == "Subscription"@
            &&& r.description@ == "Subscription: "@ + spec_format_balance(
                monthly_fee_cents as int,
            ) + " monthly from "@ + provider_id@ + " to "@ + subscriber_id@
            &&& r.participants@ == spec_retain_other(seq![provider_id, subscriber_id], viewer)
            &&& r.next_execution == (if next_billing_date > 0 {
                Some(next_billing_date)
            } else {
                None
            })
        },
        ContractData::Generic {
            id,
            contract_type,
            name,
            description,
            next_execution_at,
            metadata,
            ..
        } => {
            &&& r.id == id
            &&& r.contract_type@ == "Generic ("@ + spec_contract_type_label(contract_type as int)
                + ")"@
            &&& r.description@ == name@ + ": "@ + description@
            &&& r.participants@ == spec_extract_participants(
                metadata@,
                viewer,
                spec_participant_fields().len() as int,
            )
            &&& r.next_execution == (if next_execution_at > 0 {
                Some(next_execution_at)
            } else {
                None
            })
        },
        ContractData::ConditionalPayment { id, amount_cents, payer_id, receiver_id } => {
            &&& r.id == id
            &&& r.contract_type@ == "Conditional Payment"@
            &&& r.description@ == "Conditional Payment: "@ + spec_format_balance(
                amount_cents as int,
            ) + " from "@ + payer_id@ + " to "@ + receiver_id@
            &&& r.participants@ == spec_retain_other(seq![payer_id, receiver_id], viewer)
            &&& r.next_execution is None
        },
        ContractData::RevenueShare { id, party_ids, transaction_type } => {
            &&& r.id == id
            &&& r.contract_type@ == "Revenue Share"@
            &&& r.description@ == "Revenue Share: "@ + spec_dec_digits(party_ids@.len())
                + " parties for "@ + transaction_type@
            &&& r.participants@ == spec_retain_other(party_ids@, viewer)
            &&& r.next_execution is None
        },
        ContractData::Unknown => {
            &&& r.id@ == "unknown"@
            &&& r.contract_type@ == "Unknown"@
            &&& r.description@ == "Unknown contract type"@
            &&& r.participants@ == Seq::<String>::empty()
            &&& r.next_execution is None
        },
    }
}

/// The type label of a generic contract, e.g. `Generic (Loan)`.
pub(crate) fn generic_type_string(ct: i32) -> (r: String)
    ensures
        r@ == "Generic ("@ + spec_contract_type_label(ct as int) + ")"@,
{
    let mut ty = "Generic (".to_owned();
    let label = contract_type_to_string(ct);
    ty.append(label.as_str());
    ty.append(")");
    proof {
        assert(ty@ =~= "Generic ("@ + spec_contract_type_label(ct as int) + ")"@);
    }
    ty
}

/// A description of the shape `<name>: <text>`.
pub(crate) fn labelled_desc(name: &str, text: &str) -> (r: String)
    ensures
        r@ == name@ + ": "@ + text@,
{
    let mut desc = name.to_owned();
    desc.append(": ");
    desc.append(text);
    proof {
        assert(desc@ =~= name@ + ": "@ + text@);
    }
    desc
}

/// Map one contract to its detail-screen row, excluding the viewed
/// participant from the listed counterparties.
pub fn contract_to_info(c: &ContractData, viewer: &str) -> (r: ContractInfo)
    ensures
        spec_contract_info_matches(*c, viewer@, r),
{
    match c {
        ContractData::Invoice { id, amount_cents, supplier_id, buyer_id, due_date, status: _ } => {
            let mut both: Vec<String> = Vec::new();
            both.push(supplier_id.clone());
            both.push(buyer_id.clone());
            proof {
                assert(both@ =~= seq![*supplier_id, *buyer_id]);
            }
            ContractInfo {
                id: id.clone(),
                contract_type: "Invoice".to_owned(),
                description: amount_desc(
                    "Invoice: ",
                    *amount_cents,
                    " from ",
                    supplier_id.as_str(),
                    buyer_id.as_str(),
                ),
                participants: retain_other(&both, viewer),
                next_execution: if *due_date > 0 {
                    Some(*due_date)
                } else {
                    None
                },
            }
        }
        ContractData::Subscription {
            id,
            monthly_fee_cents,
            provider_id,
            subscriber_id,
            next_billing_date,
            status: _,
        } => {
            let mut both: Vec<String> = Vec::new();
            both.push(provider_id.clone());
            both.push(subscriber_id.clone());
            proof {
                assert(both@ =~= seq![*provider_id, *subscriber_id]);
            }
            ContractInfo {
                id: id.clone(),
                contract_type: "Subscription".to_owned(),
                description: amount_desc(
                    "Subscription: ",
                    *monthly_fee_cents,
                    " monthly from ",
                    provider_id.as_str(),
                    subscriber_id.as_str(),
                ),
                participants: retain_other(&both, viewer),
                next_execution: if *next_billing_date > 0 {
                    Some(*next_billing_date)
                } else {
                    None
                },
            }
        }
        ContractData::Generic {
            id,
            contract_type,
            name,
            description,
            next_execution_at,
            status: _,
            metadata,
        } => {
            ContractInfo {
                id: id.clone(),
                contract_type: generic_type_string(*contract_type),
                description: labelled_desc(name.as_str(), description.as_str()),
                participants: extract_participants_from_metadata(metadata, viewer),
                next_execution: if *next_execution_at > 0 {
                    Some(*next_execution_at)
                } else {
                    None
                },
            }
        }
        ContractData::ConditionalPayment { id, amount_cents, payer_id, receiver_id } => {
            let mut both: Vec<String> = Vec::new();
            both.push(payer_id.clone());
            both.push(receiver_id.clone());
            proof {
                assert(both@ =~= seq![*payer_id, *receiver_id]);
            }
            ContractInfo {
                id: id.clone(),
                contract_type: "Conditional Payment".to_owned(),
                description: amount_desc(
                    "Conditional Payment: ",
                    *amount_cents,
                    " from ",
                    payer_id.as_str(),
                    receiver_id.as_str(),
                ),
                participants: retain_other(&both, viewer),
                next_execution: None,
            }
        }
        ContractData::RevenueShare { id, party_ids, transaction_type } => {
            let mut desc = "Revenue Share: ".to_owned();
            let n = dec_digits_string(party_ids.len() as u64);
            desc.append(n.as_str());
            desc.append(" parties for ");
            desc.append(transaction_type.as_str());
            proof {
                assert(desc@ =~= "Revenue Share: "@ + spec_dec_digits(party_ids@.len())
                    + " parties for "@ + transaction_type@);
            }
            ContractInfo {
                id: id.clone(),
                contract_type: "Revenue Share".to_owned(),
                description: desc,
                participants: retain_other(party_ids, viewer),
                next_execution: None,
            }
        }
        ContractData::Unknown => {
            ContractInfo {
                id: "unknown".to_owned(),
                contract_type: "Unknown".to_owned(),
                description: "Unknown contract type".to_owned(),
                participants: Vec::new(),
                next_execution: None,
            }
        }
    }
}

/// Map every contract to its detail-screen row, in order.
pub fn map_contracts(contracts: &Vec<ContractData>, viewer: &str) -> (r: Vec<ContractInfo>)
    ensures
        r@.len() == contracts@.len(),
        forall|i: int|
            0 <= i < contracts@.len() ==> spec_contract_info_matches(
                contracts@[i],
                viewer@,
                #[trigger] r@[i],
            ),
{
    let mut r: Vec<ContractInfo> = Vec::new();
    let mut i: usize = 0;
    while i < contracts.len()
        invariant
            0 <= i <= contracts.len(),
            r@.len() == i,
            forall|j: int|
                0 <= j < i ==> spec_contract_info_matches(
                    contracts@[j],
                    viewer@,
                    #[trigger] r@[j],
                ),
        decreases contracts.len() - i,
    {
        let info = contract_to_info(&contracts[i], viewer);
        r.push(info);
        i = i + 1;
    }
    r
}

/// The sum of the balances of a sequence of accounts.
pub open spec fn spec_sum_balances(s: Seq<AccountInfo>) -> int
    decreases s.len(),
{
    if s.len() == 0 {
        0
    } else {
        spec_sum_balances(s.drop_last()) + s.last().balance
    }
}

/// Every running total of the balances stays representable in 64 bits.
pub open spec fn spec_prefix_sums_fit(s: Seq<AccountInfo>) -> bool {
    forall|i: int|
        0 <= i <= s.len() ==> i64::MIN <= #[trigger] spec_sum_balances(s.take(i)) <= i64::MAX
}

/// Sum the balances of the accounts; `None` exactly when some running
/// total leaves the 64-bit range.
pub fn sum_balances(accounts: &Vec<AccountInfo>) -> (r: Option<i64>)
    ensures
        (r is Some) == spec_prefix_sums_fit(accounts@),
        r is Some ==> r.unwrap() == spec_sum_balances(accounts@),
{
    let mut total: i64 = 0;
    let mut i: usize = 0;
    proof {
        assert(accounts@.take(0) =~= Seq::<AccountInfo>::empty());
    }
    while i < accounts.len()
        invariant
            0 <= i <= accounts.len(),
            total == spec_sum_balances(accounts@.take(i as int)),
            forall|j: int|
                0 <= j <= i ==> i64::MIN <= #[trigger] spec_sum_balances(accounts@.take(j))
                    <= i64::MAX,
        decreases accounts.len() - i,
    {
        proof {
            assert(accounts@.take(i + 1 as int).drop_last() =~= accounts@.take(i as int));
            assert(accounts@.take(i + 1 as int).last() == accounts@[i as int]);
        }
        total = match total.checked_add(accounts[i].balance) {
            Some(t) => t,
            None => {
                proof {
                    assert(!(i64::MIN <= spec_sum_balances(accounts@.take(i + 1 as int))
                        <= i64::MAX));
                }
                return None;
            }
        };
        i = i + 1;
    }
    proof {
        assert(accounts@.take(accounts@.len() as int) =~= accounts@);
        assert(forall|j: int|
            0 <= j <= accounts@.len() ==> i64::MIN <= #[trigger] spec_sum_balances(
                accounts@.take(j),
            ) <= i64::MAX);
    }
    Some(total)
}

/// Assemble the drill-down snapshot of one participant out of its profile,
/// its accounts and its already-mapped contract rows.  The total is the
/// balance sum; if that sum cannot be represented in 64 bits it is
/// reported as zero.
pub fn participant_detail_from_parts(
    info: ParticipantInfo,
    accounts: Vec<AccountInfo>,
    contracts: Vec<ContractInfo>,
) -> (r: ParticipantDetail)
    ensures
        r.info == info,
        r.accounts == accounts,
        r.contracts == contracts,
        spec_prefix_sums_fit(accounts@) ==> r.total_balance == spec_sum_balances(accounts@),
        !spec_prefix_sums_fit(accounts@) ==> r.total_balance == 0,
{
    let total = match sum_balances(&accounts) {
        Some(t) => t,
        None => 0,
    };
    ParticipantDetail { info, accounts, total_balance: total, contracts }
}

} // verus!
