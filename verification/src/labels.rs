//! Conversions between the integer codes of the wire format and the labels
//! and keywords shown to, or typed by, the user.

use crate::numtext::{dec_int_string, spec_dec_int};
use crate::textops::{lower_of, lowercase, str_eq};
use vstd::prelude::*;
use vstd::view::View as _;

verus! {

/// The display label of a participant role code.
pub open spec fn spec_role_label(role: int) -> Seq<char> {
    if role == 1 {
        "Access Provider"@
    } else if role == 2 {
        "Banking Partner"@
    } else if role == 3 {
        "Ecosystem Partner"@
    } else if role == 4 {
        "Supplier"@
    } else if role == 5 {
        "Equipment Provider"@
    } else {
        "Unknown"@
    }
}

/// The display label of a participant role code.
pub fn role_to_string(role: i32) -> (r: &'static str)
    ensures
        r@ == spec_role_label(role as int),
{
    if role == 1 {
        "Access Provider"
    } else if role == 2 {
        "Banking Partner"
    } else if role == 3 {
        "Ecosystem Partner"
    } else if role == 4 {
        "Supplier"
    } else if role == 5 {
        "Equipment Provider"
    } else {
        "Unknown"
    }
}

/// The display label of an account type code.
pub open spec fn spec_account_type_label(t: int) -> Seq<char> {
    if t == 1 {
        "Standalone"@
    } else if t == 2 {
        "Operating"@
    } else if t == 3 {
        "Receivables"@
    } else if t == 4 {
        "Payables"@
    } else if t == 5 {
        "Escrow"@
    } else if t == 6 {
        "Fees"@
    } else if t == 7 {
        "Usage"@
    } else {
        "Unknown"@
    }
}

/// The display label of an account type code.
pub fn account_type_to_string(account_type: i32) -> (r: &'static str)
    ensures
        r@ == spec_account_type_label(account_type as int),
{
    if account_type == 1 {
        "Standalone"
    } else if account_type == 2 {
        "Operating"
    } else if account_type == 3 {
        "Receivables"
    } else if account_type == 4 {
        "Payables"
    } else if account_type == 5 {
        "Escrow"
    } else if account_type == 6 {
        "Fees"
    } else if account_type == 7 {
        "Usage"
    } else {
        "Unknown"
    }
}

/// The display label of a contract type code; unknown codes render as
/// `Unknown (<code>)`.
pub open spec fn spec_contract_type_label(t: int) -> Seq<char> {
    if t == 0 {
        "Generic"@
    } else if t == 1 {
        "Loan"@
    } else if t == 2 {
        "Invoice"@
    } else if t == 3 {
        "Subscription"@
    } else if t == 4 {
        "Conditional Payment"@
    } else if t == 5 {
        "Revenue Share"@
    } else if t == 6 {
        "Supplier Registration"@
    } else if t == 7 {
        "Ecosystem Partner Membership"@
    } else {
        "Unknown ("@ + spec_dec_int(t) + ")"@
    }
}

/// The display label of a contract type code.
pub fn contract_type_to_string(contract_type: i32) -> (r: String)
    ensures
        r@ == spec_contract_type_label(contract_type as int),
{
    if contract_type == 0 {
        "Generic".to_owned()
    } else if contract_type == 1 {
        "Loan".to_owned()
    } else if contract_type == 2 {
        "Invoice".to_owned()
    } else if contract_type == 3 {
        "Subscription".to_owned()
    } else if contract_type == 4 {
        "Conditional Payment".to_owned()
    } else if contract_type == 5 {
        "Revenue Share".to_owned()
    } else if contract_type == 6 {
        "Supplier Registration".to_owned()
    } else if contract_type == 7 {
        "Ecosystem Partner Membership".to_owned()
    } else {
        let mut s = "Unknown (".to_owned();
        let ds = dec_int_string(contract_type as i64);
        s.append(ds.as_str());
        s.append(")");
        proof {
            assert(s@ =~= spec_contract_type_label(contract_type as int));
        }
        s
    }
}

/// The wire code of a participant role keyword, matched case-insensitively;
/// unknown keywords give 0.
pub open spec fn spec_role_code(s: Seq<char>) -> int {
    if lower_of(s) == "access_provider"@ {
        1
    } else if lower_of(s) == "banking_partner"@ {
        2
    } else if lower_of(s) == "ecosystem_partner"@ {
        3
    } else if lower_of(s) == "supplier"@ {
        4
    } else if lower_of(s) == "equipment_provider"@ {
        5
    } else {
        0
    }
}

/// The wire code of a participant role keyword, case-insensitively.
pub fn role_string_to_int(role: &str) -> (r: i32)
    ensures
        r as int == spec_role_code(role@),
{
    let l = lowercase(role);
    if str_eq(l.as_str(), "access_provider") {
        1
    } else if str_eq(l.as_str(), "banking_partner") {
        2
    } else if str_eq(l.as_str(), "ecosystem_partner") {
        3
    } else if str_eq(l.as_str(), "supplier") {
        4
    } else if str_eq(l.as_str(), "equipment_provider") {
        5
    } else {
        0
    }
}

/// The wire code of an account type keyword, matched case-insensitively;
/// unknown keywords give 0.
pub open spec fn spec_account_type_code(s: Seq<char>) -> int {
    if lower_of(s) == "standalone"@ {
        1
    } else if lower_of(s) == "operating"@ {
        2
    } else if lower_of(s) == "receivables"@ {
        3
    } else if lower_of(s) == "payables"@ {
        4
    } else if lower_of(s) == "escrow"@ {
        5
    } else if lower_of(s) == "fees"@ {
        6
    } else if lower_of(s) == "usage"@ {
        7
    } else {
        0
    }
}

/// The wire code of an account type keyword, case-insensitively.
pub fn account_type_string_to_int(account_type: &str) -> (r: i32)
    ensures
        r as int == spec_account_type_code(account_type@),
{
    let l = lowercase(account_type);
    if str_eq(l.as_str(), "standalone") {
        1
    } else if str_eq(l.as_str(), "operating") {
        2
    } else if str_eq(l.as_str(), "receivables") {
        3
    } else if str_eq(l.as_str(), "payables") {
        4
    } else if str_eq(l.as_str(), "escrow") {
        5
    } else if str_eq(l.as_str(), "fees") {
        6
    } else if str_eq(l.as_str(), "usage") {
        7
    } else {
        0
    }
}

/// The wire code of a contract type keyword, matched case-insensitively;
/// unknown keywords give 0.
pub open spec fn spec_contract_type_code(s: Seq<char>) -> int {
    if lower_of(s) == "loan"@ {
        1
    } else if lower_of(s) == "invoice"@ {
        2
    } else if lower_of(s) == "subscription"@ {
        3
    } else if lower_of(s) == "conditional_payment"@ {
        4
    } else if lower_of(s) == "revenue_share"@ {
        5
    } else {
        0
    }
}

/// The wire code of a contract type keyword, case-insensitively.
pub fn contract_type_string_to_int(contract_type: &str) -> (r: i32)
    ensures
        r as int == spec_contract_type_code(contract_type@),
{
    let l = lowercase(contract_type);
    if str_eq(l.as_str(), "loan") {
        1
    } else if str_eq(l.as_str(), "invoice") {
        2
    } else if str_eq(l.as_str(), "subscription") {
        3
    } else if str_eq(l.as_str(), "conditional_payment") {
        4
    } else if str_eq(l.as_str(), "revenue_share") {
        5
    } else {
        0
    }
}

/// The wire code of a contract status keyword, matched case-insensitively;
/// unknown keywords give 0.
pub open spec fn spec_contract_status_code(s: Seq<char>) -> int {
    if lower_of(s) == "active"@ {
        1
    } else if lower_of(s) == "paused"@ {
        2
    } else if lower_of(s) == "completed"@ {
        3
    } else if lower_of(s) == "cancelled"@ {
        4
    } else {
        0
    }
}

/// The wire code of a contract status keyword, case-insensitively.
pub fn contract_status_string_to_int(status: &str) -> (r: i32)
    ensures
        r as int == spec_contract_status_code(status@),
{
    let l = lowercase(status);
    if str_eq(l.as_str(), "active") {
        1
    } else if str_eq(l.as_str(), "paused") {
        2
    } else if str_eq(l.as_str(), "completed") {
        3
    } else if str_eq(l.as_str(), "cancelled") {
        4
    } else {
        0
    }
}

} // verus!
