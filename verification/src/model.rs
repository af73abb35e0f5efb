//! Read-only display snapshots owned by the engine.
//!
//! Every collection here is replaced wholesale by a load and never patched in
//! place.  The RPC transport hands the library plain values (strings and
//! integers); enum-coded fields arrive as the integer codes of the wire
//! format and are turned into labels by the functions in `labels`.

use vstd::prelude::*;
use vstd::view::View as _;

verus! {

/// Contact data of a participant.
#[derive(Debug, Clone, PartialEq)]
pub struct ContactInfo {
    pub email: String,
    pub phone: String,
    pub website: String,
    pub address: String,
    pub postal_code: String,
    pub city: String,
    pub country: String,
}

/// A participant as shown in the participant list.
#[derive(Debug, Clone, PartialEq)]
pub struct ParticipantInfo {
    pub id: String,
    pub name: String,
    pub role: String,
    pub services: Vec<String>,
    pub created_at: Option<i64>,
    pub metadata: Vec<(String, String)>,
    pub about: String,
    pub contact: ContactInfo,
}

/// A contract as shown on the participant detail screen.
#[derive(Debug, Clone, PartialEq)]
pub struct ContractInfo {
    pub id: String,
    pub contract_type: String,
    pub description: String,
    /// The other participants of the contract, the viewed one excluded.
    pub participants: Vec<String>,
    /// Next execution time in milliseconds, where the contract has one.
    pub next_execution: Option<i64>,
}

/// An account snapshot; balances are integer cents.
#[derive(Debug, Clone, PartialEq)]
pub struct AccountInfo {
    pub id: String,
    pub participant_id: String,
    pub account_type: String,
    pub balance: i64,
}

/// The drill-down view of one participant.
#[derive(Debug, Clone, PartialEq)]
pub struct ParticipantDetail {
    pub info: ParticipantInfo,
    pub accounts: Vec<AccountInfo>,
    pub total_balance: i64,
    pub contracts: Vec<ContractInfo>,
}

/// A scheduled contract execution shown on the `Future` screen.
#[derive(Debug, Clone, PartialEq)]
pub struct FutureEvent {
    pub contract_id: String,
    pub contract_type: String,
    pub description: String,
    /// Unix timestamp in milliseconds.
    pub execution_time: i64,
}

impl ContactInfo {
    /// A contact with every field empty, used where the transport sent none.
    pub fn empty() -> (r: ContactInfo)
        ensures
            r.email@ == Seq::<char>::empty(),
            r.phone@ == Seq::<char>::empty(),
            r.website@ == Seq::<char>::empty(),
            r.address@ == Seq::<char>::empty(),
            r.postal_code@ == Seq::<char>::empty(),
            r.city@ == Seq::<char>::empty(),
            r.country@ == Seq::<char>::empty(),
    {
        ContactInfo {
            email: String::new(),
            phone: String::new(),
            website: String::new(),
            address: String::new(),
            postal_code: String::new(),
            city: String::new(),
            country: String::new(),
        }
    }
}

impl ParticipantInfo {
    /// Build a participant snapshot out of the transport's plain values:
    /// the role code becomes its label, a nonpositive creation time counts
    /// as absent, and a missing contact becomes the empty one.
    pub fn from_parts(
        id: String,
        name: String,
        role_code: i32,
        services: Vec<String>,
        created_at: i64,
        metadata: Vec<(String, String)>,
        about: String,
        contact: Option<ContactInfo>,
    ) -> (r: ParticipantInfo)
        ensures
            r.id == id,
            r.name == name,
            r.role@ == crate::labels::spec_role_label(role_code as int),
            r.services == services,
            r.created_at == (if created_at > 0 {
                Some(created_at)
            } else {
                None
            }),
            r.metadata == metadata,
            r.about == about,
            contact matches Some(c) ==> r.contact == c,
            contact is None ==> {
                &&& r.contact.email@ == Seq::<char>::empty()
                &&& r.contact.phone@ == Seq::<char>::empty()
                &&& r.contact.website@ == Seq::<char>::empty()
                &&& r.contact.address@ == Seq::<char>::empty()
                &&& r.contact.postal_code@ == Seq::<char>::empty()
                &&& r.contact.city@ == Seq::<char>::empty()
                &&& r.contact.country@ == Seq::<char>::empty()
            },
    {
        ParticipantInfo {
            id,
            name,
            role: crate::labels::role_to_string(role_code).to_owned(),
            services,
            created_at: if created_at > 0 {
                Some(created_at)
            } else {
                None
            },
            metadata,
            about,
            contact: match contact {
                Some(c) => c,
                None => ContactInfo::empty(),
            },
        }
    }
}

impl AccountInfo {
    /// Build an account snapshot out of the transport's plain values; the
    /// account type code becomes its label.
    pub fn from_parts(id: String, participant_id: String, type_code: i32, balance: i64) -> (r:
        AccountInfo)
        ensures
            r.id == id,
            r.participant_id == participant_id,
            r.account_type@ == crate::labels::spec_account_type_label(type_code as int),
            r.balance == balance,
    {
        AccountInfo {
            id,
            participant_id,
            account_type: crate::labels::account_type_to_string(type_code).to_owned(),
            balance,
        }
    }
}

/// A field-for-field copy of an account, equal to the original.
pub fn copy_account(a: &AccountInfo) -> (r: AccountInfo)
    ensures
        r == *a,
{
    AccountInfo {
        id: a.id.clone(),
        participant_id: a.participant_id.clone(),
        account_type: a.account_type.clone(),
        balance: a.balance,
    }
}

/// A field-for-field copy of a future event, equal to the original.
pub fn copy_event(e: &FutureEvent) -> (r: FutureEvent)
    ensures
        r == *e,
{
    FutureEvent {
        contract_id: e.contract_id.clone(),
        contract_type: e.contract_type.clone(),
        description: e.description.clone(),
        execution_time: e.execution_time,
    }
}

} // verus!
