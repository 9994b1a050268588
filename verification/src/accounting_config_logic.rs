//! The account configuration of one user: account types and accounts.
use vstd::prelude::*;

use crate::database_handler_mongodb::DbConnectionSetting;
use crate::datatypes::{FinanceAccount, FinanceAccountType};
use crate::text::{concat2, fails_with};
use crate::in_memory_database::{
    account_list_outcome, account_upsert_outcome, limit_view, type_list_has_id,
    type_list_outcome,
    type_upsert_outcome, user_not_found_message, user_position, InMemoryDatabaseData,
    UserLedgerView,
};

verus! {

/// Whether the user's account types include one with the id.
pub open spec fn type_available(types: Seq<FinanceAccountType>, id: u128) -> bool {
    exists|k: int| 0 <= k < types.len() && #[trigger] types[k].id == id
}

/// The error prefix when the account types could not be read.
pub open spec fn type_lookup_prefix() -> Seq<char> {
    "Err upserting finance account, could not get list of available account types: "@
}

/// The error text for an account whose type the user does not have.
pub open spec fn type_missing_message() -> Seq<char> {
    "could not upsert finance account because account type is not available"@
}

/// Whether an account may be stored, given the listing of the user's
/// account types: a failed listing refuses it with the listing's message
/// after a prefix, a listing without the account's type refuses it.
pub open spec fn type_check_outcome(
    types: Result<Vec<FinanceAccountType>, String>,
    a: FinanceAccount,
    r: Result<(), String>,
) -> bool {
    match types {
        Err(m) => fails_with(r, type_lookup_prefix() + m@),
        Ok(v) => if type_available(v@, a.finance_account_type_id) {
            r is Ok
        } else {
            fails_with(r, type_missing_message())
        },
    }
}

/// The decision before an account is stored, from the listing of the
/// user's account types.
pub fn account_type_check(types: &Result<Vec<FinanceAccountType>, String>, finance_account: &FinanceAccount) -> (r:
    Result<(), String>)
    ensures
        type_check_outcome(*types, *finance_account, r),
{
    match types {
        Err(m) => Err(concat2(
            "Err upserting finance account, could not get list of available account types: ",
            m.as_str(),
        )),
        Ok(v) => {
            if type_list_has_id(v, finance_account.finance_account_type_id) {
                Ok(())
            } else {
                Err(String::from_str("could not upsert finance account because account type is not available"))
            }
        },
    }
}

/// Whether user `u` may write an item whose id is already stored for
/// `owner` (if it is stored at all): refused, with `refusal`, when the item
/// belongs to another user.
pub fn owner_check(owner: Option<u128>, u: u128, refusal: &str) -> (r: Result<(), String>)
    ensures
        (owner matches Some(o) && o != u) ==> fails_with(r, refusal@),
        !(owner matches Some(o) && o != u) ==> r is Ok,
{
    match owner {
        Some(o) => {
            if o != u {
                Err(String::from_str(refusal))
            } else {
                Ok(())
            }
        },
        None => Ok(()),
    }
}

/// Storing an account through the handle: the type lookup fails for an
/// unknown user, an account of a type the user does not have is refused,
/// both leaving the store as it was; otherwise the store stores it (see
/// `account_upsert_outcome`).
pub open spec fn config_account_upsert_outcome(
    db0: Seq<UserLedgerView>,
    u: u128,
    a: FinanceAccount,
    r: Result<(), String>,
    db1: Seq<UserLedgerView>,
) -> bool {
    match user_position(db0, u) {
        None => fails_with(r, type_lookup_prefix() + user_not_found_message()) && db1 == db0,
        Some(i) => if !type_available(db0[i].account_types, a.finance_account_type_id) {
            fails_with(r, type_missing_message()) && db1 == db0
        } else {
            account_upsert_outcome(db0, u, a, r, db1)
        },
    }
}

/// The account configuration operations of one user on the store.
pub struct FinanceAccountingConfigHandle<'a> {
    db_connection_settings: &'a DbConnectionSetting,
    user_id: &'a u128,
}

impl<'a> FinanceAccountingConfigHandle<'a> {
    /// The user the handle acts for.
    pub closed spec fn user(&self) -> u128 {
        *self.user_id
    }

    /// A handle acting for `user_id`.
    pub fn new(connection_settings: &'a DbConnectionSetting, user_id: &'a u128) -> (r: Self)
        ensures
            r.user() == *user_id,
    {
        FinanceAccountingConfigHandle { db_connection_settings: connection_settings, user_id }
    }

    /// The user's account types.
    pub fn finance_account_type_list(&self, db: &InMemoryDatabaseData) -> (r: Result<
        Vec<FinanceAccountType>,
        String,
    >)
        ensures
            type_list_outcome(db@, self.user(), r),
    {
        db.finance_account_type_list(self.db_connection_settings, self.user_id)
    }

    /// Stores the account type for the user (a type with the same id is
    /// replaced); the type itself is left as it is.
    pub fn finance_account_type_upsert(
        &mut self,
        db: &mut InMemoryDatabaseData,
        finance_account_type: &mut FinanceAccountType,
    ) -> (r: Result<(), String>)
        ensures
            final(self).user() == old(self).user(),
            *final(finance_account_type) == *old(finance_account_type),
            type_upsert_outcome(old(db)@, old(self).user(), *old(finance_account_type), r, final(db)@),
    {
        db.finance_account_type_upsert(self.db_connection_settings, self.user_id, finance_account_type)
    }

    /// The user's accounts, limited to the listed ids when a list is given.
    pub fn finance_account_list(
        &self,
        db: &InMemoryDatabaseData,
        limit_account_ids: Option<&Vec<u128>>,
    ) -> (r: Result<Vec<FinanceAccount>, String>)
        ensures
            account_list_outcome(db@, self.user(), limit_view(limit_account_ids), r),
    {
        self.finance_account_list_async(db, limit_account_ids)
    }

    /// The user's accounts, limited to the listed ids when a list is given
    /// (the form the asynchronous callers use).
    pub fn finance_account_list_async(
        &self,
        db: &InMemoryDatabaseData,
        limit_account_ids: Option<&Vec<u128>>,
    ) -> (r: Result<Vec<FinanceAccount>, String>)
        ensures
            account_list_outcome(db@, self.user(), limit_view(limit_account_ids), r),
    {
        db.finance_account_list(self.db_connection_settings, self.user_id, limit_account_ids)
    }

    /// Stores the account for the user after checking that its account type
    /// is one of the user's types.
    pub fn finance_account_upsert(
        &mut self,
        db: &mut InMemoryDatabaseData,
        finance_account: &FinanceAccount,
    ) -> (r: Result<(), String>)
        ensures
            final(self).user() == old(self).user(),
            config_account_upsert_outcome(old(db)@, old(self).user(), *finance_account, r, final(db)@),
    {
        let types = db.finance_account_type_list(self.db_connection_settings, self.user_id);
        match account_type_check(&types, finance_account) {
            Err(m) => Err(m),
            Ok(()) => db.finance_account_upsert(self.db_connection_settings, self.user_id, finance_account),
        }
    }
}

} // verus!
