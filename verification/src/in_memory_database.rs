//! The in-memory accounting store: per user, the account types, accounts,
//! journal entries and booking lines, with the queries and updates of the
//! store interface. Users are found by their first entry in the store.
use vstd::prelude::*;
use std::collections::HashMap;

use crate::accounting_database::{
    account_list_contains, account_listed, build_booking_result, check_accounts_available, check_booking_accounts,
    entries_for_options, filter_entries_by_options, filter_journal_by_window,
    find_max_running_number, first_unavailable_option, journal_in_window, latest_saldo_entries,
    max_running_number, result_books_request, saldo_map, saldo_query_ids, ids_view,
    unavailable_account_message, same_account_message, FinanceAccountBookingEntryListSearchOption,
};
use crate::database_handler_mongodb::DbConnectionSetting;
use crate::datatypes::{
    FinanceAccount, FinanceAccountBookingEntry, FinanceAccountType, FinanceBookingRequest,
    FinanceBookingResult, FinanceJournalEntry,
};
use crate::lookup::{first_index, lemma_first_index, lemma_first_index_is};
use crate::platform::new_uuid;
use crate::text::fails_with;

verus! {

broadcast use vstd::std_specs::hash::group_hash_axioms;

/// What the store holds for one user.
pub struct UserLedgerView {
    pub user_id: u128,
    pub account_types: Seq<FinanceAccountType>,
    pub accounts: Seq<FinanceAccount>,
    pub booking_entries: Seq<FinanceAccountBookingEntry>,
    pub journal_entries: Seq<FinanceJournalEntry>,
}

/// The stored data of one user.
pub struct InMemoryDatabaseEntryObj {
    user_id: u128,
    account_types_per_user: Vec<FinanceAccountType>,
    accounts_per_user: Vec<FinanceAccount>,
    booking_entries_per_user: Vec<FinanceAccountBookingEntry>,
    journal_entries_per_user: Vec<FinanceJournalEntry>,
}

impl View for InMemoryDatabaseEntryObj {
    type V = UserLedgerView;

    closed spec fn view(&self) -> UserLedgerView {
        UserLedgerView {
            user_id: self.user_id,
            account_types: self.account_types_per_user@,
            accounts: self.accounts_per_user@,
            booking_entries: self.booking_entries_per_user@,
            journal_entries: self.journal_entries_per_user@,
        }
    }
}

/// The whole store: the users' data in insertion order.
pub struct InMemoryDatabaseData {
    data_per_user: Vec<InMemoryDatabaseEntryObj>,
}

impl View for InMemoryDatabaseData {
    type V = Seq<UserLedgerView>;

    closed spec fn view(&self) -> Seq<UserLedgerView> {
        self.data_per_user@.map_values(|e: InMemoryDatabaseEntryObj| e@)
    }
}

/// Whether entry `i` of the store belongs to user `u`.
pub open spec fn is_user_entry(db: Seq<UserLedgerView>, u: u128) -> spec_fn(int) -> bool {
    |i: int| db[i].user_id == u
}

/// The position of the user's data: the first entry with the user's id.
pub open spec fn user_position(db: Seq<UserLedgerView>, u: u128) -> Option<int> {
    first_index(db.len() as int, is_user_entry(db, u))
}

/// Whether an account type id is held by a user other than `u`.
pub open spec fn type_id_of_other_user(db: Seq<UserLedgerView>, u: u128, id: u128) -> bool {
    exists|j: int, k: int|
        0 <= j < db.len() && db[j].user_id != u && 0 <= k < db[j].account_types.len()
            && #[trigger] db[j].account_types[k].id == id
}

/// Whether an account id is held by a user other than `u`.
pub open spec fn account_id_of_other_user(db: Seq<UserLedgerView>, u: u128, id: u128) -> bool {
    exists|j: int, k: int|
        0 <= j < db.len() && db[j].user_id != u && 0 <= k < db[j].accounts.len()
            && #[trigger] db[j].accounts[k].id == id
}

/// Whether entry `k` of the account type list has the id.
pub open spec fn type_has_id(s: Seq<FinanceAccountType>, id: u128) -> spec_fn(int) -> bool {
    |k: int| s[k].id == id
}

/// Whether entry `k` of the account list has the id.
pub open spec fn account_has_id(s: Seq<FinanceAccount>, id: u128) -> spec_fn(int) -> bool {
    |k: int| s[k].id == id
}

/// Inserting or replacing an account type: a type with the same id is
/// taken out (the first one) and the new one goes to the end.
pub open spec fn upsert_account_type(s: Seq<FinanceAccountType>, t: FinanceAccountType) -> Seq<
    FinanceAccountType,
> {
    match first_index(s.len() as int, type_has_id(s, t.id)) {
        Some(k) => s.remove(k).push(t),
        None => s.push(t),
    }
}

/// Inserting or replacing an account: an account with the same id is taken
/// out (the first one) and the new one goes to the end.
pub open spec fn upsert_account(s: Seq<FinanceAccount>, a: FinanceAccount) -> Seq<FinanceAccount> {
    match first_index(s.len() as int, account_has_id(s, a.id)) {
        Some(k) => s.remove(k).push(a),
        None => s.push(a),
    }
}

/// The accounts whose id is in the limit list (all of them without a list),
/// in stored order.
pub open spec fn accounts_limited(s: Seq<FinanceAccount>, limit: Option<Seq<u128>>) -> Seq<
    FinanceAccount,
>
    decreases s.len(),
{
    if s.len() == 0 {
        Seq::empty()
    } else {
        let prev = accounts_limited(s.drop_last(), limit);
        if limit matches Some(l) ==> l.contains(s.last().id) {
            prev.push(s.last())
        } else {
            prev
        }
    }
}

/// The view of an optional borrowed id list.
pub open spec fn limit_view(limit: Option<&Vec<u128>>) -> Option<Seq<u128>> {
    match limit {
        Some(v) => Some(v@),
        None => None,
    }
}

/// Whether the user's journal can take one more running number (always so
/// for an unknown user, who is refused anyway).
pub open spec fn running_number_available(db: Seq<UserLedgerView>, u: u128) -> bool {
    user_position(db, u) matches Some(i) ==> max_running_number(db[i].journal_entries) < u64::MAX
}

/// The outcome of booking `req` for user `u` on the store `db0`, with
/// result `r` and store `db1` afterwards: a booking with the same account on
/// both sides, an unknown user, and a credit or debit account the user does
/// not have are refused, in that order, leaving the store as it was; otherwise the journal entry and its two lines are
/// appended to the user's data and returned, the journal entry carrying the
/// next running number.
pub open spec fn booking_insert_outcome(
    db0: Seq<UserLedgerView>,
    u: u128,
    req: FinanceBookingRequest,
    r: Result<FinanceBookingResult, String>,
    db1: Seq<UserLedgerView>,
) -> bool {
    if req.credit_finance_account_id == req.debit_finance_account_id {
        fails_with(r, same_account_message()) && db1 == db0
    } else {
        match user_position(db0, u) {
            None => fails_with(r, user_not_found_message()) && db1 == db0,
            Some(i) => if !account_listed(db0[i].accounts, req.credit_finance_account_id) {
                fails_with(r, "credit account is not available"@) && db1 == db0
            } else if !account_listed(db0[i].accounts, req.debit_finance_account_id) {
                fails_with(r, "debit account is not available"@) && db1 == db0
            } else {
                r matches Ok(res) && result_books_request(
                    res,
                    req,
                    (max_running_number(db0[i].journal_entries) + 1) as u64,
                ) && db1 == db0.update(
                    i,
                    UserLedgerView {
                        journal_entries: db0[i].journal_entries.push(res.journal_entry),
                        booking_entries: db0[i].booking_entries.push(res.credit_account_entry).push(
                            res.debit_account_entry,
                        ),
                        ..db0[i]
                    },
                )
            },
        }
    }
}

/// The error text for an unknown user.
pub open spec fn user_not_found_message() -> Seq<char> {
    "User not found"@
}

/// Listing the user's account types: the stored list, or an error for an
/// unknown user.
pub open spec fn type_list_outcome(
    db: Seq<UserLedgerView>,
    u: u128,
    r: Result<Vec<FinanceAccountType>, String>,
) -> bool {
    match user_position(db, u) {
        None => fails_with(r, user_not_found_message()),
        Some(i) => r matches Ok(v) && v@ == db[i].account_types,
    }
}

/// Storing an account type for the user: refused for an unknown user and
/// for a type id that another user holds, leaving the store as it was;
/// otherwise the user's type list gets the type (see `upsert_account_type`).
pub open spec fn type_upsert_outcome(
    db0: Seq<UserLedgerView>,
    u: u128,
    t: FinanceAccountType,
    r: Result<(), String>,
    db1: Seq<UserLedgerView>,
) -> bool {
    match user_position(db0, u) {
        None => fails_with(r, user_not_found_message()) && db1 == db0,
        Some(i) => if type_id_of_other_user(db0, u, t.id) {
            fails_with(r, "account type id not available for current user"@) && db1 == db0
        } else {
            r is Ok && db1 == db0.update(
                i,
                UserLedgerView { account_types: upsert_account_type(db0[i].account_types, t), ..db0[i] },
            )
        },
    }
}

/// Listing the user's accounts, limited to the listed ids when a list is
/// given; an error for an unknown user.
pub open spec fn account_list_outcome(
    db: Seq<UserLedgerView>,
    u: u128,
    limit: Option<Seq<u128>>,
    r: Result<Vec<FinanceAccount>, String>,
) -> bool {
    match user_position(db, u) {
        None => fails_with(r, user_not_found_message()),
        Some(i) => r matches Ok(v) && v@ == accounts_limited(db[i].accounts, limit),
    }
}

/// Storing an account for the user: refused for an unknown user and for an
/// account id that another user holds, leaving the store as it was;
/// otherwise the user's account list gets the account (see `upsert_account`).
pub open spec fn account_upsert_outcome(
    db0: Seq<UserLedgerView>,
    u: u128,
    a: FinanceAccount,
    r: Result<(), String>,
    db1: Seq<UserLedgerView>,
) -> bool {
    match user_position(db0, u) {
        None => fails_with(r, user_not_found_message()) && db1 == db0,
        Some(i) => if account_id_of_other_user(db0, u, a.id) {
            fails_with(r, "account id not accessible for current user"@) && db1 == db0
        } else {
            r is Ok && db1 == db0.update(
                i,
                UserLedgerView { accounts: upsert_account(db0[i].accounts, a), ..db0[i] },
            )
        },
    }
}

/// Listing the user's journal entries in the window; an error for an
/// unknown user.
pub open spec fn journal_list_outcome(
    db: Seq<UserLedgerView>,
    u: u128,
    from: Option<i64>,
    till: Option<i64>,
    r: Result<Vec<FinanceJournalEntry>, String>,
) -> bool {
    match user_position(db, u) {
        None => fails_with(r, user_not_found_message()),
        Some(i) => r matches Ok(v) && v@ == journal_in_window(db[i].journal_entries, from, till),
    }
}

/// Listing the user's booking lines for the search options: an error for
/// an unknown user and for the first option naming an account the user does
/// not have; otherwise the lines of each option in turn.
pub open spec fn booking_list_outcome(
    db: Seq<UserLedgerView>,
    u: u128,
    opts: Seq<FinanceAccountBookingEntryListSearchOption>,
    r: Result<Vec<FinanceAccountBookingEntry>, String>,
) -> bool {
    match user_position(db, u) {
        None => fails_with(r, user_not_found_message()),
        Some(i) => match first_unavailable_option(opts, db[i].accounts) {
            Some(k) => fails_with(r, unavailable_account_message(opts[k].finance_account_id)),
            None => r matches Ok(v) && v@ == entries_for_options(db[i].booking_entries, opts),
        },
    }
}

/// The latest saldo line per covered account of the user (see `saldo_map`);
/// an error for an unknown user.
pub open spec fn saldo_entries_outcome(
    db: Seq<UserLedgerView>,
    u: u128,
    list: Option<Seq<u128>>,
    r: Result<HashMap<u128, FinanceAccountBookingEntry>, String>,
) -> bool {
    match user_position(db, u) {
        None => fails_with(r, user_not_found_message()),
        Some(i) => r matches Ok(m) && m@ == saldo_map(
            db[i].booking_entries,
            saldo_query_ids(db[i].booking_entries, list),
        ),
    }
}

impl InMemoryDatabaseEntryObj {
    /// The user's id.
    pub fn user_id(&self) -> (r: u128)
        ensures
            r == self@.user_id,
    {
        self.user_id
    }
}

impl InMemoryDatabaseData {
    /// An empty store.
    pub fn new() -> (r: Self)
        ensures
            r@ == Seq::<UserLedgerView>::empty(),
    {
        let r = InMemoryDatabaseData { data_per_user: Vec::new() };
        assert(r@ =~= Seq::<UserLedgerView>::empty());
        r
    }

    /// The empty data of a new user.
    pub fn create_in_memory_database_entry_object(user_id: &u128) -> (r: InMemoryDatabaseEntryObj)
        ensures
            r@.user_id == *user_id,
            r@.account_types == Seq::<FinanceAccountType>::empty(),
            r@.accounts == Seq::<FinanceAccount>::empty(),
            r@.booking_entries == Seq::<FinanceAccountBookingEntry>::empty(),
            r@.journal_entries == Seq::<FinanceJournalEntry>::empty(),
    {
        InMemoryDatabaseEntryObj {
            user_id: *user_id,
            account_types_per_user: Vec::new(),
            accounts_per_user: Vec::new(),
            booking_entries_per_user: Vec::new(),
            journal_entries_per_user: Vec::new(),
        }
    }

    /// Adds the users' data at the end of the store.
    pub fn insert_in_memory_database(
        &mut self,
        data_per_user: Vec<InMemoryDatabaseEntryObj>,
    ) -> (r: Result<(), String>)
        ensures
            r is Ok,
            final(self)@ == old(self)@ + data_per_user@.map_values(|e: InMemoryDatabaseEntryObj| e@),
    {
        let mut data = data_per_user;
        let ghost added = data@.map_values(|e: InMemoryDatabaseEntryObj| e@);
        self.data_per_user.append(&mut data);
        assert(self@ =~= old(self)@ + added);
        Ok(())
    }

    /// Finds the position of the user's data.
    fn find_user(&self, user_id: u128) -> (r: Option<usize>)
        ensures
            match r {
                Some(i) => user_position(self@, user_id) == Some(i as int),
                None => user_position(self@, user_id) is None,
            },
            r matches Some(i) ==> i < self.data_per_user@.len(),
    {
        let ghost db = self@;
        let ghost p = is_user_entry(db, user_id);
        let mut i: usize = 0;
        while i < self.data_per_user.len()
            invariant
                i <= self.data_per_user.len(),
                db == self@,
                p == is_user_entry(db, user_id),
                db.len() == self.data_per_user@.len(),
                forall|j: int| 0 <= j < i ==> !#[trigger] p(j),
            decreases self.data_per_user.len() - i,
        {
            if self.data_per_user[i].user_id == user_id {
                proof {
                    assert(db[i as int] == self.data_per_user@[i as int]@);
                    lemma_first_index_is(db.len() as int, p, i as int);
                }
                return Some(i);
            }
            proof {
                assert(db[i as int] == self.data_per_user@[i as int]@);
            }
            i = i + 1;
        }
        proof {
            lemma_first_index(db.len() as int, p);
        }
        None
    }
}

/// A copy of an account type list.
fn clone_types(v: &Vec<FinanceAccountType>) -> (r: Vec<FinanceAccountType>)
    ensures
        r@ == v@,
{
    let mut r: Vec<FinanceAccountType> = Vec::new();
    let mut i: usize = 0;
    while i < v.len()
        invariant
            i <= v.len(),
            r@ == v@.take(i as int),
        decreases v.len() - i,
    {
        r.push(v[i].clone());
        proof {
            assert(v@.take(i + 1) =~= v@.take(i as int).push(v@[i as int]));
        }
        i = i + 1;
    }
    assert(v@.take(v@.len() as int) =~= v@);
    r
}

/// The accounts whose id is in the limit list (all without a list).
fn filter_accounts_by_limit(v: &Vec<FinanceAccount>, limit: Option<&Vec<u128>>) -> (r: Vec<
    FinanceAccount,
>)
    ensures
        r@ == accounts_limited(v@, limit_view(limit)),
{
    let mut r: Vec<FinanceAccount> = Vec::new();
    let mut i: usize = 0;
    while i < v.len()
        invariant
            i <= v.len(),
            r@ == accounts_limited(v@.take(i as int), limit_view(limit)),
        decreases v.len() - i,
    {
        proof {
            assert(v@.take(i + 1).drop_last() =~= v@.take(i as int));
        }
        let keep = match limit {
            Some(l) => id_list_contains(l, v[i].id),
            None => true,
        };
        if keep {
            r.push(v[i].clone());
        }
        i = i + 1;
    }
    proof {
        assert(v@.take(v@.len() as int) =~= v@);
    }
    r
}

/// Whether the id list holds the id.
fn id_list_contains(l: &Vec<u128>, id: u128) -> (r: bool)
    ensures
        r == l@.contains(id),
{
    let mut i: usize = 0;
    while i < l.len()
        invariant
            i <= l.len(),
            forall|j: int| 0 <= j < i ==> l@[j] != id,
        decreases l.len() - i,
    {
        if l[i] == id {
            assert(l@[i as int] == id);
            return true;
        }
        i = i + 1;
    }
    false
}

/// Finds the first account type with the id.
fn find_type_position(v: &Vec<FinanceAccountType>, id: u128) -> (r: Option<usize>)
    ensures
        match r {
            Some(k) => first_index(v@.len() as int, type_has_id(v@, id)) == Some(k as int),
            None => first_index(v@.len() as int, type_has_id(v@, id)) is None,
        },
{
    let ghost p = type_has_id(v@, id);
    let mut i: usize = 0;
    while i < v.len()
        invariant
            i <= v.len(),
            p == type_has_id(v@, id),
            forall|j: int| 0 <= j < i ==> !#[trigger] p(j),
        decreases v.len() - i,
    {
        if v[i].id == id {
            proof {
                lemma_first_index_is(v@.len() as int, p, i as int);
            }
            return Some(i);
        }
        i = i + 1;
    }
    proof {
        lemma_first_index(v@.len() as int, p);
    }
    None
}

/// Finds the first account with the id.
fn find_account_position(v: &Vec<FinanceAccount>, id: u128) -> (r: Option<usize>)
    ensures
        match r {
            Some(k) => first_index(v@.len() as int, account_has_id(v@, id)) == Some(k as int),
            None => first_index(v@.len() as int, account_has_id(v@, id)) is None,
        },
{
    let ghost p = account_has_id(v@, id);
    let mut i: usize = 0;
    while i < v.len()
        invariant
            i <= v.len(),
            p == account_has_id(v@, id),
            forall|j: int| 0 <= j < i ==> !#[trigger] p(j),
        decreases v.len() - i,
    {
        if v[i].id == id {
            proof {
                lemma_first_index_is(v@.len() as int, p, i as int);
            }
            return Some(i);
        }
        i = i + 1;
    }
    proof {
        lemma_first_index(v@.len() as int, p);
    }
    None
}

/// Replaces or appends an account type in a list.
fn upsert_type_in(v: &mut Vec<FinanceAccountType>, t: &FinanceAccountType)
    ensures
        final(v)@ == upsert_account_type(old(v)@, *t),
{
    let ghost before = v@;
    proof {
        lemma_first_index(v@.len() as int, type_has_id(v@, t.id));
    }
    let item = t.clone();
    assert(item == *t);
    match find_type_position(v, t.id) {
        Some(k) => {
            v.push(item);
            v.remove(k);
            assert(v@ =~= before.remove(k as int).push(*t));
        },
        None => {
            v.push(item);
            assert(v@ =~= before.push(*t));
        },
    }
}

/// Replaces or appends an account in a list.
fn upsert_account_in(v: &mut Vec<FinanceAccount>, a: &FinanceAccount)
    ensures
        final(v)@ == upsert_account(old(v)@, *a),
{
    let ghost before = v@;
    proof {
        lemma_first_index(v@.len() as int, account_has_id(v@, a.id));
    }
    let item = a.clone();
    assert(item == *a);
    match find_account_position(v, a.id) {
        Some(k) => {
            v.push(item);
            v.remove(k);
            assert(v@ =~= before.remove(k as int).push(*a));
        },
        None => {
            v.push(item);
            assert(v@ =~= before.push(*a));
        },
    }
}

/// Whether some account type of the list has the id.
pub fn type_list_has_id(v: &Vec<FinanceAccountType>, id: u128) -> (r: bool)
    ensures
        r == exists|k: int| 0 <= k < v@.len() && #[trigger] v@[k].id == id,
{
    let mut i: usize = 0;
    while i < v.len()
        invariant
            i <= v.len(),
            forall|j: int| 0 <= j < i ==> #[trigger] v@[j].id != id,
        decreases v.len() - i,
    {
        if v[i].id == id {
            return true;
        }
        i = i + 1;
    }
    false
}

impl InMemoryDatabaseData {
    /// Whether a user other than `user_id` holds an account type with the id.
    fn type_id_used_by_other_user(&self, user_id: u128, id: u128) -> (r: bool)
        ensures
            r == type_id_of_other_user(self@, user_id, id),
    {
        let ghost db = self@;
        let mut j: usize = 0;
        while j < self.data_per_user.len()
            invariant
                j <= self.data_per_user.len(),
                db == self@,
                db.len() == self.data_per_user@.len(),
                forall|jj: int, k: int|
                    0 <= jj < j && db[jj].user_id != user_id && 0 <= k < db[jj].account_types.len()
                        ==> #[trigger] db[jj].account_types[k].id != id,
            decreases self.data_per_user.len() - j,
        {
            let entry = &self.data_per_user[j];
            proof {
                assert(db[j as int] == entry@);
            }
            if entry.user_id != user_id && type_list_has_id(&entry.account_types_per_user, id) {
                proof {
                    let k = choose|k: int| 0 <= k < entry.account_types_per_user@.len() && #[trigger] entry.account_types_per_user@[k].id == id;
                    assert(db[j as int].account_types[k].id == id);
                }
                return true;
            }
            j = j + 1;
        }
        false
    }

    /// Whether a user other than `user_id` holds an account with the id.
    fn account_id_used_by_other_user(&self, user_id: u128, id: u128) -> (r: bool)
        ensures
            r == account_id_of_other_user(self@, user_id, id),
    {
        let ghost db = self@;
        let mut j: usize = 0;
        while j < self.data_per_user.len()
            invariant
                j <= self.data_per_user.len(),
                db == self@,
                db.len() == self.data_per_user@.len(),
                forall|jj: int, k: int|
                    0 <= jj < j && db[jj].user_id != user_id && 0 <= k < db[jj].accounts.len()
                        ==> #[trigger] db[jj].accounts[k].id != id,
            decreases self.data_per_user.len() - j,
        {
            let entry = &self.data_per_user[j];
            proof {
                assert(db[j as int] == entry@);
            }
            if entry.user_id != user_id && account_list_contains(&entry.accounts_per_user, id) {
                proof {
                    let k = choose|k: int| 0 <= k < entry.accounts_per_user@.len() && #[trigger] entry.accounts_per_user@[k].id == id;
                    assert(db[j as int].accounts[k].id == id);
                }
                return true;
            }
            j = j + 1;
        }
        false
    }

    /// The account types of the user.
    pub fn finance_account_type_list(
        &self,
        _conncetion_settings: &DbConnectionSetting,
        user_id: &u128,
    ) -> (r: Result<Vec<FinanceAccountType>, String>)
        ensures
            type_list_outcome(self@, *user_id, r),
    {
        match self.find_user(*user_id) {
            Some(i) => {
                let v = clone_types(&self.data_per_user[i].account_types_per_user);
                proof {
                    assert(v@ =~= self@[i as int].account_types);
                }
                Ok(v)
            },
            None => Err(String::from_str("User not found")),
        }
    }

    /// Inserts the account type for the user, or replaces the user's type
    /// with the same id. A type id held by another user is refused.
    pub fn finance_account_type_upsert(
        &mut self,
        _conncetion_settings: &DbConnectionSetting,
        user_id: &u128,
        finance_account_type: &FinanceAccountType,
    ) -> (r: Result<(), String>)
        ensures
            type_upsert_outcome(old(self)@, *user_id, *finance_account_type, r, final(self)@),
    {
        match self.find_user(*user_id) {
            None => Err(String::from_str("User not found")),
            Some(i) => {
                if self.type_id_used_by_other_user(*user_id, finance_account_type.id) {
                    return Err(String::from_str("account type id not available for current user"));
                }
                let ghost before = self@;
                upsert_type_in(&mut self.data_per_user[i].account_types_per_user, finance_account_type);
                proof {
                    assert(self@ =~= before.update(
                        i as int,
                        UserLedgerView {
                            account_types: upsert_account_type(
                                before[i as int].account_types,
                                *finance_account_type,
                            ),
                            ..before[i as int]
                        },
                    ));
                }
                Ok(())
            },
        }
    }
    /// The user's accounts, limited to the listed ids when a list is given.
    pub fn finance_account_list(
        &self,
        _conncetion_settings: &DbConnectionSetting,
        user_id: &u128,
        limit_account_ids: Option<&Vec<u128>>,
    ) -> (r: Result<Vec<FinanceAccount>, String>)
        ensures
            account_list_outcome(self@, *user_id, limit_view(limit_account_ids), r),
    {
        match self.find_user(*user_id) {
            Some(i) => Ok(filter_accounts_by_limit(&self.data_per_user[i].accounts_per_user, limit_account_ids)),
            None => Err(String::from_str("User not found")),
        }
    }

    /// Inserts the account for the user, or replaces the user's account with
    /// the same id. An account id held by another user is refused.
    pub fn finance_account_upsert(
        &mut self,
        _conncetion_settings: &DbConnectionSetting,
        user_id: &u128,
        finance_account: &FinanceAccount,
    ) -> (r: Result<(), String>)
        ensures
            account_upsert_outcome(old(self)@, *user_id, *finance_account, r, final(self)@),
    {
        match self.find_user(*user_id) {
            None => Err(String::from_str("User not found")),
            Some(i) => {
                if self.account_id_used_by_other_user(*user_id, finance_account.id) {
                    return Err(String::from_str("account id not accessible for current user"));
                }
                let ghost before = self@;
                upsert_account_in(&mut self.data_per_user[i].accounts_per_user, finance_account);
                proof {
                    assert(self@ =~= before.update(
                        i as int,
                        UserLedgerView {
                            accounts: upsert_account(before[i as int].accounts, *finance_account),
                            ..before[i as int]
                        },
                    ));
                }
                Ok(())
            },
        }
    }

    /// The user's journal entries whose booking time lies in the window.
    pub fn finance_journal_entry_list(
        &self,
        _conncetion_settings: &DbConnectionSetting,
        user_id: &u128,
        booking_time_from: Option<i64>,
        booking_time_till: Option<i64>,
    ) -> (r: Result<Vec<FinanceJournalEntry>, String>)
        ensures
            journal_list_outcome(self@, *user_id, booking_time_from, booking_time_till, r),
    {
        match self.find_user(*user_id) {
            Some(i) => Ok(
                filter_journal_by_window(
                    &self.data_per_user[i].journal_entries_per_user,
                    booking_time_from,
                    booking_time_till,
                ),
            ),
            None => Err(String::from_str("User not found")),
        }
    }

    /// The user's booking lines for the search options, option by option.
    /// Every option must name one of the user's accounts.
    pub fn finance_account_booking_entry_list(
        &self,
        _conncetion_settings: &DbConnectionSetting,
        user_id: &u128,
        search_options: Vec<FinanceAccountBookingEntryListSearchOption>,
    ) -> (r: Result<Vec<FinanceAccountBookingEntry>, String>)
        ensures
            booking_list_outcome(self@, *user_id, search_options@, r),
    {
        match self.find_user(*user_id) {
            Some(i) => {
                let entry = &self.data_per_user[i];
                match check_accounts_available(&search_options, &entry.accounts_per_user) {
                    Err(m) => Err(m),
                    Ok(()) => Ok(filter_entries_by_options(&entry.booking_entries_per_user, &search_options)),
                }
            },
            None => Err(String::from_str("User not found")),
        }
    }

    /// Books the request for the user: the journal entry gets the next
    /// running number (one above the user's greatest), fresh ids are drawn,
    /// and the journal entry and the credit and debit lines are stored.
    /// Both accounts must be accounts of the user.
    pub fn finance_insert_booking_entry(
        &mut self,
        _conncetion_settings: &DbConnectionSetting,
        user_id: &u128,
        action_to_insert: FinanceBookingRequest,
    ) -> (r: Result<FinanceBookingResult, String>)
        requires
            running_number_available(old(self)@, *user_id),
        ensures
            booking_insert_outcome(old(self)@, *user_id, action_to_insert, r, final(self)@),
    {
        if action_to_insert.credit_finance_account_id == action_to_insert.debit_finance_account_id {
            return Err(String::from_str("credit and debit account must not be the same account"));
        }
        match self.find_user(*user_id) {
            None => Err(String::from_str("User not found")),
            Some(i) => {
                match check_booking_accounts(&self.data_per_user[i].accounts_per_user, &action_to_insert) {
                    Err(m) => {
                        return Err(m);
                    },
                    Ok(()) => {},
                }
                let max_number = find_max_running_number(&self.data_per_user[i].journal_entries_per_user);
                let journal_id = new_uuid();
                let credit_id = new_uuid();
                let debit_id = new_uuid();
                let result = build_booking_result(&action_to_insert, max_number + 1, journal_id, credit_id, debit_id);
                let ghost before = self@;
                self.data_per_user[i].journal_entries_per_user.push(result.journal_entry.clone());
                self.data_per_user[i].booking_entries_per_user.push(result.credit_account_entry.clone());
                self.data_per_user[i].booking_entries_per_user.push(result.debit_account_entry.clone());
                proof {
                    assert(self@ =~= before.update(
                        i as int,
                        UserLedgerView {
                            journal_entries: before[i as int].journal_entries.push(result.journal_entry),
                            booking_entries: before[i as int].booking_entries.push(
                                result.credit_account_entry,
                            ).push(result.debit_account_entry),
                            ..before[i as int]
                        },
                    ));
                }
                Ok(result)
            },
        }
    }

    /// For the listed accounts (every account with a booking line when no
    /// list is given), the latest saldo line of each that has one.
    pub fn finance_get_last_saldo_account_entries(
        &self,
        _conncetion_settings: &DbConnectionSetting,
        user_id: &u128,
        list_account_ids: Option<Vec<u128>>,
    ) -> (r: Result<HashMap<u128, FinanceAccountBookingEntry>, String>)
        ensures
            saldo_entries_outcome(self@, *user_id, ids_view(list_account_ids), r),
    {
        match self.find_user(*user_id) {
            Some(i) => Ok(latest_saldo_entries(&self.data_per_user[i].booking_entries_per_user, list_account_ids)),
            None => Err(String::from_str("User not found")),
        }
    }
}

} // verus!
