//! Properties of the ledger store that span several operations: each user
//! sees and changes only their own data, stored items are found again, the
//! journal's running numbers grow, every booking moves the same amount on
//! both sides, and a saldo closes the accounts' past.
use vstd::prelude::*;

use crate::accounting_config_logic::config_account_upsert_outcome;
use crate::accounting_database::{
    account_listed, credit_type_for, debit_type_for, in_time_window, journal_in_window,
    latest_saldo_entry, max_running_number, lemma_max_running_number_bounds, result_books_request,
    saldo_map,
};
use crate::accounting_logic::{
    credit_total, debit_total, handle_insert_outcome, journal_conflict, saldo_conflict,
};
use crate::datatypes::{is_credit_side, is_saldo_type, FinanceAccountType, FinanceAccount,
    FinanceBookingRequest, FinanceBookingResult, FinanceJournalEntry, FinanceAccountBookingEntry};
use crate::in_memory_database::{
    account_id_of_other_user, account_list_outcome, accounts_limited, running_number_available, account_upsert_outcome, booking_insert_outcome, is_user_entry,
    journal_list_outcome, type_id_of_other_user, type_list_outcome, type_upsert_outcome,
    upsert_account, upsert_account_type, user_position, UserLedgerView, booking_list_outcome,
    saldo_entries_outcome,
};
use crate::accounting_database::FinanceAccountBookingEntryListSearchOption;
use std::collections::HashMap;
use crate::lookup::{lemma_first_index, lemma_first_index_is, lemma_first_index_none};

verus! {

/// Whether two store states hold the same users at the same positions.
pub open spec fn same_users(db0: Seq<UserLedgerView>, db1: Seq<UserLedgerView>) -> bool {
    &&& db0.len() == db1.len()
    &&& forall|j: int| 0 <= j < db0.len() ==> #[trigger] db1[j].user_id == db0[j].user_id
}

/// Whether going from `db0` to `db1` left every other user's data alone.
pub open spec fn only_user_data_changed(
    db0: Seq<UserLedgerView>,
    db1: Seq<UserLedgerView>,
    u: u128,
) -> bool {
    &&& same_users(db0, db1)
    &&& forall|j: int| 0 <= j < db0.len() && db0[j].user_id != u ==> #[trigger] db1[j] == db0[j]
}

/// A user is found at the same place in two states with the same users.
pub proof fn lemma_user_position_same_users(
    db0: Seq<UserLedgerView>,
    db1: Seq<UserLedgerView>,
    u: u128,
)
    requires
        same_users(db0, db1),
    ensures
        user_position(db1, u) == user_position(db0, u),
{
    let p0 = is_user_entry(db0, u);
    let p1 = is_user_entry(db1, u);
    lemma_first_index(db0.len() as int, p0);
    match user_position(db0, u) {
        Some(k) => {
            assert forall|j: int| 0 <= j < k implies !#[trigger] p1(j) by {
                assert(!p0(j));
            }
            assert(p1(k));
            lemma_first_index_is(db1.len() as int, p1, k);
        },
        None => {
            assert forall|j: int| 0 <= j < db1.len() implies !#[trigger] p1(j) by {
                assert(!p0(j));
            }
            lemma_first_index_none(db1.len() as int, p1);
        },
    }
}

/// Replacing the entry of user `u` with one of the same user changes no
/// other user's data.
proof fn lemma_update_own_entry(db0: Seq<UserLedgerView>, u: u128, v: UserLedgerView)
    requires
        user_position(db0, u) is Some,
        v.user_id == u,
    ensures
        only_user_data_changed(db0, db0.update(user_position(db0, u)->0, v), u),
{
    lemma_first_index(db0.len() as int, is_user_entry(db0, u));
    let i = user_position(db0, u)->0;
    let db1 = db0.update(i, v);
    assert forall|j: int| 0 <= j < db0.len() implies #[trigger] db1[j].user_id == db0[j].user_id by {
        if j == i {
            assert(is_user_entry(db0, u)(i));
        }
    }
}

/// Storing an account type changes no other user's data.
pub proof fn law_type_upsert_touches_only_own_data(
    db0: Seq<UserLedgerView>,
    u: u128,
    t: FinanceAccountType,
    r: Result<(), String>,
    db1: Seq<UserLedgerView>,
)
    requires
        type_upsert_outcome(db0, u, t, r, db1),
    ensures
        only_user_data_changed(db0, db1, u),
{
    if let Some(i) = user_position(db0, u) {
        if !type_id_of_other_user(db0, u, t.id) {
            lemma_first_index(db0.len() as int, is_user_entry(db0, u));
            assert(is_user_entry(db0, u)(i));
            lemma_update_own_entry(
                db0,
                u,
                UserLedgerView { account_types: upsert_account_type(db0[i].account_types, t), ..db0[i] },
            );
        }
    }
}

/// Storing an account through the configuration handle changes no other
/// user's data.
pub proof fn law_account_upsert_touches_only_own_data(
    db0: Seq<UserLedgerView>,
    u: u128,
    a: FinanceAccount,
    r: Result<(), String>,
    db1: Seq<UserLedgerView>,
)
    requires
        config_account_upsert_outcome(db0, u, a, r, db1),
    ensures
        only_user_data_changed(db0, db1, u),
{
    if let Some(i) = user_position(db0, u) {
        if db1 != db0 {
            lemma_first_index(db0.len() as int, is_user_entry(db0, u));
            assert(is_user_entry(db0, u)(i));
            lemma_update_own_entry(
                db0,
                u,
                UserLedgerView { accounts: upsert_account(db0[i].accounts, a), ..db0[i] },
            );
        }
    }
}

/// A booking through the booking handle changes no other user's data.
pub proof fn law_booking_touches_only_own_data(
    db0: Seq<UserLedgerView>,
    u: u128,
    req: FinanceBookingRequest,
    r: Result<FinanceBookingResult, String>,
    db1: Seq<UserLedgerView>,
)
    requires
        handle_insert_outcome(db0, u, req, r, db1),
    ensures
        only_user_data_changed(db0, db1, u),
{
    if let Some(i) = user_position(db0, u) {
        if let Ok(res) = r {
            lemma_first_index(db0.len() as int, is_user_entry(db0, u));
            assert(is_user_entry(db0, u)(i));
            lemma_update_own_entry(
                db0,
                u,
                UserLedgerView {
                    journal_entries: db0[i].journal_entries.push(res.journal_entry),
                    booking_entries: db0[i].booking_entries.push(res.credit_account_entry).push(
                        res.debit_account_entry,
                    ),
                    ..db0[i]
                },
            );
        }
    }
}

/// An account type id that another user holds is refused, and the store
/// stays as it was.
pub proof fn law_foreign_type_id_refused(
    db0: Seq<UserLedgerView>,
    u: u128,
    t: FinanceAccountType,
    r: Result<(), String>,
    db1: Seq<UserLedgerView>,
)
    requires
        type_upsert_outcome(db0, u, t, r, db1),
        type_id_of_other_user(db0, u, t.id),
    ensures
        r is Err,
        db1 == db0,
{
}

/// An account id that another user holds is refused, and the store stays as
/// it was.
pub proof fn law_foreign_account_id_refused(
    db0: Seq<UserLedgerView>,
    u: u128,
    a: FinanceAccount,
    r: Result<(), String>,
    db1: Seq<UserLedgerView>,
)
    requires
        account_upsert_outcome(db0, u, a, r, db1),
        account_id_of_other_user(db0, u, a.id),
    ensures
        r is Err,
        db1 == db0,
{
}

/// Whether no two account types of the list share an id.
pub open spec fn type_ids_unique(s: Seq<FinanceAccountType>) -> bool {
    forall|j: int, k: int| 0 <= j < k < s.len() ==> #[trigger] s[j].id != #[trigger] s[k].id
}

/// Whether no two accounts of the list share an id.
pub open spec fn account_ids_unique(s: Seq<FinanceAccount>) -> bool {
    forall|j: int, k: int| 0 <= j < k < s.len() ==> #[trigger] s[j].id != #[trigger] s[k].id
}

/// Storing an account type puts it at the end of the list, keeps ids
/// unique, and leaves exactly one type with its id: storing the same id
/// again replaces the type.
pub proof fn law_type_upsert_replaces_by_id(s: Seq<FinanceAccountType>, t: FinanceAccountType)
    requires
        type_ids_unique(s),
    ensures
        upsert_account_type(s, t).last() == t,
        type_ids_unique(upsert_account_type(s, t)),
        forall|k: int|
            0 <= k < upsert_account_type(s, t).len() - 1 ==> #[trigger] upsert_account_type(s, t)[k].id
                != t.id,
{
    let p = crate::in_memory_database::type_has_id(s, t.id);
    lemma_first_index(s.len() as int, p);
    let n = upsert_account_type(s, t);
    match crate::lookup::first_index(s.len() as int, p) {
        Some(k) => {
            let rest = s.remove(k);
            assert forall|a: int| 0 <= a < rest.len() implies #[trigger] rest[a].id != t.id by {
                if a < k {
                    assert(!p(a));
                } else {
                    assert(rest[a] == s[a + 1]);
                    assert(s[a + 1].id != s[k].id);
                }
            }
            assert forall|a: int, b: int| 0 <= a < b < n.len() implies #[trigger] n[a].id != #[trigger] n[b].id by {
                if b < n.len() - 1 {
                    let sa = if a < k { a } else { a + 1 };
                    let sb = if b < k { b } else { b + 1 };
                    assert(n[a] == s[sa] && n[b] == s[sb]);
                } else {
                    assert(n[a] == rest[a]);
                }
            }
            assert forall|a: int| 0 <= a < n.len() - 1 implies #[trigger] n[a].id != t.id by {
                assert(n[a] == rest[a]);
            }
        },
        None => {
            assert forall|a: int| 0 <= a < s.len() implies #[trigger] s[a].id != t.id by {
                assert(!p(a));
            }
            assert forall|a: int, b: int| 0 <= a < b < n.len() implies #[trigger] n[a].id != #[trigger] n[b].id by {
                if b < n.len() - 1 {
                    assert(n[a] == s[a] && n[b] == s[b]);
                } else {
                    assert(n[a] == s[a]);
                }
            }
            assert forall|a: int| 0 <= a < n.len() - 1 implies #[trigger] n[a].id != t.id by {
                assert(n[a] == s[a]);
            }
        },
    }
}

/// Storing an account puts it at the end of the list, keeps ids unique, and
/// leaves exactly one account with its id: storing the same id again
/// replaces the account.
pub proof fn law_account_upsert_replaces_by_id(s: Seq<FinanceAccount>, a: FinanceAccount)
    requires
        account_ids_unique(s),
    ensures
        upsert_account(s, a).last() == a,
        account_ids_unique(upsert_account(s, a)),
        forall|k: int|
            0 <= k < upsert_account(s, a).len() - 1 ==> #[trigger] upsert_account(s, a)[k].id != a.id,
{
    let p = crate::in_memory_database::account_has_id(s, a.id);
    lemma_first_index(s.len() as int, p);
    let n = upsert_account(s, a);
    match crate::lookup::first_index(s.len() as int, p) {
        Some(k) => {
            let rest = s.remove(k);
            assert forall|x: int| 0 <= x < rest.len() implies #[trigger] rest[x].id != a.id by {
                if x < k {
                    assert(!p(x));
                } else {
                    assert(rest[x] == s[x + 1]);
                    assert(s[x + 1].id != s[k].id);
                }
            }
            assert forall|x: int, y: int| 0 <= x < y < n.len() implies #[trigger] n[x].id != #[trigger] n[y].id by {
                if y < n.len() - 1 {
                    let sx = if x < k { x } else { x + 1 };
                    let sy = if y < k { y } else { y + 1 };
                    assert(n[x] == s[sx] && n[y] == s[sy]);
                } else {
                    assert(n[x] == rest[x]);
                }
            }
            assert forall|x: int| 0 <= x < n.len() - 1 implies #[trigger] n[x].id != a.id by {
                assert(n[x] == rest[x]);
            }
        },
        None => {
            assert forall|x: int| 0 <= x < s.len() implies #[trigger] s[x].id != a.id by {
                assert(!p(x));
            }
            assert forall|x: int, y: int| 0 <= x < y < n.len() implies #[trigger] n[x].id != #[trigger] n[y].id by {
                if y < n.len() - 1 {
                    assert(n[x] == s[x] && n[y] == s[y]);
                } else {
                    assert(n[x] == s[x]);
                }
            }
            assert forall|x: int| 0 <= x < n.len() - 1 implies #[trigger] n[x].id != a.id by {
                assert(n[x] == s[x]);
            }
        },
    }
}

/// After an account type was stored, listing the user's types shows it
/// (as the last one).
pub proof fn law_stored_type_is_listed(
    db0: Seq<UserLedgerView>,
    u: u128,
    t: FinanceAccountType,
    r: Result<(), String>,
    db1: Seq<UserLedgerView>,
    listed: Result<Vec<FinanceAccountType>, String>,
)
    requires
        type_upsert_outcome(db0, u, t, r, db1),
        r is Ok,
        type_list_outcome(db1, u, listed),
    ensures
        listed matches Ok(v) && v@.len() > 0 && v@.last() == t,
{
    law_type_upsert_touches_only_own_data(db0, u, t, r, db1);
    lemma_user_position_same_users(db0, db1, u);
    lemma_first_index(db0.len() as int, is_user_entry(db0, u));
    let i = user_position(db0, u)->0;
    let types = upsert_account_type(db0[i].account_types, t);
    assert(db1[i].account_types == types);
    match crate::lookup::first_index(
        db0[i].account_types.len() as int,
        crate::in_memory_database::type_has_id(db0[i].account_types, t.id),
    ) {
        Some(k) => assert(types == db0[i].account_types.remove(k).push(t)),
        None => assert(types == db0[i].account_types.push(t)),
    }
}

/// After an account was stored through the configuration handle, listing
/// all of the user's accounts shows it (as the last one).
pub proof fn law_stored_account_is_listed(
    db0: Seq<UserLedgerView>,
    u: u128,
    a: FinanceAccount,
    r: Result<(), String>,
    db1: Seq<UserLedgerView>,
    listed: Result<Vec<FinanceAccount>, String>,
)
    requires
        config_account_upsert_outcome(db0, u, a, r, db1),
        r is Ok,
        account_list_outcome(db1, u, None, listed),
    ensures
        listed matches Ok(v) && v@.len() > 0 && v@.last() == a,
{
    law_account_upsert_touches_only_own_data(db0, u, a, r, db1);
    lemma_user_position_same_users(db0, db1, u);
    lemma_first_index(db0.len() as int, is_user_entry(db0, u));
    let i = user_position(db0, u)->0;
    let accounts = upsert_account(db0[i].accounts, a);
    assert(db1[i].accounts == accounts);
    match crate::lookup::first_index(
        db0[i].accounts.len() as int,
        crate::in_memory_database::account_has_id(db0[i].accounts, a.id),
    ) {
        Some(k) => assert(accounts == db0[i].accounts.remove(k).push(a)),
        None => assert(accounts == db0[i].accounts.push(a)),
    }
    lemma_accounts_unlimited(accounts);
}

/// Without a limit list every account is listed.
pub proof fn lemma_accounts_unlimited(s: Seq<FinanceAccount>)
    ensures
        accounts_limited(s, None) == s,
    decreases s.len(),
{
    if s.len() > 0 {
        lemma_accounts_unlimited(s.drop_last());
        assert(s.drop_last().push(s.last()) =~= s);
    }
}

/// What a successful booking did to the user's data: the position of the
/// user, and the journal entry and both lines appended to it.
pub open spec fn booked(
    db0: Seq<UserLedgerView>,
    u: u128,
    req: FinanceBookingRequest,
    res: FinanceBookingResult,
    db1: Seq<UserLedgerView>,
) -> bool {
    user_position(db0, u) matches Some(i) && user_position(db1, u) == Some(i) && 0 <= i < db0.len()
        && result_books_request(res, req, (max_running_number(db0[i].journal_entries) + 1) as u64)
        && db1[i].journal_entries == db0[i].journal_entries.push(res.journal_entry)
        && db1[i].booking_entries == db0[i].booking_entries.push(res.credit_account_entry).push(
        res.debit_account_entry,
    ) && db1[i].accounts == db0[i].accounts && db1[i].account_types == db0[i].account_types
}

/// A successful booking through the handle appends the journal entry and
/// both lines to the user's data.
pub proof fn lemma_successful_booking(
    db0: Seq<UserLedgerView>,
    u: u128,
    req: FinanceBookingRequest,
    res: FinanceBookingResult,
    db1: Seq<UserLedgerView>,
)
    requires
        handle_insert_outcome(db0, u, req, Ok(res), db1),
    ensures
        booked(db0, u, req, res, db1),
{
    law_booking_touches_only_own_data(db0, u, req, Ok(res), db1);
    lemma_user_position_same_users(db0, db1, u);
    lemma_first_index(db0.len() as int, is_user_entry(db0, u));
}

/// After a booking, listing the user's journal over a window that holds the
/// booking time shows the new journal entry last.
pub proof fn law_booked_entry_is_listed(
    db0: Seq<UserLedgerView>,
    u: u128,
    req: FinanceBookingRequest,
    res: FinanceBookingResult,
    db1: Seq<UserLedgerView>,
    from: Option<i64>,
    till: Option<i64>,
    listed: Result<Vec<FinanceJournalEntry>, String>,
)
    requires
        handle_insert_outcome(db0, u, req, Ok(res), db1),
        in_time_window(req.booking_time, from, till),
        journal_list_outcome(db1, u, from, till, listed),
    ensures
        listed matches Ok(v) && v@.len() > 0 && v@.last() == res.journal_entry,
{
    lemma_successful_booking(db0, u, req, res, db1);
    let i = user_position(db0, u)->0;
    let js = db1[i].journal_entries;
    assert(js.drop_last() =~= db0[i].journal_entries);
}

/// Whether no two journal entries share a running number.
pub open spec fn running_numbers_distinct(js: Seq<FinanceJournalEntry>) -> bool {
    forall|j: int, k: int|
        0 <= j < k < js.len() ==> #[trigger] js[j].running_number != #[trigger] js[k].running_number
}

/// A booking's running number is greater than every running number the
/// user's journal held before, so distinct running numbers stay distinct.
pub proof fn law_running_number_grows(
    db0: Seq<UserLedgerView>,
    u: u128,
    req: FinanceBookingRequest,
    res: FinanceBookingResult,
    db1: Seq<UserLedgerView>,
)
    requires
        handle_insert_outcome(db0, u, req, Ok(res), db1),
        running_number_available(db0, u),
    ensures
        user_position(db0, u) matches Some(i) && (forall|k: int|
            0 <= k < db0[i].journal_entries.len()
                ==> #[trigger] db0[i].journal_entries[k].running_number
                < res.journal_entry.running_number) && (running_numbers_distinct(
            db0[i].journal_entries,
        ) ==> running_numbers_distinct(db1[i].journal_entries)),
{
    lemma_successful_booking(db0, u, req, res, db1);
    let i = user_position(db0, u)->0;
    let js0 = db0[i].journal_entries;
    let js1 = db1[i].journal_entries;
    lemma_max_running_number_bounds(js0);
    if running_numbers_distinct(js0) {
        assert forall|j: int, k: int| 0 <= j < k < js1.len() implies #[trigger] js1[j].running_number
            != #[trigger] js1[k].running_number by {
            assert(js1[j] == js0[j]);
            if k < js0.len() {
                assert(js1[k] == js0[k]);
            }
        }
    }
}

/// A booking adds its amount to the credit total of its credit account and
/// to the debit total of its debit account, and leaves every other total as
/// it was: both sides of the ledger grow by the same amount.
pub proof fn law_booking_moves_amount_on_both_sides(
    db0: Seq<UserLedgerView>,
    u: u128,
    req: FinanceBookingRequest,
    res: FinanceBookingResult,
    db1: Seq<UserLedgerView>,
    acc: u128,
)
    requires
        handle_insert_outcome(db0, u, req, Ok(res), db1),
    ensures
        user_position(db0, u) matches Some(i) && credit_total(db1[i].booking_entries, acc)
            == credit_total(db0[i].booking_entries, acc) + (if acc == req.credit_finance_account_id {
            req.amount as nat
        } else {
            0nat
        }) && debit_total(db1[i].booking_entries, acc) == debit_total(db0[i].booking_entries, acc)
            + (if acc == req.debit_finance_account_id {
            req.amount as nat
        } else {
            0nat
        }),
{
    lemma_successful_booking(db0, u, req, res, db1);
    let i = user_position(db0, u)->0;
    let s = db0[i].booking_entries;
    let s1 = s.push(res.credit_account_entry);
    let s2 = s1.push(res.debit_account_entry);
    let cl = res.credit_account_entry;
    let dl = res.debit_account_entry;
    assert(s2.drop_last() =~= s1);
    assert(s1.drop_last() =~= s);
    assert(s2.last() == dl && s1.last() == cl);
    assert(is_credit_side(cl.booking_type));
    assert(!is_credit_side(dl.booking_type));
    assert(credit_total(s2, acc) == credit_total(s1, acc));
    assert(debit_total(s1, acc) == debit_total(s, acc));
}

/// The latest saldo line after one more line is no earlier than the one
/// before, and no earlier than the new line when that is a saldo line of
/// the account.
pub proof fn lemma_latest_saldo_after_push(
    s: Seq<FinanceAccountBookingEntry>,
    b: FinanceAccountBookingEntry,
    acc: u128,
)
    ensures
        latest_saldo_entry(s, acc) matches Some(e) ==> (latest_saldo_entry(s.push(b), acc) matches Some(
            e2,
        ) && e.booking_time <= e2.booking_time),
        b.finance_account_id == acc && is_saldo_type(b.booking_type) ==> (latest_saldo_entry(
            s.push(b),
            acc,
        ) matches Some(e2) && b.booking_time <= e2.booking_time),
{
    assert(s.push(b).drop_last() =~= s);
}

/// After a saldo booking, both of its accounts have a latest saldo line
/// no earlier than the booking's time.
proof fn lemma_saldo_line_after_booking(
    db0: Seq<UserLedgerView>,
    u: u128,
    req: FinanceBookingRequest,
    res: FinanceBookingResult,
    db1: Seq<UserLedgerView>,
    acc: u128,
)
    requires
        booked(db0, u, req, res, db1),
        req.is_saldo,
        acc == req.credit_finance_account_id || acc == req.debit_finance_account_id,
    ensures
        user_position(db1, u) matches Some(i) && latest_saldo_entry(db1[i].booking_entries, acc) matches Some(
            e,
        ) && req.booking_time <= e.booking_time,
{
    let i = user_position(db0, u)->0;
    let s = db0[i].booking_entries;
    let cl = res.credit_account_entry;
    let dl = res.debit_account_entry;
    lemma_latest_saldo_after_push(s, cl, acc);
    lemma_latest_saldo_after_push(s.push(cl), dl, acc);
}

/// A request on an account whose latest saldo line is not before the
/// request's time is refused, and the store stays as it was.
proof fn lemma_refused_at_or_before_saldo(
    db1: Seq<UserLedgerView>,
    u: u128,
    later: FinanceBookingRequest,
    r2: Result<FinanceBookingResult, String>,
    db2: Seq<UserLedgerView>,
    acc: u128,
)
    requires
        handle_insert_outcome(db1, u, later, r2, db2),
        acc == later.credit_finance_account_id || acc == later.debit_finance_account_id,
        user_position(db1, u) matches Some(i) && latest_saldo_entry(db1[i].booking_entries, acc) matches Some(
            e,
        ) && later.booking_time <= e.booking_time,
    ensures
        r2 is Err,
        db2 == db1,
{
    let i = user_position(db1, u)->0;
    let ids = seq![later.credit_finance_account_id, later.debit_finance_account_id];
    assert(ids[0] == later.credit_finance_account_id);
    assert(ids[1] == later.debit_finance_account_id);
    assert(ids.contains(acc));
    assert(saldo_conflict(saldo_map(db1[i].booking_entries, ids), later) is Some);
}

/// Once a saldo booking is made, no account it touched can be booked again
/// at or before the saldo's time: such a request is refused and the store
/// stays as it was.
pub proof fn law_saldo_closes_the_past(
    db0: Seq<UserLedgerView>,
    u: u128,
    req: FinanceBookingRequest,
    res: FinanceBookingResult,
    db1: Seq<UserLedgerView>,
    later: FinanceBookingRequest,
    r2: Result<FinanceBookingResult, String>,
    db2: Seq<UserLedgerView>,
)
    requires
        handle_insert_outcome(db0, u, req, Ok(res), db1),
        req.is_saldo,
        handle_insert_outcome(db1, u, later, r2, db2),
        later.booking_time <= req.booking_time,
        later.credit_finance_account_id == req.credit_finance_account_id
            || later.credit_finance_account_id == req.debit_finance_account_id
            || later.debit_finance_account_id == req.credit_finance_account_id
            || later.debit_finance_account_id == req.debit_finance_account_id,
    ensures
        r2 is Err,
        db2 == db1,
{
    lemma_successful_booking(db0, u, req, res, db1);
    let acc = if later.credit_finance_account_id == req.credit_finance_account_id
        || later.credit_finance_account_id == req.debit_finance_account_id {
        later.credit_finance_account_id
    } else {
        later.debit_finance_account_id
    };
    lemma_saldo_line_after_booking(db0, u, req, res, db1, acc);
    lemma_refused_at_or_before_saldo(db1, u, later, r2, db2, acc);
}

/// Each user sees only their own data: after a change that touched only
/// user `u`'s data, every listing of another user `v` (account types,
/// accounts, journal, booking lines, saldo lines) answers exactly as before.
pub proof fn law_other_users_listings_unchanged(
    db0: Seq<UserLedgerView>,
    db1: Seq<UserLedgerView>,
    u: u128,
    v: u128,
)
    requires
        only_user_data_changed(db0, db1, u),
        v != u,
    ensures
        forall|r: Result<Vec<FinanceAccountType>, String>|
            #[trigger] type_list_outcome(db1, v, r) <==> type_list_outcome(db0, v, r),
        forall|limit: Option<Seq<u128>>, r: Result<Vec<FinanceAccount>, String>|
            #[trigger] account_list_outcome(db1, v, limit, r) <==> account_list_outcome(db0, v, limit, r),
        forall|from: Option<i64>, till: Option<i64>, r: Result<Vec<FinanceJournalEntry>, String>|
            #[trigger] journal_list_outcome(db1, v, from, till, r) <==> journal_list_outcome(
                db0,
                v,
                from,
                till,
                r,
            ),
        forall|
            opts: Seq<FinanceAccountBookingEntryListSearchOption>,
            r: Result<Vec<FinanceAccountBookingEntry>, String>,
        |
            #[trigger] booking_list_outcome(db1, v, opts, r) <==> booking_list_outcome(db0, v, opts, r),
        forall|list: Option<Seq<u128>>, r: Result<HashMap<u128, FinanceAccountBookingEntry>, String>|
            #[trigger] saldo_entries_outcome(db1, v, list, r) <==> saldo_entries_outcome(db0, v, list, r),
{
    lemma_user_position_same_users(db0, db1, v);
    lemma_first_index(db0.len() as int, is_user_entry(db0, v));
    if let Some(i) = user_position(db0, v) {
        assert(is_user_entry(db0, v)(i));
        assert(db1[i] == db0[i]);
    }
}

/// A booking cannot credit and debit the same account: such a request is
/// refused, and the store stays as it was.
pub proof fn law_same_account_booking_refused(
    db0: Seq<UserLedgerView>,
    u: u128,
    req: FinanceBookingRequest,
    r: Result<FinanceBookingResult, String>,
    db1: Seq<UserLedgerView>,
)
    requires
        handle_insert_outcome(db0, u, req, r, db1),
        req.credit_finance_account_id == req.debit_finance_account_id,
    ensures
        r is Err,
        db1 == db0,
{
}

/// Without bounds, the journal window holds the whole journal.
pub proof fn lemma_unbounded_window(s: Seq<FinanceJournalEntry>)
    ensures
        journal_in_window(s, None, None) == s,
    decreases s.len(),
{
    if s.len() > 0 {
        lemma_unbounded_window(s.drop_last());
        assert(s.drop_last().push(s.last()) =~= s);
    }
}

/// A booking adds exactly one entry to the user's whole journal: listed
/// again, the journal is the earlier listing with the new entry after it,
/// the entry records the request, and its running number is greater than
/// every running number listed before.
pub proof fn law_booking_adds_one_journal_entry(
    db0: Seq<UserLedgerView>,
    u: u128,
    req: FinanceBookingRequest,
    res: FinanceBookingResult,
    db1: Seq<UserLedgerView>,
    before: Result<Vec<FinanceJournalEntry>, String>,
    after: Result<Vec<FinanceJournalEntry>, String>,
)
    requires
        running_number_available(db0, u),
        journal_list_outcome(db0, u, None, None, before),
        handle_insert_outcome(db0, u, req, Ok(res), db1),
        journal_list_outcome(db1, u, None, None, after),
    ensures
        before matches Ok(v0) && after matches Ok(v1) && v1@ == v0@.push(res.journal_entry)
            && v1@.len() == v0@.len() + 1
            && result_books_request(res, req, res.journal_entry.running_number)
            && (forall|k: int| 0 <= k < v0@.len() ==> #[trigger] v0@[k].running_number < res.journal_entry.running_number),
{
    lemma_successful_booking(db0, u, req, res, db1);
    law_running_number_grows(db0, u, req, res, db1);
    let i = user_position(db0, u)->0;
    lemma_unbounded_window(db0[i].journal_entries);
    lemma_unbounded_window(db1[i].journal_entries);
}

} // verus!
