//! The booking rules: which queries are well formed, when a booking may be
//! made, and how an account's balance is computed from its booking lines.
use vstd::prelude::*;
use std::collections::HashMap;

use crate::accounting_database::{
    entries_for_options, first_unavailable_option, ids_view, lemma_first_unavailable_option, journal_in_window, saldo_map,
    unavailable_account_message, window_is_ordered, same_account_message, FinanceAccountBookingEntryListSearchOption,
};
use crate::database_handler_mongodb::DbConnectionSetting;
use crate::datatypes::{
    is_credit_side, AccountBalanceInfo, AccountBalanceType, FinanceAccountBookingEntry,
    FinanceBookingRequest, FinanceBookingResult, FinanceJournalEntry,
};
use crate::in_memory_database::{
    booking_insert_outcome, booking_list_outcome, journal_list_outcome,
    running_number_available, saldo_entries_outcome, user_not_found_message, user_position,
    InMemoryDatabaseData, UserLedgerView,
};
use crate::text::{concat2, fails_with};

verus! {

broadcast use vstd::std_specs::hash::group_hash_axioms;

/// The error text for a window whose start lies after its end.
pub open spec fn window_order_message() -> Seq<char> {
    "could not query because booking_time_from is after booking_time_till"@
}

/// The error text for a booking query without search options.
pub open spec fn empty_search_message() -> Seq<char> {
    "could not query because search options is empty"@
}

/// Checks that a time window's start is not after its end.
pub fn check_time_window(from: Option<i64>, till: Option<i64>) -> (r: Result<(), String>)
    ensures
        window_is_ordered(from, till) ==> r is Ok,
        !window_is_ordered(from, till) ==> (r matches Err(m) && m@ == window_order_message()),
{
    match (from, till) {
        (Some(f), Some(u)) => {
            if f > u {
                return Err(String::from_str(
                    "could not query because booking_time_from is after booking_time_till",
                ));
            }
            Ok(())
        },
        _ => Ok(()),
    }
}

/// Whether every search option has a well-formed window.
pub open spec fn options_ordered(opts: Seq<FinanceAccountBookingEntryListSearchOption>) -> bool {
    forall|k: int|
        0 <= k < opts.len() ==> window_is_ordered(
            #[trigger] opts[k].booking_time_from,
            opts[k].booking_time_till,
        )
}

/// What a booking line query rejects before it reaches the store: no
/// options at all, or an option whose window is reversed.
pub open spec fn search_options_error(opts: Seq<FinanceAccountBookingEntryListSearchOption>) -> Option<
    Seq<char>,
> {
    if opts.len() == 0 {
        Some(empty_search_message())
    } else if !options_ordered(opts) {
        Some(window_order_message())
    } else {
        None
    }
}

/// Checks the search options of a booking line query.
pub fn check_search_options(search_options: &Vec<FinanceAccountBookingEntryListSearchOption>) -> (r:
    Result<(), String>)
    ensures
        match search_options_error(search_options@) {
            None => r is Ok,
            Some(m) => r matches Err(e) && e@ == m,
        },
{
    if search_options.len() == 0 {
        return Err(String::from_str("could not query because search options is empty"));
    }
    let mut k: usize = 0;
    while k < search_options.len()
        invariant
            k <= search_options.len(),
            forall|j: int|
                0 <= j < k ==> window_is_ordered(
                    #[trigger] search_options@[j].booking_time_from,
                    search_options@[j].booking_time_till,
                ),
        decreases search_options.len() - k,
    {
        let o = search_options[k];
        match check_time_window(o.booking_time_from, o.booking_time_till) {
            Err(m) => {
                return Err(m);
            },
            Ok(()) => {},
        }
        k = k + 1;
    }
    Ok(())
}

/// Whether some journal entry at the request's booking time already uses the
/// request's credit account as its credit account.
pub open spec fn credit_slot_taken(js: Seq<FinanceJournalEntry>, req: FinanceBookingRequest) -> bool {
    exists|k: int|
        0 <= k < js.len() && #[trigger] js[k].credit_finance_account_id
            == req.credit_finance_account_id && js[k].booking_time == req.booking_time
}

/// Whether some journal entry at the request's booking time already uses the
/// request's debit account as its debit account.
pub open spec fn debit_slot_taken(js: Seq<FinanceJournalEntry>, req: FinanceBookingRequest) -> bool {
    exists|k: int|
        0 <= k < js.len() && #[trigger] js[k].debit_finance_account_id
            == req.debit_finance_account_id && js[k].booking_time == req.booking_time
}

/// The error text when the credit account already has a booking at the time.
pub open spec fn credit_taken_message() -> Seq<char> {
    "Could not perform request: there is already an entry for credit account at specified booking time"@
}

/// The error text when the debit account already has a booking at the time.
pub open spec fn debit_taken_message() -> Seq<char> {
    "Could not perform request: there is already an entry for debit account at specified booking time"@
}

/// What the existing journal entries forbid: a second booking of the same
/// credit account, or of the same debit account, at the same time.
pub open spec fn journal_conflict(js: Seq<FinanceJournalEntry>, req: FinanceBookingRequest) -> Option<
    Seq<char>,
> {
    if credit_slot_taken(js, req) {
        Some(credit_taken_message())
    } else if debit_slot_taken(js, req) {
        Some(debit_taken_message())
    } else {
        None
    }
}

/// Checks a request against the journal entries at its booking time.
pub fn check_booking_against_journal(
    action_to_insert: &FinanceBookingRequest,
    journal_entries: &Vec<FinanceJournalEntry>,
) -> (r: Result<(), String>)
    ensures
        match journal_conflict(journal_entries@, *action_to_insert) {
            None => r is Ok,
            Some(m) => r matches Err(e) && e@ == m,
        },
{
    let mut k: usize = 0;
    while k < journal_entries.len()
        invariant
            k <= journal_entries.len(),
            forall|j: int|
                0 <= j < k ==> !(#[trigger] journal_entries@[j].credit_finance_account_id
                    == action_to_insert.credit_finance_account_id
                    && journal_entries@[j].booking_time == action_to_insert.booking_time),
        decreases journal_entries.len() - k,
    {
        let e = &journal_entries[k];
        if e.credit_finance_account_id == action_to_insert.credit_finance_account_id
            && e.booking_time == action_to_insert.booking_time {
            return Err(String::from_str(
                "Could not perform request: there is already an entry for credit account at specified booking time",
            ));
        }
        k = k + 1;
    }
    let mut k: usize = 0;
    while k < journal_entries.len()
        invariant
            k <= journal_entries.len(),
            !credit_slot_taken(journal_entries@, *action_to_insert),
            forall|j: int|
                0 <= j < k ==> !(#[trigger] journal_entries@[j].debit_finance_account_id
                    == action_to_insert.debit_finance_account_id
                    && journal_entries@[j].booking_time == action_to_insert.booking_time),
        decreases journal_entries.len() - k,
    {
        let e = &journal_entries[k];
        if e.debit_finance_account_id == action_to_insert.debit_finance_account_id
            && e.booking_time == action_to_insert.booking_time {
            return Err(String::from_str(
                "Could not perform request: there is already an entry for debit account at specified booking time",
            ));
        }
        k = k + 1;
    }
    Ok(())
}

/// The error text for a booking of the credit account at or before its saldo.
pub open spec fn credit_saldo_message() -> Seq<char> {
    "Can not insert before saldo of credit account"@
}

/// The error text for a booking of the debit account at or before its saldo.
pub open spec fn debit_saldo_message() -> Seq<char> {
    "Can not insert before saldo of debit account"@
}

/// What the saldo lines forbid: booking an account at or before the time of
/// its latest saldo line, the credit account checked first.
pub open spec fn saldo_conflict(
    saldo: Map<u128, FinanceAccountBookingEntry>,
    req: FinanceBookingRequest,
) -> Option<Seq<char>> {
    if saldo.contains_key(req.credit_finance_account_id) && req.booking_time
        <= saldo[req.credit_finance_account_id].booking_time {
        Some(credit_saldo_message())
    } else if saldo.contains_key(req.debit_finance_account_id) && req.booking_time
        <= saldo[req.debit_finance_account_id].booking_time {
        Some(debit_saldo_message())
    } else {
        None
    }
}

/// Checks a request against the latest saldo lines of its two accounts.
pub fn check_booking_against_saldo(
    action_to_insert: &FinanceBookingRequest,
    saldo_information: &HashMap<u128, FinanceAccountBookingEntry>,
) -> (r: Result<(), String>)
    ensures
        match saldo_conflict(saldo_information@, *action_to_insert) {
            None => r is Ok,
            Some(m) => r matches Err(e) && e@ == m,
        },
{
    match saldo_information.get(&action_to_insert.credit_finance_account_id) {
        Some(entry) => {
            if action_to_insert.booking_time <= entry.booking_time {
                return Err(String::from_str("Can not insert before saldo of credit account"));
            }
        },
        None => {},
    }
    match saldo_information.get(&action_to_insert.debit_finance_account_id) {
        Some(entry) => {
            if action_to_insert.booking_time <= entry.booking_time {
                return Err(String::from_str("Can not insert before saldo of debit account"));
            }
        },
        None => {},
    }
    Ok(())
}

/// The amounts booked on the credit side of the account.
pub open spec fn credit_total(s: Seq<FinanceAccountBookingEntry>, acc: u128) -> nat
    decreases s.len(),
{
    if s.len() == 0 {
        0
    } else {
        credit_total(s.drop_last(), acc) + if s.last().finance_account_id == acc && is_credit_side(
            s.last().booking_type,
        ) {
            s.last().amount as nat
        } else {
            0
        }
    }
}

/// The amounts booked on the debit side of the account.
pub open spec fn debit_total(s: Seq<FinanceAccountBookingEntry>, acc: u128) -> nat
    decreases s.len(),
{
    if s.len() == 0 {
        0
    } else {
        debit_total(s.drop_last(), acc) + if s.last().finance_account_id == acc && !is_credit_side(
            s.last().booking_type,
        ) {
            s.last().amount as nat
        } else {
            0
        }
    }
}

/// The balance of an account over the booking lines: credit when the credit
/// total exceeds the debit total, debit otherwise, for the absolute
/// difference.
pub open spec fn balance_of(s: Seq<FinanceAccountBookingEntry>, acc: u128) -> AccountBalanceInfo {
    let c = credit_total(s, acc);
    let d = debit_total(s, acc);
    AccountBalanceInfo {
        account_id: acc,
        balance_type: if c > d { AccountBalanceType::Credit } else { AccountBalanceType::Debit },
        amount: (if c > d { c - d } else { d - c }) as u64,
    }
}

/// The balances of the accounts, in the order given.
pub open spec fn balances_of(s: Seq<FinanceAccountBookingEntry>, accounts: Seq<u128>) -> Seq<
    AccountBalanceInfo,
> {
    accounts.map_values(|a: u128| balance_of(s, a))
}

/// Whether each account's credit and debit totals fit the amount type.
pub open spec fn totals_fit(s: Seq<FinanceAccountBookingEntry>, accounts: Seq<u128>) -> bool {
    forall|k: int|
        0 <= k < accounts.len() ==> credit_total(s, #[trigger] accounts[k]) <= u64::MAX
            && debit_total(s, accounts[k]) <= u64::MAX
}

/// Totals over a prefix never exceed the totals over the whole sequence.
pub proof fn lemma_totals_prefix(s: Seq<FinanceAccountBookingEntry>, acc: u128, j: int)
    requires
        0 <= j <= s.len(),
    ensures
        credit_total(s.take(j), acc) <= credit_total(s, acc),
        debit_total(s.take(j), acc) <= debit_total(s, acc),
    decreases s.len(),
{
    if j < s.len() {
        assert(s.drop_last().take(j) =~= s.take(j));
        lemma_totals_prefix(s.drop_last(), acc, j);
    } else {
        assert(s.take(j) =~= s);
    }
}

/// The credit and debit totals of an account, or `None` when either exceeds
/// the amount type.
pub fn account_totals(entries: &Vec<FinanceAccountBookingEntry>, acc: u128) -> (r: Option<(u64, u64)>)
    ensures
        r is Some <==> (credit_total(entries@, acc) <= u64::MAX && debit_total(entries@, acc) <= u64::MAX),
        r matches Some(t) ==> t.0 == credit_total(entries@, acc) && t.1 == debit_total(entries@, acc),
{
    let mut credit: u64 = 0;
    let mut debit: u64 = 0;
    let mut i: usize = 0;
    while i < entries.len()
        invariant
            i <= entries.len(),
            credit == credit_total(entries@.take(i as int), acc),
            debit == debit_total(entries@.take(i as int), acc),
        decreases entries.len() - i,
    {
        proof {
            assert(entries@.take(i + 1).drop_last() =~= entries@.take(i as int));
            lemma_totals_prefix(entries@, acc, i + 1);
        }
        let e = &entries[i];
        if e.finance_account_id == acc {
            if e.booking_type.is_credit() {
                match credit.checked_add(e.amount) {
                    Some(c) => {
                        credit = c;
                    },
                    None => {
                        return None;
                    },
                }
            } else {
                match debit.checked_add(e.amount) {
                    Some(d) => {
                        debit = d;
                    },
                    None => {
                        return None;
                    },
                }
            }
        }
        i = i + 1;
    }
    proof {
        assert(entries@.take(entries@.len() as int) =~= entries@);
    }
    Some((credit, debit))
}

/// The balance of each account over the booking lines, in the order given;
/// `None` when a credit or debit total exceeds the amount type.
pub fn calculate_balances_from_entries(
    accounts_to_calculate: &Vec<u128>,
    booking_entries: &Vec<FinanceAccountBookingEntry>,
) -> (r: Option<Vec<AccountBalanceInfo>>)
    ensures
        r is Some <==> totals_fit(booking_entries@, accounts_to_calculate@),
        r matches Some(v) ==> v@ == balances_of(booking_entries@, accounts_to_calculate@),
{
    let mut result: Vec<AccountBalanceInfo> = Vec::new();
    let mut k: usize = 0;
    while k < accounts_to_calculate.len()
        invariant
            k <= accounts_to_calculate.len(),
            totals_fit(booking_entries@, accounts_to_calculate@.take(k as int)),
            result@ == balances_of(booking_entries@, accounts_to_calculate@.take(k as int)),
        decreases accounts_to_calculate.len() - k,
    {
        let acc = accounts_to_calculate[k];
        match account_totals(booking_entries, acc) {
            None => {
                proof {
                    assert(!(credit_total(booking_entries@, accounts_to_calculate@[k as int]) <= u64::MAX
                        && debit_total(booking_entries@, accounts_to_calculate@[k as int]) <= u64::MAX));
                }
                return None;
            },
            Some((credit, debit)) => {
                let info = if credit > debit {
                    AccountBalanceInfo {
                        account_id: acc,
                        balance_type: AccountBalanceType::Credit,
                        amount: credit - debit,
                    }
                } else {
                    AccountBalanceInfo {
                        account_id: acc,
                        balance_type: AccountBalanceType::Debit,
                        amount: debit - credit,
                    }
                };
                result.push(info);
                proof {
                    let next = accounts_to_calculate@.take(k + 1);
                    assert(next =~= accounts_to_calculate@.take(k as int).push(acc));
                    assert(result@ =~= balances_of(booking_entries@, next));
                    assert forall|j: int| 0 <= j < next.len() implies credit_total(booking_entries@, #[trigger] next[j]) <= u64::MAX
                        && debit_total(booking_entries@, next[j]) <= u64::MAX by {
                        if j < k {
                            assert(next[j] == accounts_to_calculate@.take(k as int)[j]);
                        }
                    }
                }
            },
        }
        k = k + 1;
    }
    proof {
        assert(accounts_to_calculate@.take(accounts_to_calculate@.len() as int) =~= accounts_to_calculate@);
    }
    Some(result)
}

/// The search option for one account in a balance query: its booking lines
/// since its latest saldo line (all of them without one).
pub open spec fn balance_option(
    saldo: Map<u128, FinanceAccountBookingEntry>,
    acc: u128,
) -> FinanceAccountBookingEntryListSearchOption {
    FinanceAccountBookingEntryListSearchOption {
        finance_account_id: acc,
        booking_time_from: if saldo.contains_key(acc) {
            Some(saldo[acc].booking_time)
        } else {
            None
        },
        booking_time_till: None,
    }
}

/// The search options of a balance query, one per account in order.
pub open spec fn balance_options(
    accounts: Seq<u128>,
    saldo: Map<u128, FinanceAccountBookingEntry>,
) -> Seq<FinanceAccountBookingEntryListSearchOption> {
    accounts.map_values(|a: u128| balance_option(saldo, a))
}

/// Builds the search options of a balance query.
pub fn balance_search_options(
    accounts_to_calculate: &Vec<u128>,
    saldo_information: &HashMap<u128, FinanceAccountBookingEntry>,
) -> (r: Vec<FinanceAccountBookingEntryListSearchOption>)
    ensures
        r@ == balance_options(accounts_to_calculate@, saldo_information@),
{
    let mut r: Vec<FinanceAccountBookingEntryListSearchOption> = Vec::new();
    let mut k: usize = 0;
    while k < accounts_to_calculate.len()
        invariant
            k <= accounts_to_calculate.len(),
            r@ == balance_options(accounts_to_calculate@.take(k as int), saldo_information@),
        decreases accounts_to_calculate.len() - k,
    {
        let acc = accounts_to_calculate[k];
        let from = match saldo_information.get(&acc) {
            Some(e) => Some(e.booking_time),
            None => None,
        };
        r.push(FinanceAccountBookingEntryListSearchOption::new(&acc, from, None));
        proof {
            assert(accounts_to_calculate@.take(k + 1) =~= accounts_to_calculate@.take(k as int).push(acc));
            assert(r@ =~= balance_options(accounts_to_calculate@.take(k + 1), saldo_information@));
        }
        k = k + 1;
    }
    proof {
        assert(accounts_to_calculate@.take(accounts_to_calculate@.len() as int) =~= accounts_to_calculate@);
    }
    r
}

/// The booking lines a balance query reads for the user: for each account,
/// its lines since its latest saldo line.
pub open spec fn balance_lines(v: UserLedgerView, accounts: Seq<u128>) -> Seq<FinanceAccountBookingEntry> {
    entries_for_options(v.booking_entries, balance_options(accounts, saldo_map(v.booking_entries, accounts)))
}

/// Whether the credit and debit totals a balance query adds up fit the
/// amount type (the query would overflow otherwise).
pub open spec fn balance_totals_fit(db: Seq<UserLedgerView>, u: u128, accounts: Seq<u128>) -> bool {
    match user_position(db, u) {
        None => true,
        Some(i) => accounts.len() > 0 && first_unavailable_option(
            balance_options(accounts, saldo_map(db[i].booking_entries, accounts)),
            db[i].accounts,
        ) is None ==> totals_fit(balance_lines(db[i], accounts), accounts),
    }
}

/// The error prefix of a failed saldo lookup in a balance query.
pub open spec fn saldo_error_prefix() -> Seq<char> {
    "Error getting saldo information: "@
}

/// The error prefix of a failed booking line lookup in a balance query.
pub open spec fn lines_error_prefix() -> Seq<char> {
    "Error getting multi booking entries: "@
}

/// The error prefix of a failed lookup before a booking.
pub open spec fn booking_check_prefix() -> Seq<char> {
    "Error checking already existing entries: "@
}

/// The outcome of a balance query for accounts `accounts` of user `u`: the
/// saldo lookup fails for an unknown user; the line lookup fails for an
/// empty account list and for an account the user does not have; otherwise
/// the balance of each account over its lines since its latest saldo.
pub open spec fn balance_outcome(
    db: Seq<UserLedgerView>,
    u: u128,
    accounts: Seq<u128>,
    r: Result<Vec<AccountBalanceInfo>, String>,
) -> bool {
    match user_position(db, u) {
        None => fails_with(r, saldo_error_prefix() + user_not_found_message()),
        Some(i) => {
            let opts = balance_options(accounts, saldo_map(db[i].booking_entries, accounts));
            if accounts.len() == 0 {
                fails_with(r, lines_error_prefix() + empty_search_message())
            } else {
                match first_unavailable_option(opts, db[i].accounts) {
                    Some(k) => fails_with(
                        r,
                        lines_error_prefix() + unavailable_account_message(accounts[k]),
                    ),
                    None => r matches Ok(v) && v@ == balances_of(balance_lines(db[i], accounts), accounts),
                }
            }
        },
    }
}

/// The outcome of a booking through the handle: a booking with the same
/// account on both sides is refused first; an unknown user fails the
/// journal lookup; a second booking of the credit or the debit account at
/// the same time is refused, then a booking at or before the latest saldo of
/// either account; all of these leave the store as it was. Otherwise the
/// store books the request (see `booking_insert_outcome`).
pub open spec fn handle_insert_outcome(
    db0: Seq<UserLedgerView>,
    u: u128,
    req: FinanceBookingRequest,
    r: Result<FinanceBookingResult, String>,
    db1: Seq<UserLedgerView>,
) -> bool {
    if req.credit_finance_account_id == req.debit_finance_account_id {
        fails_with(r, same_account_message()) && db1 == db0
    } else {
        match user_position(db0, u) {
            None => fails_with(r, booking_check_prefix() + user_not_found_message()) && db1 == db0,
            Some(i) => {
                let t = Some(req.booking_time);
                match journal_conflict(journal_in_window(db0[i].journal_entries, t, t), req) {
                    Some(m) => fails_with(r, m) && db1 == db0,
                    None => {
                        let ids = seq![req.credit_finance_account_id, req.debit_finance_account_id];
                        match saldo_conflict(saldo_map(db0[i].booking_entries, ids), req) {
                            Some(m) => fails_with(r, m) && db1 == db0,
                            None => booking_insert_outcome(db0, u, req, r, db1),
                        }
                    },
                }
            },
        }
    }
}

/// The booking operations of one user on the store.
pub struct FinanceBookingHandle<'a> {
    db_connection_settings: &'a DbConnectionSetting,
    user_id: &'a u128,
}

impl<'a> FinanceBookingHandle<'a> {
    /// The user the handle acts for.
    pub closed spec fn user(&self) -> u128 {
        *self.user_id
    }

    /// A handle acting for `user_id`.
    pub fn new(connection_settings: &'a DbConnectionSetting, user_id: &'a u128) -> (r: Self)
        ensures
            r.user() == *user_id,
    {
        FinanceBookingHandle { db_connection_settings: connection_settings, user_id }
    }

    /// The user's journal entries in the window; a window whose start lies
    /// after its end is refused.
    pub fn list_journal_entries(
        &self,
        db: &InMemoryDatabaseData,
        booking_time_from: Option<i64>,
        booking_time_till: Option<i64>,
    ) -> (r: Result<Vec<FinanceJournalEntry>, String>)
        ensures
            !window_is_ordered(booking_time_from, booking_time_till) ==> fails_with(r, window_order_message()),
            window_is_ordered(booking_time_from, booking_time_till) ==> journal_list_outcome(
                db@,
                self.user(),
                booking_time_from,
                booking_time_till,
                r,
            ),
    {
        match check_time_window(booking_time_from, booking_time_till) {
            Err(m) => Err(m),
            Ok(()) => db.finance_journal_entry_list(
                self.db_connection_settings,
                self.user_id,
                booking_time_from,
                booking_time_till,
            ),
        }
    }

    /// The booking lines of one account in the window.
    pub fn list_account_booking_entries(
        &self,
        db: &InMemoryDatabaseData,
        finance_account_id: &u128,
        booking_time_from: Option<i64>,
        booking_time_till: Option<i64>,
    ) -> (r: Result<Vec<FinanceAccountBookingEntry>, String>)
        ensures
            ({
                let opts = seq![
                    FinanceAccountBookingEntryListSearchOption {
                        finance_account_id: *finance_account_id,
                        booking_time_from,
                        booking_time_till,
                    },
                ];
                match search_options_error(opts) {
                    Some(m) => fails_with(r, m),
                    None => booking_list_outcome(db@, self.user(), opts, r),
                }
            }),
    {
        let search_option = FinanceAccountBookingEntryListSearchOption::new(
            finance_account_id,
            booking_time_from,
            booking_time_till,
        );
        let options = vec![search_option];
        proof {
            assert(options@ =~= seq![search_option]);
        }
        self.list_account_booking_entries_multi(db, options)
    }

    /// The booking lines for several search options, option by option. An
    /// empty option list and a reversed window are refused.
    pub fn list_account_booking_entries_multi(
        &self,
        db: &InMemoryDatabaseData,
        search_options: Vec<FinanceAccountBookingEntryListSearchOption>,
    ) -> (r: Result<Vec<FinanceAccountBookingEntry>, String>)
        ensures
            match search_options_error(search_options@) {
                Some(m) => fails_with(r, m),
                None => booking_list_outcome(db@, self.user(), search_options@, r),
            },
    {
        match check_search_options(&search_options) {
            Err(m) => Err(m),
            Ok(()) => db.finance_account_booking_entry_list(
                self.db_connection_settings,
                self.user_id,
                search_options,
            ),
        }
    }

    /// The latest saldo line of each listed account (every account with a
    /// booking line when no list is given).
    pub fn finance_get_last_saldo_account_entries(
        &self,
        db: &InMemoryDatabaseData,
        list_account_ids: Option<Vec<u128>>,
    ) -> (r: Result<HashMap<u128, FinanceAccountBookingEntry>, String>)
        ensures
            saldo_entries_outcome(db@, self.user(), ids_view(list_account_ids), r),
    {
        db.finance_get_last_saldo_account_entries(
            self.db_connection_settings,
            self.user_id,
            list_account_ids,
        )
    }

    /// Books the request after checking that its two accounts differ, that
    /// neither account already has a booking at that time and that the time lies after the latest saldo of
    /// both accounts.
    pub fn finance_insert_booking_entry(
        &self,
        db: &mut InMemoryDatabaseData,
        action_to_insert: &FinanceBookingRequest,
    ) -> (r: Result<FinanceBookingResult, String>)
        requires
            running_number_available(old(db)@, self.user()),
        ensures
            handle_insert_outcome(old(db)@, self.user(), *action_to_insert, r, final(db)@),
    {
        if action_to_insert.credit_finance_account_id == action_to_insert.debit_finance_account_id {
            return Err(String::from_str("credit and debit account must not be the same account"));
        }
        let t = Some(action_to_insert.booking_time);
        let journal = match self.list_journal_entries(db, t, t) {
            Err(m) => {
                return Err(concat2("Error checking already existing entries: ", m.as_str()));
            },
            Ok(v) => v,
        };
        match check_booking_against_journal(action_to_insert, &journal) {
            Err(m) => {
                return Err(m);
            },
            Ok(()) => {},
        }
        let ids = vec![
            action_to_insert.credit_finance_account_id,
            action_to_insert.debit_finance_account_id,
        ];
        proof {
            assert(ids@ =~= seq![
                action_to_insert.credit_finance_account_id,
                action_to_insert.debit_finance_account_id,
            ]);
        }
        let saldo_information = match self.finance_get_last_saldo_account_entries(db, Some(ids)) {
            Err(m) => {
                return Err(concat2("Error checking already existing entries: ", m.as_str()));
            },
            Ok(s) => s,
        };
        match check_booking_against_saldo(action_to_insert, &saldo_information) {
            Err(m) => {
                return Err(m);
            },
            Ok(()) => {},
        }
        db.finance_insert_booking_entry(self.db_connection_settings, self.user_id, action_to_insert.clone())
    }

    /// The balance of each account over its booking lines since its latest
    /// saldo line, in the order given.
    pub fn calculate_balance_info(
        &self,
        db: &InMemoryDatabaseData,
        accounts_to_calculate: &Vec<u128>,
    ) -> (r: Result<Vec<AccountBalanceInfo>, String>)
        requires
            balance_totals_fit(db@, self.user(), accounts_to_calculate@),
        ensures
            balance_outcome(db@, self.user(), accounts_to_calculate@, r),
    {
        let ids = accounts_to_calculate.clone();
        proof {
            assert(ids@ =~= accounts_to_calculate@);
        }
        let saldo_information = match self.finance_get_last_saldo_account_entries(db, Some(ids)) {
            Err(m) => {
                return Err(concat2("Error getting saldo information: ", m.as_str()));
            },
            Ok(s) => s,
        };
        let search_options = balance_search_options(accounts_to_calculate, &saldo_information);
        let ghost opts = search_options@;
        proof {
            let i = user_position(db@, self.user())->0;
            assert(saldo_information@ == saldo_map(db@[i].booking_entries, accounts_to_calculate@));
            assert(opts == balance_options(
                accounts_to_calculate@,
                saldo_map(db@[i].booking_entries, accounts_to_calculate@),
            ));
            assert(options_ordered(opts)) by {
                assert forall|k: int| 0 <= k < opts.len() implies window_is_ordered(
                    #[trigger] opts[k].booking_time_from,
                    opts[k].booking_time_till,
                ) by {
                    assert(opts[k] == balance_option(saldo_information@, accounts_to_calculate@[k]));
                }
            }
            assert forall|k: int| 0 <= k < opts.len() implies #[trigger] opts[k].finance_account_id
                == accounts_to_calculate@[k] by {
                assert(opts[k] == balance_option(saldo_information@, accounts_to_calculate@[k]));
            }
            assert(opts.len() == accounts_to_calculate@.len());
        }
        let booking_entries = match self.list_account_booking_entries_multi(db, search_options) {
            Err(m) => {
                proof {
                    let i = user_position(db@, self.user())->0;
                    if opts.len() > 0 {
                        assert(search_options_error(opts) is None);
                        lemma_first_unavailable_option(opts, db@[i].accounts);
                        let k = first_unavailable_option(opts, db@[i].accounts)->0;
                        assert(m@ == unavailable_account_message(opts[k].finance_account_id));
                        assert(opts[k] == balance_option(saldo_information@, accounts_to_calculate@[k]));
                    }
                }
                return Err(concat2("Error getting multi booking entries: ", m.as_str()));
            },
            Ok(v) => v,
        };
        match calculate_balances_from_entries(accounts_to_calculate, &booking_entries) {
            Some(v) => Ok(v),
            None => Err(String::from_str("Error calculating balances: amount out of range")),
        }
    }
}

} // verus!
