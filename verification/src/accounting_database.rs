//! The data queries of the accounting store: search options, the time
//! window filters, and the rules that turn stored booking lines into the
//! latest saldo entry per account. These rules are shared by every store
//! implementation.
use vstd::prelude::*;
use std::collections::HashMap;

use crate::datatypes::{
    is_saldo_type, BookingEntryType, FinanceAccount, FinanceAccountBookingEntry,
    FinanceBookingRequest, FinanceBookingResult, FinanceJournalEntry,
};
use crate::lookup::{first_index, lemma_first_index, lemma_first_index_is, lemma_first_index_none};
use crate::platform::{spec_uuid_text, uuid_to_text};
use crate::text::{concat3, fails_with};

verus! {

broadcast use vstd::std_specs::hash::group_hash_axioms;

/// Which booking lines of one account to list: those of the account whose
/// booking time lies in the optional closed window `[from, till]`.
#[derive(Debug, Clone, Copy, PartialEq, Eq, Structural)]
pub struct FinanceAccountBookingEntryListSearchOption {
    pub finance_account_id: u128,
    pub booking_time_from: Option<i64>,
    pub booking_time_till: Option<i64>,
}

impl FinanceAccountBookingEntryListSearchOption {
    /// Builds a search option from its three parts.
    pub fn new(
        finance_account_id: &u128,
        booking_time_from: Option<i64>,
        booking_time_till: Option<i64>,
    ) -> (r: Self)
        ensures
            r.finance_account_id == *finance_account_id,
            r.booking_time_from == booking_time_from,
            r.booking_time_till == booking_time_till,
    {
        FinanceAccountBookingEntryListSearchOption {
            finance_account_id: *finance_account_id,
            booking_time_from,
            booking_time_till,
        }
    }
}

/// Whether `t` lies in the window: not before `from` and not after `till`,
/// each bound applying only when given.
pub open spec fn in_time_window(t: i64, from: Option<i64>, till: Option<i64>) -> bool {
    &&& (from matches Some(f) ==> f <= t)
    &&& (till matches Some(u) ==> t <= u)
}

/// Whether a window is well formed: when both bounds are given, `from` is not
/// after `till`.
pub open spec fn window_is_ordered(from: Option<i64>, till: Option<i64>) -> bool {
    from matches Some(f) ==> (till matches Some(u) ==> f <= u)
}

/// The journal entries in the window, in stored order.
pub open spec fn journal_in_window(
    s: Seq<FinanceJournalEntry>,
    from: Option<i64>,
    till: Option<i64>,
) -> Seq<FinanceJournalEntry>
    decreases s.len(),
{
    if s.len() == 0 {
        Seq::empty()
    } else {
        let prev = journal_in_window(s.drop_last(), from, till);
        if in_time_window(s.last().booking_time, from, till) {
            prev.push(s.last())
        } else {
            prev
        }
    }
}

/// Whether a booking line matches a search option.
pub open spec fn matches_option(
    e: FinanceAccountBookingEntry,
    o: FinanceAccountBookingEntryListSearchOption,
) -> bool {
    e.finance_account_id == o.finance_account_id && in_time_window(
        e.booking_time,
        o.booking_time_from,
        o.booking_time_till,
    )
}

/// The booking lines matching one search option, in stored order.
pub open spec fn entries_for_option(
    s: Seq<FinanceAccountBookingEntry>,
    o: FinanceAccountBookingEntryListSearchOption,
) -> Seq<FinanceAccountBookingEntry>
    decreases s.len(),
{
    if s.len() == 0 {
        Seq::empty()
    } else {
        let prev = entries_for_option(s.drop_last(), o);
        if matches_option(s.last(), o) {
            prev.push(s.last())
        } else {
            prev
        }
    }
}

/// The booking lines for several search options: the lines of each option
/// in turn (a line matching two options appears twice).
pub open spec fn entries_for_options(
    s: Seq<FinanceAccountBookingEntry>,
    opts: Seq<FinanceAccountBookingEntryListSearchOption>,
) -> Seq<FinanceAccountBookingEntry>
    decreases opts.len(),
{
    if opts.len() == 0 {
        Seq::empty()
    } else {
        entries_for_options(s, opts.drop_last()) + entries_for_option(s, opts.last())
    }
}

/// The latest saldo line of an account: among the saldo lines of the
/// account, the one with the greatest booking time, the last stored one
/// where several share it.
pub open spec fn latest_saldo_entry(s: Seq<FinanceAccountBookingEntry>, acc: u128) -> Option<
    FinanceAccountBookingEntry,
>
    decreases s.len(),
{
    if s.len() == 0 {
        None
    } else {
        let prev = latest_saldo_entry(s.drop_last(), acc);
        let e = s.last();
        if e.finance_account_id == acc && is_saldo_type(e.booking_type) && (prev matches Some(p)
            ==> p.booking_time <= e.booking_time) {
            Some(e)
        } else {
            prev
        }
    }
}

/// The account ids of the booking lines, in stored order.
pub open spec fn account_ids_of(s: Seq<FinanceAccountBookingEntry>) -> Seq<u128> {
    s.map_values(|e: FinanceAccountBookingEntry| e.finance_account_id)
}

/// The saldo map for the given accounts: each listed account that has a
/// saldo line maps to its latest one.
pub open spec fn saldo_map(s: Seq<FinanceAccountBookingEntry>, ids: Seq<u128>) -> Map<
    u128,
    FinanceAccountBookingEntry,
> {
    Map::new(
        |id: u128| ids.contains(id) && latest_saldo_entry(s, id) is Some,
        |id: u128| latest_saldo_entry(s, id)->0,
    )
}

/// The accounts a saldo query covers: the given list, or else every account
/// that has a booking line.
pub open spec fn saldo_query_ids(s: Seq<FinanceAccountBookingEntry>, list: Option<Seq<u128>>) -> Seq<
    u128,
> {
    match list {
        Some(ids) => ids,
        None => account_ids_of(s),
    }
}

/// The view of an optional id list.
pub open spec fn ids_view(list: Option<Vec<u128>>) -> Option<Seq<u128>> {
    match list {
        Some(v) => Some(v@),
        None => None,
    }
}

/// Whether an account id is among the accounts.
pub open spec fn account_listed(accounts: Seq<FinanceAccount>, id: u128) -> bool {
    exists|i: int| 0 <= i < accounts.len() && accounts[i].id == id
}

/// Finds whether some account of the list has the id.
pub fn account_list_contains(accounts: &Vec<FinanceAccount>, id: u128) -> (r: bool)
    ensures
        r == account_listed(accounts@, id),
{
    let mut i: usize = 0;
    while i < accounts.len()
        invariant
            i <= accounts.len(),
            forall|j: int| 0 <= j < i ==> accounts@[j].id != id,
        decreases accounts.len() - i,
    {
        if accounts[i].id == id {
            return true;
        }
        i = i + 1;
    }
    false
}

/// Whether option `i` names an account that is not among the accounts.
pub open spec fn option_unavailable(
    opts: Seq<FinanceAccountBookingEntryListSearchOption>,
    accounts: Seq<FinanceAccount>,
) -> spec_fn(int) -> bool {
    |i: int| !account_listed(accounts, opts[i].finance_account_id)
}

/// The first search option whose account is not among the accounts.
pub open spec fn first_unavailable_option(
    opts: Seq<FinanceAccountBookingEntryListSearchOption>,
    accounts: Seq<FinanceAccount>,
) -> Option<int> {
    first_index(opts.len() as int, option_unavailable(opts, accounts))
}

/// What `first_unavailable_option` gives: the least option whose account is
/// missing, or `None` when every option's account is among the accounts.
pub proof fn lemma_first_unavailable_option(
    opts: Seq<FinanceAccountBookingEntryListSearchOption>,
    accounts: Seq<FinanceAccount>,
)
    ensures
        match first_unavailable_option(opts, accounts) {
            Some(k) => 0 <= k < opts.len() && !account_listed(accounts, opts[k].finance_account_id)
                && forall|j: int| 0 <= j < k ==> account_listed(accounts, #[trigger] opts[j].finance_account_id),
            None => forall|j: int| 0 <= j < opts.len() ==> account_listed(accounts, #[trigger] opts[j].finance_account_id),
        },
{
    let p = option_unavailable(opts, accounts);
    lemma_first_index(opts.len() as int, p);
    match first_unavailable_option(opts, accounts) {
        Some(k) => {
            assert forall|j: int| 0 <= j < k implies account_listed(accounts, #[trigger] opts[j].finance_account_id) by {
                assert(!p(j));
            }
        },
        None => {
            assert forall|j: int| 0 <= j < opts.len() implies account_listed(accounts, #[trigger] opts[j].finance_account_id) by {
                assert(!p(j));
            }
        },
    }
}

/// The message for a search option whose account the user does not have.
pub open spec fn unavailable_account_message(id: u128) -> Seq<char> {
    "account "@ + spec_uuid_text(id) + " not avaiable"@
}

/// The error text of a single-account listing whose account is not one of
/// the user's.
pub open spec fn single_account_unavailable_message() -> Seq<char> {
    "account not avaiable"@
}

/// Checks that the account a single-account listing asks for is one of the
/// user's accounts.
pub fn check_single_account_available(accounts: &Vec<FinanceAccount>, account_id: u128) -> (r: Result<(), String>)
    ensures
        account_listed(accounts@, account_id) ==> r is Ok,
        !account_listed(accounts@, account_id) ==> (r matches Err(m) && m@ == single_account_unavailable_message()),
{
    if account_list_contains(accounts, account_id) {
        Ok(())
    } else {
        Err(String::from_str("account not avaiable"))
    }
}

/// Checks that every search option names one of the user's accounts; the
/// first option that does not is reported.
pub fn check_accounts_available(
    search_options: &Vec<FinanceAccountBookingEntryListSearchOption>,
    accounts: &Vec<FinanceAccount>,
) -> (r: Result<(), String>)
    ensures
        match first_unavailable_option(search_options@, accounts@) {
            None => r is Ok,
            Some(i) => r matches Err(m) && m@ == unavailable_account_message(
                search_options@[i].finance_account_id,
            ),
        },
{
    let mut i: usize = 0;
    while i < search_options.len()
        invariant
            i <= search_options.len(),
            forall|j: int|
                0 <= j < i ==> account_listed(accounts@, #[trigger] search_options@[j].finance_account_id),
        decreases search_options.len() - i,
    {
        let id = search_options[i].finance_account_id;
        if !account_list_contains(accounts, id) {
            proof {
                let p = option_unavailable(search_options@, accounts@);
                assert forall|j: int| 0 <= j < i implies !#[trigger] p(j) by {
                    assert(account_listed(accounts@, search_options@[j].finance_account_id));
                }
                lemma_first_index_is(search_options@.len() as int, p, i as int);
            }
            let id_text = uuid_to_text(id);
            return Err(concat3("account ", id_text.as_str(), " not avaiable"));
        }
        i = i + 1;
    }
    proof {
        let p = option_unavailable(search_options@, accounts@);
        assert forall|j: int| 0 <= j < search_options@.len() implies !#[trigger] p(j) by {
            assert(account_listed(accounts@, search_options@[j].finance_account_id));
        }
        lemma_first_index_none(search_options@.len() as int, p);
    }
    Ok(())
}

/// The error text for a booking whose credit and debit account are the
/// same account.
pub open spec fn same_account_message() -> Seq<char> {
    "credit and debit account must not be the same account"@
}

/// Checks a booking request's accounts: the credit and the debit account
/// must differ, and both must be among the user's accounts, the credit
/// account checked first.
pub fn check_booking_accounts(accounts: &Vec<FinanceAccount>, req: &FinanceBookingRequest) -> (r: Result<(), String>)
    ensures
        req.credit_finance_account_id == req.debit_finance_account_id ==> fails_with(r, same_account_message()),
        req.credit_finance_account_id != req.debit_finance_account_id && !account_listed(
            accounts@,
            req.credit_finance_account_id,
        ) ==> fails_with(r, "credit account is not available"@),
        req.credit_finance_account_id != req.debit_finance_account_id && account_listed(
            accounts@,
            req.credit_finance_account_id,
        ) && !account_listed(accounts@, req.debit_finance_account_id) ==> fails_with(
            r,
            "debit account is not available"@,
        ),
        req.credit_finance_account_id != req.debit_finance_account_id && account_listed(
            accounts@,
            req.credit_finance_account_id,
        ) && account_listed(accounts@, req.debit_finance_account_id) ==> r is Ok,
{
    if req.credit_finance_account_id == req.debit_finance_account_id {
        return Err(String::from_str("credit and debit account must not be the same account"));
    }
    if !account_list_contains(accounts, req.credit_finance_account_id) {
        return Err(String::from_str("credit account is not available"));
    }
    if !account_list_contains(accounts, req.debit_finance_account_id) {
        return Err(String::from_str("debit account is not available"));
    }
    Ok(())
}

/// Lists the journal entries in the window.
pub fn filter_journal_by_window(
    entries: &Vec<FinanceJournalEntry>,
    from: Option<i64>,
    till: Option<i64>,
) -> (r: Vec<FinanceJournalEntry>)
    ensures
        r@ == journal_in_window(entries@, from, till),
{
    let mut r: Vec<FinanceJournalEntry> = Vec::new();
    let mut i: usize = 0;
    while i < entries.len()
        invariant
            i <= entries.len(),
            r@ == journal_in_window(entries@.take(i as int), from, till),
        decreases entries.len() - i,
    {
        proof {
            assert(entries@.take(i + 1).drop_last() =~= entries@.take(i as int));
        }
        let t = entries[i].booking_time;
        let inside = match from {
            Some(f) => f <= t,
            None => true,
        } && match till {
            Some(u) => t <= u,
            None => true,
        };
        if inside {
            r.push(entries[i].clone());
        }
        i = i + 1;
    }
    proof {
        assert(entries@.take(entries@.len() as int) =~= entries@);
    }
    r
}

/// Lists the booking lines matching one search option.
pub fn filter_entries_by_option(
    entries: &Vec<FinanceAccountBookingEntry>,
    option: &FinanceAccountBookingEntryListSearchOption,
) -> (r: Vec<FinanceAccountBookingEntry>)
    ensures
        r@ == entries_for_option(entries@, *option),
{
    let mut r: Vec<FinanceAccountBookingEntry> = Vec::new();
    let mut i: usize = 0;
    while i < entries.len()
        invariant
            i <= entries.len(),
            r@ == entries_for_option(entries@.take(i as int), *option),
        decreases entries.len() - i,
    {
        proof {
            assert(entries@.take(i + 1).drop_last() =~= entries@.take(i as int));
        }
        let e = &entries[i];
        let t = e.booking_time;
        let inside = e.finance_account_id == option.finance_account_id && match option.booking_time_from {
            Some(f) => f <= t,
            None => true,
        } && match option.booking_time_till {
            Some(u) => t <= u,
            None => true,
        };
        if inside {
            r.push(e.clone());
        }
        i = i + 1;
    }
    proof {
        assert(entries@.take(entries@.len() as int) =~= entries@);
    }
    r
}

/// Lists the booking lines for several search options, option by option.
pub fn filter_entries_by_options(
    entries: &Vec<FinanceAccountBookingEntry>,
    options: &Vec<FinanceAccountBookingEntryListSearchOption>,
) -> (r: Vec<FinanceAccountBookingEntry>)
    ensures
        r@ == entries_for_options(entries@, options@),
{
    let mut r: Vec<FinanceAccountBookingEntry> = Vec::new();
    let mut k: usize = 0;
    while k < options.len()
        invariant
            k <= options.len(),
            r@ == entries_for_options(entries@, options@.take(k as int)),
        decreases options.len() - k,
    {
        proof {
            assert(options@.take(k + 1).drop_last() =~= options@.take(k as int));
        }
        let mut part = filter_entries_by_option(entries, &options[k]);
        r.append(&mut part);
        k = k + 1;
    }
    proof {
        assert(options@.take(options@.len() as int) =~= options@);
    }
    r
}

/// Finds the latest saldo line of an account.
pub fn find_latest_saldo_entry(entries: &Vec<FinanceAccountBookingEntry>, acc: u128) -> (r: Option<
    FinanceAccountBookingEntry,
>)
    ensures
        r == latest_saldo_entry(entries@, acc),
{
    let mut best: Option<FinanceAccountBookingEntry> = None;
    let mut i: usize = 0;
    while i < entries.len()
        invariant
            i <= entries.len(),
            best == latest_saldo_entry(entries@.take(i as int), acc),
        decreases entries.len() - i,
    {
        proof {
            assert(entries@.take(i + 1).drop_last() =~= entries@.take(i as int));
        }
        let e = &entries[i];
        if e.finance_account_id == acc && e.booking_type.is_saldo() {
            let replace = match &best {
                Some(p) => p.booking_time <= e.booking_time,
                None => true,
            };
            if replace {
                best = Some(e.clone());
            }
        }
        i = i + 1;
    }
    proof {
        assert(entries@.take(entries@.len() as int) =~= entries@);
    }
    best
}

/// The account ids of the booking lines, in stored order.
pub fn collect_account_ids(entries: &Vec<FinanceAccountBookingEntry>) -> (r: Vec<u128>)
    ensures
        r@ == account_ids_of(entries@),
{
    let mut r: Vec<u128> = Vec::new();
    let mut i: usize = 0;
    while i < entries.len()
        invariant
            i <= entries.len(),
            r@ == account_ids_of(entries@.take(i as int)),
        decreases entries.len() - i,
    {
        proof {
            assert(account_ids_of(entries@.take(i + 1)) =~= account_ids_of(entries@.take(i as int)).push(entries@[i as int].finance_account_id));
        }
        r.push(entries[i].finance_account_id);
        i = i + 1;
    }
    proof {
        assert(entries@.take(entries@.len() as int) =~= entries@);
    }
    r
}

/// The latest saldo line of each account the query covers (the given list,
/// or every account that has a booking line), keyed by account id. Accounts
/// without a saldo line are left out.
pub fn latest_saldo_entries(
    entries: &Vec<FinanceAccountBookingEntry>,
    list_account_ids: Option<Vec<u128>>,
) -> (r: HashMap<u128, FinanceAccountBookingEntry>)
    ensures
        r@ == saldo_map(entries@, saldo_query_ids(entries@, ids_view(list_account_ids))),
{
    let ids = match list_account_ids {
        Some(v) => v,
        None => collect_account_ids(entries),
    };
    let ghost all_ids = ids@;
    let mut r: HashMap<u128, FinanceAccountBookingEntry> = HashMap::new();
    let mut k: usize = 0;
    while k < ids.len()
        invariant
            k <= ids.len(),
            ids@ == all_ids,
            r@ == saldo_map(entries@, all_ids.take(k as int)),
        decreases ids.len() - k,
    {
        let id = ids[k];
        let found = find_latest_saldo_entry(entries, id);
        let ghost before = r@;
        match found {
            Some(e) => {
                r.insert(id, e);
            },
            None => {},
        }
        proof {
            let next = all_ids.take(k + 1);
            assert(next =~= all_ids.take(k as int).push(id));
            assert forall|x: u128| next.contains(x) <==> (all_ids.take(k as int).contains(x) || x == id) by {
                if next.contains(x) {
                    let j = choose|j: int| 0 <= j < next.len() && next[j] == x;
                    if j < k {
                        assert(all_ids.take(k as int)[j] == x);
                    }
                }
                if all_ids.take(k as int).contains(x) {
                    let j = choose|j: int| 0 <= j < k && all_ids.take(k as int)[j] == x;
                    assert(next[j] == x);
                }
                if x == id {
                    assert(next[k as int] == x);
                }
            }
            assert(r@ =~= saldo_map(entries@, next));
        }
        k = k + 1;
    }
    proof {
        assert(all_ids.take(all_ids.len() as int) =~= all_ids);
    }
    r
}

/// The greatest running number in the journal, 0 for an empty journal.
pub open spec fn max_running_number(s: Seq<FinanceJournalEntry>) -> u64
    decreases s.len(),
{
    if s.len() == 0 {
        0
    } else {
        let prev = max_running_number(s.drop_last());
        if s.last().running_number > prev {
            s.last().running_number
        } else {
            prev
        }
    }
}

/// Every running number in the journal is at most the maximum.
pub proof fn lemma_max_running_number_bounds(s: Seq<FinanceJournalEntry>)
    ensures
        forall|i: int| 0 <= i < s.len() ==> #[trigger] s[i].running_number <= max_running_number(s),
        s.len() > 0 ==> exists|i: int| 0 <= i < s.len() && #[trigger] s[i].running_number == max_running_number(s),
    decreases s.len(),
{
    if s.len() > 0 {
        lemma_max_running_number_bounds(s.drop_last());
        assert forall|i: int| 0 <= i < s.len() implies #[trigger] s[i].running_number <= max_running_number(s) by {
            if i < s.len() - 1 {
                assert(s[i] == s.drop_last()[i]);
            }
        }
        if s.drop_last().len() > 0 && s.last().running_number <= max_running_number(s.drop_last()) {
            let w = choose|i: int| 0 <= i < s.drop_last().len() && #[trigger] s.drop_last()[i].running_number == max_running_number(s.drop_last());
            assert(s[w] == s.drop_last()[w]);
        } else {
            assert(s[s.len() - 1].running_number == max_running_number(s));
        }
    }
}

/// Computes the greatest running number of the journal (0 when empty).
pub fn find_max_running_number(entries: &Vec<FinanceJournalEntry>) -> (r: u64)
    ensures
        r == max_running_number(entries@),
{
    let mut best: u64 = 0;
    let mut i: usize = 0;
    while i < entries.len()
        invariant
            i <= entries.len(),
            best == max_running_number(entries@.take(i as int)),
        decreases entries.len() - i,
    {
        proof {
            assert(entries@.take(i + 1).drop_last() =~= entries@.take(i as int));
        }
        if entries[i].running_number > best {
            best = entries[i].running_number;
        }
        i = i + 1;
    }
    proof {
        assert(entries@.take(entries@.len() as int) =~= entries@);
    }
    best
}

/// The booking line type on the credit side of a request.
pub open spec fn credit_type_for(is_saldo: bool) -> BookingEntryType {
    if is_saldo { BookingEntryType::SaldoCredit } else { BookingEntryType::Credit }
}

/// The booking line type on the debit side of a request.
pub open spec fn debit_type_for(is_saldo: bool) -> BookingEntryType {
    if is_saldo { BookingEntryType::SaldoDebit } else { BookingEntryType::Debit }
}

/// Whether a booking line books the request on the given account and side,
/// under the journal entry `journal_id`.
pub open spec fn line_books_request(
    e: FinanceAccountBookingEntry,
    req: FinanceBookingRequest,
    account_id: u128,
    booking_type: BookingEntryType,
    journal_id: u128,
) -> bool {
    &&& e.finance_account_id == account_id
    &&& e.finance_journal_diary_id == journal_id
    &&& e.booking_type == booking_type
    &&& e.booking_time == req.booking_time
    &&& e.amount == req.amount
    &&& e.title == req.title
    &&& e.description == req.description
}

/// Whether a booking result records the request: a journal entry carrying
/// the request's data and `running_number`, a credit line on the credit
/// account and a debit line on the debit account, both under that journal
/// entry and of saldo type exactly when the request is a saldo booking.
pub open spec fn result_books_request(
    res: FinanceBookingResult,
    req: FinanceBookingRequest,
    running_number: u64,
) -> bool {
    let j = res.journal_entry;
    &&& j.is_simple_entry == req.is_simple_entry
    &&& j.is_saldo == req.is_saldo
    &&& j.debit_finance_account_id == req.debit_finance_account_id
    &&& j.credit_finance_account_id == req.credit_finance_account_id
    &&& j.running_number == running_number
    &&& j.booking_time == req.booking_time
    &&& j.amount == req.amount
    &&& j.title == req.title
    &&& j.description == req.description
    &&& line_books_request(
        res.credit_account_entry,
        req,
        req.credit_finance_account_id,
        credit_type_for(req.is_saldo),
        j.id,
    )
    &&& line_books_request(
        res.debit_account_entry,
        req,
        req.debit_finance_account_id,
        debit_type_for(req.is_saldo),
        j.id,
    )
}

/// Builds the journal entry and the two booking lines for a request.
pub fn build_booking_result(
    req: &FinanceBookingRequest,
    running_number: u64,
    journal_id: u128,
    credit_entry_id: u128,
    debit_entry_id: u128,
) -> (r: FinanceBookingResult)
    ensures
        result_books_request(r, *req, running_number),
        r.journal_entry.id == journal_id,
        r.credit_account_entry.id == credit_entry_id,
        r.debit_account_entry.id == debit_entry_id,
{
    let journal_entry = FinanceJournalEntry {
        id: journal_id,
        is_simple_entry: req.is_simple_entry,
        is_saldo: req.is_saldo,
        debit_finance_account_id: req.debit_finance_account_id,
        credit_finance_account_id: req.credit_finance_account_id,
        running_number,
        booking_time: req.booking_time,
        amount: req.amount,
        title: req.title.clone(),
        description: req.description.clone(),
    };
    let credit_type = if req.is_saldo {
        BookingEntryType::SaldoCredit
    } else {
        BookingEntryType::Credit
    };
    let debit_type = if req.is_saldo {
        BookingEntryType::SaldoDebit
    } else {
        BookingEntryType::Debit
    };
    let credit_account_entry = FinanceAccountBookingEntry {
        id: credit_entry_id,
        finance_account_id: req.credit_finance_account_id,
        finance_journal_diary_id: journal_id,
        booking_type: credit_type,
        booking_time: req.booking_time,
        amount: req.amount,
        title: req.title.clone(),
        description: req.description.clone(),
    };
    let debit_account_entry = FinanceAccountBookingEntry {
        id: debit_entry_id,
        finance_account_id: req.debit_finance_account_id,
        finance_journal_diary_id: journal_id,
        booking_type: debit_type,
        booking_time: req.booking_time,
        amount: req.amount,
        title: req.title.clone(),
        description: req.description.clone(),
    };
    FinanceBookingResult { journal_entry, debit_account_entry, credit_account_entry }
}

} // verus!
