//! What a balance query counts: for each account, the lines booked at or
//! after its latest saldo line, and nothing before it.
use vstd::prelude::*;

use crate::accounting_database::{
    entries_for_option, entries_for_options, latest_saldo_entry, matches_option, saldo_map,
    FinanceAccountBookingEntryListSearchOption,
};
use crate::accounting_logic::{
    balance_lines, balance_of, balance_option, balance_options, balance_outcome, balance_totals_fit,
    credit_total, debit_total, totals_fit,
};
use crate::balance_laws::{lemma_signed_balance, lemma_totals_concat, signed_balance};
use crate::datatypes::{AccountBalanceInfo, BookingEntryType, FinanceAccountBookingEntry};
use crate::in_memory_database::{user_position, UserLedgerView};

verus! {

/// The signed total of the booking lines of account `x` booked at or after
/// `from` (all its lines without `from`): credit and saldo-credit lines
/// count their amount, debit and saldo-debit lines its negation.
pub open spec fn signed_total_from(s: Seq<FinanceAccountBookingEntry>, x: u128, from: Option<i64>) -> int
    decreases s.len(),
{
    if s.len() == 0 {
        0
    } else {
        let e = s.last();
        signed_total_from(s.drop_last(), x, from) + if e.finance_account_id == x && (from matches Some(f)
            ==> f <= e.booking_time) {
            if e.booking_type == BookingEntryType::Credit || e.booking_type == BookingEntryType::SaldoCredit {
                e.amount as int
            } else {
                -(e.amount as int)
            }
        } else {
            0
        }
    }
}

/// The booking time of the latest saldo line of account `x`, if it has one.
pub open spec fn latest_saldo_time(s: Seq<FinanceAccountBookingEntry>, x: u128) -> Option<i64> {
    match latest_saldo_entry(s, x) {
        Some(e) => Some(e.booking_time),
        None => None,
    }
}

/// The lines of an option naming another account add nothing to the
/// totals of `x`.
proof fn lemma_other_option_adds_nothing(
    s: Seq<FinanceAccountBookingEntry>,
    o: FinanceAccountBookingEntryListSearchOption,
    x: u128,
)
    requires
        o.finance_account_id != x,
    ensures
        credit_total(entries_for_option(s, o), x) == 0,
        debit_total(entries_for_option(s, o), x) == 0,
    decreases s.len(),
{
    if s.len() > 0 {
        lemma_other_option_adds_nothing(s.drop_last(), o, x);
        let prev = entries_for_option(s.drop_last(), o);
        if matches_option(s.last(), o) {
            assert(prev.push(s.last()).drop_last() =~= prev);
        }
    }
}

/// Over the lines of an option for `x` without an upper bound, the credit
/// total less the debit total is the signed total of the lines of `x`
/// from the option's lower bound.
proof fn lemma_option_signed_total(
    s: Seq<FinanceAccountBookingEntry>,
    o: FinanceAccountBookingEntryListSearchOption,
    x: u128,
)
    requires
        o.finance_account_id == x,
        o.booking_time_till is None,
    ensures
        credit_total(entries_for_option(s, o), x) - debit_total(entries_for_option(s, o), x)
            == signed_total_from(s, x, o.booking_time_from),
    decreases s.len(),
{
    if s.len() > 0 {
        lemma_option_signed_total(s.drop_last(), o, x);
        let prev = entries_for_option(s.drop_last(), o);
        if matches_option(s.last(), o) {
            assert(prev.push(s.last()).drop_last() =~= prev);
        }
    }
}

/// With each account listed once, the totals of account `ids[k]` over the
/// lines of a balance query are its totals over the lines of its own
/// option.
proof fn lemma_own_option_totals(
    s: Seq<FinanceAccountBookingEntry>,
    ids: Seq<u128>,
    saldo: Map<u128, FinanceAccountBookingEntry>,
    k: int,
)
    requires
        ids.no_duplicates(),
        0 <= k < ids.len(),
    ensures
        credit_total(entries_for_options(s, balance_options(ids, saldo)), ids[k]) == credit_total(
            entries_for_option(s, balance_option(saldo, ids[k])),
            ids[k],
        ),
        debit_total(entries_for_options(s, balance_options(ids, saldo)), ids[k]) == debit_total(
            entries_for_option(s, balance_option(saldo, ids[k])),
            ids[k],
        ),
    decreases ids.len(),
{
    let x = ids[k];
    let n = ids.len() - 1;
    let rest = ids.drop_last();
    let opts = balance_options(ids, saldo);
    assert(opts.drop_last() =~= balance_options(rest, saldo));
    assert(opts.last() == balance_option(saldo, ids[n]));
    lemma_totals_concat(entries_for_options(s, balance_options(rest, saldo)), entries_for_option(s, opts.last()), x);
    if k == n {
        assert forall|j: int| 0 <= j < rest.len() implies #[trigger] rest[j] != x by {
            assert(rest[j] == ids[j]);
        }
        lemma_no_option_for_account(s, rest, saldo, x);
    } else {
        assert(rest.no_duplicates()) by {
            assert forall|i: int, j: int| 0 <= i < rest.len() && 0 <= j < rest.len() && i != j implies rest[i]
                != rest[j] by {
                assert(rest[i] == ids[i] && rest[j] == ids[j]);
            }
        }
        assert(rest[k] == x);
        lemma_own_option_totals(s, rest, saldo, k);
        assert(ids[n] != x);
        lemma_other_option_adds_nothing(s, opts.last(), x);
    }
}

/// Options for other accounts only add nothing to the totals of `x`.
proof fn lemma_no_option_for_account(
    s: Seq<FinanceAccountBookingEntry>,
    ids: Seq<u128>,
    saldo: Map<u128, FinanceAccountBookingEntry>,
    x: u128,
)
    requires
        forall|j: int| 0 <= j < ids.len() ==> #[trigger] ids[j] != x,
    ensures
        credit_total(entries_for_options(s, balance_options(ids, saldo)), x) == 0,
        debit_total(entries_for_options(s, balance_options(ids, saldo)), x) == 0,
    decreases ids.len(),
{
    if ids.len() > 0 {
        let rest = ids.drop_last();
        let opts = balance_options(ids, saldo);
        assert(opts.drop_last() =~= balance_options(rest, saldo));
        assert(opts.last() == balance_option(saldo, ids[ids.len() - 1]));
        assert forall|j: int| 0 <= j < rest.len() implies #[trigger] rest[j] != x by {
            assert(rest[j] == ids[j]);
        }
        lemma_no_option_for_account(s, rest, saldo, x);
        lemma_totals_concat(entries_for_options(s, balance_options(rest, saldo)), entries_for_option(s, opts.last()), x);
        lemma_other_option_adds_nothing(s, opts.last(), x);
    }
}

/// A balance counts the lines since the latest saldo: the balance a
/// balance query reports for an account, as a signed amount, is the signed
/// total of that account's lines booked at or after its latest saldo line
/// (all its lines when it has none); lines before that saldo do not count.
/// The accounts are listed once each and the totals fit the amount type,
/// as the query requires.
pub proof fn law_balance_counts_lines_since_latest_saldo(
    db: Seq<UserLedgerView>,
    u: u128,
    ids: Seq<u128>,
    r: Result<Vec<AccountBalanceInfo>, String>,
    k: int,
)
    requires
        balance_outcome(db, u, ids, r),
        r is Ok,
        ids.no_duplicates(),
        balance_totals_fit(db, u, ids),
        0 <= k < ids.len(),
    ensures
        user_position(db, u) is Some,
        r matches Ok(v) && v@.len() == ids.len() && signed_balance(v@[k]) == signed_total_from(
            db[user_position(db, u)->0].booking_entries,
            ids[k],
            latest_saldo_time(db[user_position(db, u)->0].booking_entries, ids[k]),
        ),
{
    let i = user_position(db, u)->0;
    let s = db[i].booking_entries;
    let x = ids[k];
    let saldo = saldo_map(s, ids);
    let opts = balance_options(ids, saldo);
    let lines = balance_lines(db[i], ids);
    assert(lines == entries_for_options(s, opts));
    assert(totals_fit(lines, ids));
    assert(credit_total(lines, ids[k]) <= u64::MAX && debit_total(lines, ids[k]) <= u64::MAX);
    lemma_own_option_totals(s, ids, saldo, k);
    let o = balance_option(saldo, x);
    lemma_option_signed_total(s, o, x);
    assert(ids.contains(x));
    assert(o.booking_time_from == latest_saldo_time(s, x));
    lemma_signed_balance(lines, x);
    let v = r->Ok_0;
    assert(v@[k] == balance_of(lines, x));
}


} // verus!
