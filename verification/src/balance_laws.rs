//! How a booking moves the balances a balance query reports: the credit
//! account's balance rises by the amount, the debit account's falls by it,
//! and every other account's balance stays.
use vstd::prelude::*;

use crate::accounting_database::{
    entries_for_option, entries_for_options, latest_saldo_entry, matches_option, saldo_map,
    FinanceAccountBookingEntryListSearchOption,
};
use crate::accounting_logic::{
    balance_lines, balance_of, balance_option, balance_options, balance_outcome, balance_totals_fit,
    credit_total, debit_total, handle_insert_outcome, totals_fit,
};
use crate::datatypes::{
    is_credit_side, is_saldo_type, AccountBalanceInfo, AccountBalanceType, FinanceAccountBookingEntry,
    FinanceBookingRequest, FinanceBookingResult,
};
use crate::in_memory_database::{user_position, UserLedgerView};
use crate::ledger_laws::{booked, lemma_successful_booking};

verus! {

/// A balance as a signed amount: positive on the credit side, negative on
/// the debit side.
pub open spec fn signed_balance(b: AccountBalanceInfo) -> int {
    if b.balance_type == AccountBalanceType::Credit {
        b.amount as int
    } else {
        -(b.amount as int)
    }
}

/// The totals over two runs of lines are the sums of their totals.
pub proof fn lemma_totals_concat(s: Seq<FinanceAccountBookingEntry>, t: Seq<FinanceAccountBookingEntry>, x: u128)
    ensures
        credit_total(s + t, x) == credit_total(s, x) + credit_total(t, x),
        debit_total(s + t, x) == debit_total(s, x) + debit_total(t, x),
    decreases t.len(),
{
    if t.len() > 0 {
        lemma_totals_concat(s, t.drop_last(), x);
        assert((s + t).drop_last() =~= s + t.drop_last());
        assert((s + t).last() == t.last());
    }
}

/// What one more line adds to the credit total of `x` over the lines of
/// the options: its amount once for each option it matches, when it is a
/// credit line of `x`.
pub open spec fn added_credit(
    opts: Seq<FinanceAccountBookingEntryListSearchOption>,
    b: FinanceAccountBookingEntry,
    x: u128,
) -> nat
    decreases opts.len(),
{
    if opts.len() == 0 {
        0
    } else {
        added_credit(opts.drop_last(), b, x) + if matches_option(b, opts.last()) && b.finance_account_id == x
            && is_credit_side(b.booking_type) {
            b.amount as nat
        } else {
            0
        }
    }
}

/// What one more line adds to the debit total of `x` over the lines of the
/// options: its amount once for each option it matches, when it is a debit
/// line of `x`.
pub open spec fn added_debit(
    opts: Seq<FinanceAccountBookingEntryListSearchOption>,
    b: FinanceAccountBookingEntry,
    x: u128,
) -> nat
    decreases opts.len(),
{
    if opts.len() == 0 {
        0
    } else {
        added_debit(opts.drop_last(), b, x) + if matches_option(b, opts.last()) && b.finance_account_id == x
            && !is_credit_side(b.booking_type) {
            b.amount as nat
        } else {
            0
        }
    }
}

/// One more stored line changes the totals over the options' lines by what
/// it adds for each option it matches.
proof fn lemma_options_after_push(
    s: Seq<FinanceAccountBookingEntry>,
    b: FinanceAccountBookingEntry,
    opts: Seq<FinanceAccountBookingEntryListSearchOption>,
    x: u128,
)
    ensures
        credit_total(entries_for_options(s.push(b), opts), x) == credit_total(entries_for_options(s, opts), x)
            + added_credit(opts, b, x),
        debit_total(entries_for_options(s.push(b), opts), x) == debit_total(entries_for_options(s, opts), x)
            + added_debit(opts, b, x),
    decreases opts.len(),
{
    if opts.len() > 0 {
        let o = opts.last();
        let rest = opts.drop_last();
        lemma_options_after_push(s, b, rest, x);
        assert(s.push(b).drop_last() =~= s);
        let e0 = entries_for_option(s, o);
        let e1 = entries_for_option(s.push(b), o);
        lemma_totals_concat(entries_for_options(s, rest), e0, x);
        lemma_totals_concat(entries_for_options(s.push(b), rest), e1, x);
        if matches_option(b, o) {
            assert(e1.drop_last() =~= e0);
            assert(e1.last() == b);
        } else {
            assert(e1 == e0);
        }
    }
}

/// A line of an account that no option names adds nothing.
proof fn lemma_unnamed_account_adds_nothing(
    ids: Seq<u128>,
    saldo: Map<u128, FinanceAccountBookingEntry>,
    b: FinanceAccountBookingEntry,
    x: u128,
)
    requires
        !ids.contains(b.finance_account_id),
    ensures
        added_credit(balance_options(ids, saldo), b, x) == 0,
        added_debit(balance_options(ids, saldo), b, x) == 0,
    decreases ids.len(),
{
    if ids.len() > 0 {
        let rest = ids.drop_last();
        assert(balance_options(ids, saldo).drop_last() =~= balance_options(rest, saldo));
        assert(!rest.contains(b.finance_account_id)) by {
            if rest.contains(b.finance_account_id) {
                let k = choose|k: int| 0 <= k < rest.len() && rest[k] == b.finance_account_id;
                assert(ids[k] == b.finance_account_id);
            }
        }
        assert(ids.last() != b.finance_account_id) by {
            assert(ids[ids.len() - 1] == ids.last());
        }
        lemma_unnamed_account_adds_nothing(rest, saldo, b, x);
    }
}

/// A line of an account the list names once, inside that account's window,
/// adds its amount to that account's credit or debit total, by its side,
/// and nothing to any other account.
proof fn lemma_named_account_adds_amount(
    ids: Seq<u128>,
    saldo: Map<u128, FinanceAccountBookingEntry>,
    b: FinanceAccountBookingEntry,
    x: u128,
)
    requires
        ids.no_duplicates(),
        ids.contains(b.finance_account_id),
        matches_option(b, balance_option(saldo, b.finance_account_id)),
    ensures
        added_credit(balance_options(ids, saldo), b, x) == if x == b.finance_account_id && is_credit_side(
            b.booking_type,
        ) {
            b.amount as nat
        } else {
            0
        },
        added_debit(balance_options(ids, saldo), b, x) == if x == b.finance_account_id && !is_credit_side(
            b.booking_type,
        ) {
            b.amount as nat
        } else {
            0
        },
    decreases ids.len(),
{
    let rest = ids.drop_last();
    let opts = balance_options(ids, saldo);
    assert(opts.drop_last() =~= balance_options(rest, saldo));
    assert(opts.last() == balance_option(saldo, ids.last())) by {
        assert(ids[ids.len() - 1] == ids.last());
    }
    if ids.last() == b.finance_account_id {
        assert(!rest.contains(b.finance_account_id)) by {
            if rest.contains(b.finance_account_id) {
                let k = choose|k: int| 0 <= k < rest.len() && rest[k] == b.finance_account_id;
                assert(ids[k] == ids[ids.len() - 1]);
            }
        }
        lemma_unnamed_account_adds_nothing(rest, saldo, b, x);
    } else {
        assert(rest.no_duplicates()) by {
            assert forall|i: int, j: int| 0 <= i < rest.len() && 0 <= j < rest.len() && i != j implies rest[i]
                != rest[j] by {
                assert(rest[i] == ids[i] && rest[j] == ids[j]);
            }
        }
        assert(rest.contains(b.finance_account_id)) by {
            let k = choose|k: int| 0 <= k < ids.len() && ids[k] == b.finance_account_id;
            assert(k != ids.len() - 1);
            assert(rest[k] == ids[k]);
        }
        lemma_named_account_adds_amount(rest, saldo, b, x);
    }
}

/// Lines that are not saldo lines leave every account's latest saldo line
/// as it was.
proof fn lemma_saldo_kept(s: Seq<FinanceAccountBookingEntry>, b: FinanceAccountBookingEntry, x: u128)
    requires
        !is_saldo_type(b.booking_type),
    ensures
        latest_saldo_entry(s.push(b), x) == latest_saldo_entry(s, x),
{
    assert(s.push(b).drop_last() =~= s);
}

/// The signed balance over lines whose totals fit is the credit total less
/// the debit total.
pub proof fn lemma_signed_balance(s: Seq<FinanceAccountBookingEntry>, x: u128)
    requires
        credit_total(s, x) <= u64::MAX,
        debit_total(s, x) <= u64::MAX,
    ensures
        signed_balance(balance_of(s, x)) == credit_total(s, x) - debit_total(s, x),
{
}

/// A booking moves the balances of a balance query: after a booking of
/// amount `a` from debit account D to credit account A (not a saldo), the
/// balance of A since its latest saldo rises by `a`, that of D falls by `a`,
/// and every other listed account keeps its balance. The accounts are
/// listed once each (an account listed twice would count its lines twice),
/// and both queries stay within the amount type, as the query requires.
pub proof fn law_booking_moves_balances(
    db0: Seq<UserLedgerView>,
    u: u128,
    req: FinanceBookingRequest,
    res: FinanceBookingResult,
    db1: Seq<UserLedgerView>,
    ids: Seq<u128>,
    before: Result<Vec<AccountBalanceInfo>, String>,
    after: Result<Vec<AccountBalanceInfo>, String>,
)
    requires
        handle_insert_outcome(db0, u, req, Ok(res), db1),
        !req.is_saldo,
        ids.no_duplicates(),
        ids.contains(req.credit_finance_account_id),
        ids.contains(req.debit_finance_account_id),
        balance_totals_fit(db0, u, ids),
        balance_totals_fit(db1, u, ids),
        balance_outcome(db0, u, ids, before),
        balance_outcome(db1, u, ids, after),
        before is Ok,
    ensures
        before matches Ok(v0) && after matches Ok(v1) && v1@.len() == v0@.len() && v0@.len() == ids.len()
            && forall|k: int|
            0 <= k < ids.len() ==> #[trigger] signed_balance(v1@[k]) == signed_balance(v0@[k]) + (if ids[k]
                == req.credit_finance_account_id {
                req.amount as int
            } else {
                0
            }) - (if ids[k] == req.debit_finance_account_id {
                req.amount as int
            } else {
                0
            }),
{
    lemma_successful_booking(db0, u, req, res, db1);
    assert(booked(db0, u, req, res, db1));
    let i = user_position(db0, u)->0;
    let s0 = db0[i].booking_entries;
    let cl = res.credit_account_entry;
    let dl = res.debit_account_entry;
    let s1 = s0.push(cl);
    let s2 = s1.push(dl);
    assert(db1[i].booking_entries == s2);
    assert(!is_saldo_type(cl.booking_type) && !is_saldo_type(dl.booking_type));
    assert(is_credit_side(cl.booking_type) && !is_credit_side(dl.booking_type));
    assert forall|x: u128| latest_saldo_entry(s2, x) == latest_saldo_entry(s0, x) by {
        lemma_saldo_kept(s0, cl, x);
        lemma_saldo_kept(s1, dl, x);
    }
    let saldo = saldo_map(s0, ids);
    assert(saldo_map(s2, ids) =~= saldo);
    let opts = balance_options(ids, saldo);
    assert(balance_lines(db0[i], ids) == entries_for_options(s0, opts));
    assert(balance_lines(db1[i], ids) == entries_for_options(s2, opts));
    // the booking was not refused by a saldo of either account
    let pair = seq![req.credit_finance_account_id, req.debit_finance_account_id];
    assert(pair[0] == req.credit_finance_account_id && pair[1] == req.debit_finance_account_id);
    assert(matches_option(cl, balance_option(saldo, cl.finance_account_id))) by {
        assert(pair.contains(req.credit_finance_account_id));
    }
    assert(matches_option(dl, balance_option(saldo, dl.finance_account_id))) by {
        assert(pair.contains(req.debit_finance_account_id));
    }
    let l0 = entries_for_options(s0, opts);
    let l2 = entries_for_options(s2, opts);
    let v0 = before->Ok_0;
    let v1 = after->Ok_0;
    assert forall|k: int| 0 <= k < ids.len() implies #[trigger] signed_balance(v1@[k]) == signed_balance(
        v0@[k],
    ) + (if ids[k] == req.credit_finance_account_id {
        req.amount as int
    } else {
        0
    }) - (if ids[k] == req.debit_finance_account_id {
        req.amount as int
    } else {
        0
    }) by {
        let x = ids[k];
        lemma_options_after_push(s0, cl, opts, x);
        lemma_options_after_push(s1, dl, opts, x);
        lemma_named_account_adds_amount(ids, saldo, cl, x);
        lemma_named_account_adds_amount(ids, saldo, dl, x);
        assert(totals_fit(l0, ids) && totals_fit(l2, ids));
        assert(credit_total(l0, ids[k]) <= u64::MAX && debit_total(l0, ids[k]) <= u64::MAX);
        assert(credit_total(l2, ids[k]) <= u64::MAX && debit_total(l2, ids[k]) <= u64::MAX);
        lemma_signed_balance(l0, x);
        lemma_signed_balance(l2, x);
        assert(v0@[k] == balance_of(l0, x));
        assert(v1@[k] == balance_of(l2, x));
    }
}

} // verus!
