//! What the front-end views show of the ledger: the journal review names
//! the credit and the debit account of each entry, and an account table
//! shows each line on the side it was booked on.
use vstd::prelude::*;

use crate::accounting_database::journal_in_window;
use crate::accounting_logic::balance_lines;
use crate::datatypes::{BookingEntryType, FinanceAccount, FinanceJournalEntry};
use crate::frontend_functions::{
    account_ids, account_lines, account_name_for, account_tables_outcome, account_with_id, review_outcome,
    table_accounts,
};
use crate::html_render::{AccountTableTemplate, JournalTableRow};
use crate::in_memory_database::{user_position, UserLedgerView};
use crate::lookup::lemma_first_index_is;

verus! {

/// Whether `accounts[c]` is the first account with the id.
pub open spec fn first_account_with_id(accounts: Seq<FinanceAccount>, c: int, id: u128) -> bool {
    &&& 0 <= c < accounts.len()
    &&& accounts[c].id == id
    &&& forall|j: int| 0 <= j < c ==> #[trigger] accounts[j].id != id
}

/// The title of the first account with the id, where `accounts[c]` is it.
proof fn lemma_name_of_first_account(accounts: Seq<FinanceAccount>, c: int, id: u128)
    requires
        first_account_with_id(accounts, c, id),
    ensures
        account_name_for(accounts, id) == accounts[c].title@,
{
    let p = account_with_id(accounts, id);
    assert forall|j: int| 0 <= j < c implies !#[trigger] p(j) by {
        assert(accounts[j].id != id);
    }
    lemma_first_index_is(accounts.len() as int, p, c);
}

/// The review names the booked accounts: the row of each journal entry
/// names as credit account the title of the user's account whose id is the
/// entry's credit account id, and as debit account the title of the
/// account whose id is its debit account id (the first such account where
/// ids repeat).
pub proof fn law_review_names_booked_accounts(
    db: Seq<UserLedgerView>,
    u: u128,
    r: Result<Vec<JournalTableRow>, String>,
    k: int,
    c: int,
    d: int,
)
    requires
        review_outcome(db, u, r),
        r is Ok,
        0 <= k < journal_in_window(db[user_position(db, u)->0].journal_entries, None, None).len(),
        first_account_with_id(
            db[user_position(db, u)->0].accounts,
            c,
            journal_in_window(db[user_position(db, u)->0].journal_entries, None, None)[k].credit_finance_account_id,
        ),
        first_account_with_id(
            db[user_position(db, u)->0].accounts,
            d,
            journal_in_window(db[user_position(db, u)->0].journal_entries, None, None)[k].debit_finance_account_id,
        ),
    ensures
        r matches Ok(rows) && rows@[k].credit_account_name@ == db[user_position(db, u)->0].accounts[c].title@
            && rows@[k].debit_account_name@ == db[user_position(db, u)->0].accounts[d].title@,
{
    let i = user_position(db, u)->0;
    let e: FinanceJournalEntry = journal_in_window(db[i].journal_entries, None, None)[k];
    lemma_name_of_first_account(db[i].accounts, c, e.credit_finance_account_id);
    lemma_name_of_first_account(db[i].accounts, d, e.debit_finance_account_id);
}

/// An account table shows each line on its booked side: the row of a line
/// is marked credit exactly when the line is a credit or a saldo-credit
/// line, the side its amount counts on in the balance.
pub proof fn law_table_row_side_is_booked_side(
    db: Seq<UserLedgerView>,
    u: u128,
    limit: Option<Seq<u128>>,
    now: i64,
    r: Result<Vec<AccountTableTemplate>, String>,
    t: int,
    j: int,
)
    requires
        account_tables_outcome(db, u, limit, now, r),
        r is Ok,
        user_position(db, u) is Some,
        0 <= t < table_accounts(db[user_position(db, u)->0], limit).len(),
        0 <= j < account_lines(
            balance_lines(
                db[user_position(db, u)->0],
                account_ids(table_accounts(db[user_position(db, u)->0], limit)),
            ),
            table_accounts(db[user_position(db, u)->0], limit)[t].id,
        ).len(),
    ensures
        ({
            let i = user_position(db, u)->0;
            let accounts = table_accounts(db[i], limit);
            let line = account_lines(balance_lines(db[i], account_ids(accounts)), accounts[t].id)[j];
            r matches Ok(ts) && (ts@[t].booking_rows@[j].is_credit <==> (line.booking_type
                == BookingEntryType::Credit || line.booking_type == BookingEntryType::SaldoCredit))
        }),
{
    let i = user_position(db, u)->0;
    let accounts = table_accounts(db[i], limit);
    assert(accounts.len() > 0);
    let ts = r->Ok_0;
    assert(crate::frontend_functions::table_shows(ts@[t], accounts[t], balance_lines(db[i], account_ids(accounts)), now));
}

} // verus!
