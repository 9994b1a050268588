//! The views the front end builds from the ledger: the account tables with
//! their balances and the journal review.
use vstd::prelude::*;

use crate::accounting_config_logic::FinanceAccountingConfigHandle;
use crate::accounting_database::{
    account_listed, first_unavailable_option, journal_in_window, lemma_first_unavailable_option,
    saldo_map, window_is_ordered,
};
use crate::accounting_logic::{
    balance_lines, balance_of, balance_options, balance_search_options, balance_totals_fit,
    balances_of, lines_error_prefix, empty_search_message, options_ordered, search_options_error,
    FinanceBookingHandle,
};
use crate::datatypes::{
    is_credit_side, AccountBalanceType, FinanceAccount, FinanceAccountBookingEntry,
    FinanceJournalEntry,
};
use crate::html_render::{AccountTableBookingRow, AccountTableTemplate, JournalTableRow};
use crate::in_memory_database::{
    accounts_limited, limit_view, user_not_found_message, user_position, InMemoryDatabaseData,
    UserLedgerView,
};
use crate::lookup::{first_index, lemma_first_index, lemma_first_index_is};
use crate::platform::{now_millis, spec_uuid_text, uuid_to_text};
use crate::text::{concat2, fails_with, nat_digits, replace_all, replaced, u64_decimal};
use crate::convert_tools::{escape_text, ConvertTools};
use crate::datatypes::PasswordResetTokenRequestResult;
use crate::mail_handle::{SimpleMailData, SmtpMailSetting};
use crate::platform::{spec_utc_display_text, utc_display_text};
use crate::setting_struct::SettingStruct;

verus! {

/// The ids of the accounts, in order.
pub open spec fn account_ids(accounts: Seq<FinanceAccount>) -> Seq<u128> {
    accounts.map_values(|a: FinanceAccount| a.id)
}

/// The booking lines of one account, in order.
pub open spec fn account_lines(s: Seq<FinanceAccountBookingEntry>, acc: u128) -> Seq<FinanceAccountBookingEntry>
    decreases s.len(),
{
    if s.len() == 0 {
        Seq::empty()
    } else {
        let prev = account_lines(s.drop_last(), acc);
        if s.last().finance_account_id == acc {
            prev.push(s.last())
        } else {
            prev
        }
    }
}

/// Whether a table row shows a booking line.
pub open spec fn row_shows_line(r: AccountTableBookingRow, e: FinanceAccountBookingEntry) -> bool {
    &&& r.booking_time == e.booking_time
    &&& r.is_credit == is_credit_side(e.booking_type)
    &&& !r.is_saldo
    &&& r.title@ == e.title@
    &&& r.amount_cents == e.amount
}

/// Whether a table row shows the balance of the account at `now`.
pub open spec fn row_shows_balance(r: AccountTableBookingRow, lines: Seq<FinanceAccountBookingEntry>, acc: u128, now: i64) -> bool {
    let b = balance_of(lines, acc);
    &&& r.booking_time == now
    &&& r.is_credit == (b.balance_type == AccountBalanceType::Credit)
    &&& r.is_saldo
    &&& r.title@ == (if b.balance_type == AccountBalanceType::Credit { "Credit"@ } else { "Debit"@ })
    &&& r.amount_cents == b.amount
}

/// Whether an account table shows the account's lines since its latest
/// saldo, followed (when there are any) by its balance at `now`.
pub open spec fn table_shows(
    t: AccountTableTemplate,
    acc: FinanceAccount,
    lines: Seq<FinanceAccountBookingEntry>,
    now: i64,
) -> bool {
    let ls = account_lines(lines, acc.id);
    &&& t.account_name@ == acc.title@
    &&& forall|k: int| 0 <= k < ls.len() ==> row_shows_line(#[trigger] t.booking_rows@[k], ls[k])
    &&& if ls.len() == 0 {
        t.booking_rows@.len() == 0
    } else {
        &&& t.booking_rows@.len() == ls.len() + 1
        &&& row_shows_balance(t.booking_rows@[ls.len() as int], lines, acc.id, now)
    }
}

/// The accounts a table view covers for the user: the listed ones, or all.
pub open spec fn table_accounts(v: UserLedgerView, limit: Option<Seq<u128>>) -> Seq<FinanceAccount> {
    accounts_limited(v.accounts, limit)
}

/// Whether the balances of the table view fit the amount type.
pub open spec fn tables_fit(db: Seq<UserLedgerView>, u: u128, limit: Option<Seq<u128>>) -> bool {
    match user_position(db, u) {
        None => true,
        Some(i) => balance_totals_fit(db, u, account_ids(table_accounts(db[i], limit))),
    }
}

/// The account tables of the user at `now`: an unknown user is refused; a
/// user without (listed) accounts gets the balance query's refusal of an
/// empty account list; otherwise one table per account, in order.
pub open spec fn account_tables_outcome(
    db: Seq<UserLedgerView>,
    u: u128,
    limit: Option<Seq<u128>>,
    now: i64,
    r: Result<Vec<AccountTableTemplate>, String>,
) -> bool {
    match user_position(db, u) {
        None => fails_with(r, user_not_found_message()),
        Some(i) => {
            let accounts = table_accounts(db[i], limit);
            let lines = balance_lines(db[i], account_ids(accounts));
            if accounts.len() == 0 {
                fails_with(r, lines_error_prefix() + empty_search_message())
            } else {
                r matches Ok(ts) && ts@.len() == accounts.len() && forall|k: int|
                    0 <= k < accounts.len() ==> table_shows(#[trigger] ts@[k], accounts[k], lines, now)
            }
        },
    }
}

/// Every account of a limited list is one of the accounts.
proof fn lemma_limited_accounts_listed(s: Seq<FinanceAccount>, limit: Option<Seq<u128>>)
    ensures
        forall|k: int|
            0 <= k < accounts_limited(s, limit).len() ==> account_listed(s, #[trigger] accounts_limited(s, limit)[k].id),
    decreases s.len(),
{
    if s.len() > 0 {
        lemma_limited_accounts_listed(s.drop_last(), limit);
        let prev = accounts_limited(s.drop_last(), limit);
        let cur = accounts_limited(s, limit);
        assert forall|k: int| 0 <= k < cur.len() implies account_listed(s, #[trigger] cur[k].id) by {
            if k < prev.len() {
                assert(cur[k] == prev[k]);
                assert(account_listed(s.drop_last(), prev[k].id));
                let j = choose|j: int| 0 <= j < s.drop_last().len() && s.drop_last()[j].id == prev[k].id;
                assert(s[j] == s.drop_last()[j]);
            } else {
                assert(cur[k] == s.last());
                assert(s[s.len() - 1] == s.last());
            }
        }
    }
}

/// Collects the ids of the accounts.
fn collect_ids(accounts: &Vec<FinanceAccount>) -> (r: Vec<u128>)
    ensures
        r@ == account_ids(accounts@),
{
    let mut r: Vec<u128> = Vec::new();
    let mut k: usize = 0;
    while k < accounts.len()
        invariant
            k <= accounts.len(),
            r@ == account_ids(accounts@.take(k as int)),
        decreases accounts.len() - k,
    {
        r.push(accounts[k].id);
        proof {
            assert(account_ids(accounts@.take(k + 1)) =~= account_ids(accounts@.take(k as int)).push(accounts@[k as int].id));
        }
        k = k + 1;
    }
    proof {
        assert(accounts@.take(accounts@.len() as int) =~= accounts@);
    }
    r
}

/// The rows of one account's table: its lines, then its balance at `now`
/// when it has lines.
fn account_rows(
    lines: &Vec<FinanceAccountBookingEntry>,
    acc: u128,
    credit: bool,
    balance_amount: u64,
    now: i64,
) -> (r: Vec<AccountTableBookingRow>)
    requires
        credit == (balance_of(lines@, acc).balance_type == AccountBalanceType::Credit),
        balance_amount == balance_of(lines@, acc).amount,
    ensures
        ({
            let ls = account_lines(lines@, acc);
            &&& forall|k: int| 0 <= k < ls.len() ==> row_shows_line(#[trigger] r@[k], ls[k])
            &&& if ls.len() == 0 {
                r@.len() == 0
            } else {
                &&& r@.len() == ls.len() + 1
                &&& row_shows_balance(r@[ls.len() as int], lines@, acc, now)
            }
        }),
{
    let mut rows: Vec<AccountTableBookingRow> = Vec::new();
    let mut j: usize = 0;
    while j < lines.len()
        invariant
            j <= lines.len(),
            rows@.len() == account_lines(lines@.take(j as int), acc).len(),
            forall|k: int|
                0 <= k < rows@.len() ==> row_shows_line(#[trigger] rows@[k], account_lines(lines@.take(j as int), acc)[k]),
        decreases lines.len() - j,
    {
        proof {
            assert(lines@.take(j + 1).drop_last() =~= lines@.take(j as int));
        }
        let e = &lines[j];
        if e.finance_account_id == acc {
            rows.push(
                AccountTableBookingRow {
                    booking_time: e.booking_time,
                    is_credit: e.booking_type.is_credit(),
                    is_saldo: false,
                    title: e.title.clone(),
                    amount_cents: e.amount,
                },
            );
        }
        j = j + 1;
    }
    proof {
        assert(lines@.take(lines@.len() as int) =~= lines@);
    }
    if rows.len() > 0 {
        rows.push(
            AccountTableBookingRow {
                booking_time: now,
                is_credit: credit,
                is_saldo: true,
                title: if credit {
                    String::from_str("Credit")
                } else {
                    String::from_str("Debit")
                },
                amount_cents: balance_amount,
            },
        );
    }
    rows
}

/// The position of the first balance of the account.
fn find_balance(balances: &Vec<crate::datatypes::AccountBalanceInfo>, id: u128) -> (r: Option<usize>)
    ensures
        match r {
            Some(p) => p < balances@.len() && balances@[p as int].account_id == id,
            None => forall|q: int| 0 <= q < balances@.len() ==> #[trigger] balances@[q].account_id != id,
        },
{
    let mut p: usize = 0;
    while p < balances.len()
        invariant
            p <= balances.len(),
            forall|q: int| 0 <= q < p ==> #[trigger] balances@[q].account_id != id,
        decreases balances.len() - p,
    {
        if balances[p].account_id == id {
            return Some(p);
        }
        p = p + 1;
    }
    None
}

/// The account tables of the user at `now`, for the listed accounts (all
/// accounts without a list).
pub fn account_tables_at(
    booking_handler: &FinanceBookingHandle,
    config_handle: &FinanceAccountingConfigHandle,
    db: &InMemoryDatabaseData,
    limit_account_ids: Option<&Vec<u128>>,
    now: i64,
) -> (r: Result<Vec<AccountTableTemplate>, String>)
    requires
        booking_handler.user() == config_handle.user(),
        tables_fit(db@, config_handle.user(), limit_view(limit_account_ids)),
    ensures
        account_tables_outcome(db@, config_handle.user(), limit_view(limit_account_ids), now, r),
{
    let ghost u = config_handle.user();
    let account_info_list = match config_handle.finance_account_list_async(db, limit_account_ids) {
        Err(e) => {
            return Err(e);
        },
        Ok(v) => v,
    };
    let ghost i = user_position(db@, u)->0;
    proof {
        lemma_first_index(db@.len() as int, crate::in_memory_database::is_user_entry(db@, u));
    }
    let account_ids_vec = collect_ids(&account_info_list);
    let ids_for_saldo = account_ids_vec.clone();
    proof {
        assert(ids_for_saldo@ =~= account_ids_vec@);
    }
    let saldo_info_result = booking_handler.finance_get_last_saldo_account_entries(db, Some(ids_for_saldo));
    let balance_info_result = booking_handler.calculate_balance_info(db, &account_ids_vec);
    let balance_info = match balance_info_result {
        Err(e) => {
            proof {
                let ids = account_ids_vec@;
                let opts = balance_options(ids, saldo_map(db@[i].booking_entries, ids));
                if ids.len() > 0 {
                    lemma_limited_accounts_listed(db@[i].accounts, limit_view(limit_account_ids));
                    lemma_first_unavailable_option(opts, db@[i].accounts);
                    if first_unavailable_option(opts, db@[i].accounts) is Some {
                        let k = first_unavailable_option(opts, db@[i].accounts)->0;
                        assert(opts[k].finance_account_id == ids[k]);
                        assert(ids[k] == account_info_list@[k].id);
                        assert(account_listed(db@[i].accounts, account_info_list@[k].id));
                    }
                }
            }
            return Err(e);
        },
        Ok(b) => b,
    };
    let saldo_info = match saldo_info_result {
        Err(e) => {
            return Err(e);
        },
        Ok(s) => s,
    };
    let search_options = balance_search_options(&account_ids_vec, &saldo_info);
    let ghost opts = search_options@;
    proof {
        assert(options_ordered(opts)) by {
            assert forall|k: int| 0 <= k < opts.len() implies window_is_ordered(
                #[trigger] opts[k].booking_time_from,
                opts[k].booking_time_till,
            ) by {
                assert(opts[k] == crate::accounting_logic::balance_option(saldo_info@, account_ids_vec@[k]));
            }
        }
        lemma_limited_accounts_listed(db@[i].accounts, limit_view(limit_account_ids));
        lemma_first_unavailable_option(opts, db@[i].accounts);
        if first_unavailable_option(opts, db@[i].accounts) is Some {
            let k = first_unavailable_option(opts, db@[i].accounts)->0;
            assert(opts[k] == crate::accounting_logic::balance_option(saldo_info@, account_ids_vec@[k]));
            assert(account_ids_vec@[k] == account_info_list@[k].id);
            assert(account_listed(db@[i].accounts, account_info_list@[k].id));
        }
    }
    let booking_info = match booking_handler.list_account_booking_entries_multi(db, search_options) {
        Err(e) => {
            return Err(e);
        },
        Ok(v) => v,
    };
    let ghost lines = balance_lines(db@[i], account_ids_vec@);
    assert(booking_info@ == lines);
    assert(balance_info@ == balances_of(lines, account_ids_vec@));
    let mut return_list: Vec<AccountTableTemplate> = Vec::new();
    let mut k: usize = 0;
    while k < account_info_list.len()
        invariant
            k <= account_info_list.len(),
            account_ids_vec@ == account_ids(account_info_list@),
            booking_info@ == lines,
            balance_info@ == balances_of(lines, account_ids_vec@),
            return_list@.len() == k,
            forall|j: int| 0 <= j < k ==> table_shows(#[trigger] return_list@[j], account_info_list@[j], lines, now),
        decreases account_info_list.len() - k,
    {
        let acc = &account_info_list[k];
        let p = match find_balance(&balance_info, acc.id) {
            Some(p) => p,
            None => {
                proof {
                    assert(balance_info@[k as int] == balance_of(lines, account_ids_vec@[k as int]));
                    assert(balance_info@[k as int].account_id == account_info_list@[k as int].id);
                }
                return Err(concat2("no balance information for account ", acc.title.as_str()));
            },
        };
        let info = &balance_info[p];
        proof {
            assert(balance_info@[p as int] == balance_of(lines, account_ids_vec@[p as int]));
            assert(*info == balance_of(lines, acc.id));
        }
        let credit = match info.balance_type {
            AccountBalanceType::Credit => true,
            AccountBalanceType::Debit => false,
        };
        let rows = account_rows(&booking_info, acc.id, credit, info.amount, now);
        return_list.push(AccountTableTemplate { account_name: acc.title.clone(), booking_rows: rows });
        k = k + 1;
    }
    Ok(return_list)
}

/// The account tables of the user, with the balances dated now.
pub fn generate_account_tables(
    booking_handler: &FinanceBookingHandle,
    config_handle: &FinanceAccountingConfigHandle,
    db: &InMemoryDatabaseData,
    limit_account_ids: Option<&Vec<u128>>,
) -> (r: Result<Vec<AccountTableTemplate>, String>)
    requires
        booking_handler.user() == config_handle.user(),
        tables_fit(db@, config_handle.user(), limit_view(limit_account_ids)),
    ensures
        exists|now: i64| account_tables_outcome(db@, config_handle.user(), limit_view(limit_account_ids), now, r),
{
    let now = now_millis();
    account_tables_at(booking_handler, config_handle, db, limit_account_ids, now)
}

/// Whether entry `k` of the account list has the id.
pub open spec fn account_with_id(accounts: Seq<FinanceAccount>, id: u128) -> spec_fn(int) -> bool {
    |k: int| accounts[k].id == id
}

/// The title of the first account with the id, or "unkown account".
pub open spec fn account_name_for(accounts: Seq<FinanceAccount>, id: u128) -> Seq<char> {
    match first_index(accounts.len() as int, account_with_id(accounts, id)) {
        Some(k) => accounts[k].title@,
        None => "unkown account"@,
    }
}

/// Finds the title of the first account with the id.
fn find_account_name(accounts: &Vec<FinanceAccount>, id: u128) -> (r: String)
    ensures
        r@ == account_name_for(accounts@, id),
{
    let ghost p = account_with_id(accounts@, id);
    let mut k: usize = 0;
    while k < accounts.len()
        invariant
            k <= accounts.len(),
            p == account_with_id(accounts@, id),
            forall|j: int| 0 <= j < k ==> !#[trigger] p(j),
        decreases accounts.len() - k,
    {
        if accounts[k].id == id {
            proof {
                lemma_first_index_is(accounts@.len() as int, p, k as int);
            }
            return accounts[k].title.clone();
        }
        k = k + 1;
    }
    proof {
        lemma_first_index(accounts@.len() as int, p);
    }
    String::from_str("unkown account")
}

/// Whether a review row shows a journal entry, naming its accounts.
pub open spec fn row_shows_entry(r: JournalTableRow, e: FinanceJournalEntry, accounts: Seq<FinanceAccount>) -> bool {
    &&& r.id@ == spec_uuid_text(e.id)
    &&& r.booking_time == e.booking_time
    &&& r.is_simple_entry == e.is_simple_entry
    &&& r.is_saldo == e.is_saldo
    &&& r.credit_account_name@ == account_name_for(accounts, e.credit_finance_account_id)
    &&& r.debit_account_name@ == account_name_for(accounts, e.debit_finance_account_id)
    &&& r.title@ == e.title@
    &&& r.description@ == e.description@
    &&& r.amount_cents == e.amount
    &&& r.running_number == e.running_number as i64
}

/// The journal review of the user: an unknown user is refused; otherwise
/// one row per journal entry, in order.
pub open spec fn review_outcome(
    db: Seq<UserLedgerView>,
    u: u128,
    r: Result<Vec<JournalTableRow>, String>,
) -> bool {
    match user_position(db, u) {
        None => fails_with(r, user_not_found_message()),
        Some(i) => {
            let js = journal_in_window(db[i].journal_entries, None, None);
            r matches Ok(rows) && rows@.len() == js.len() && forall|k: int|
                0 <= k < js.len() ==> row_shows_entry(#[trigger] rows@[k], js[k], db[i].accounts)
        },
    }
}

/// The journal review of the user: every journal entry with the names of
/// its accounts.
pub fn generate_review_journal_entries(
    booking_handler: &FinanceBookingHandle,
    config_handle: &FinanceAccountingConfigHandle,
    db: &InMemoryDatabaseData,
) -> (r: Result<Vec<JournalTableRow>, String>)
    requires
        booking_handler.user() == config_handle.user(),
    ensures
        review_outcome(db@, config_handle.user(), r),
{
    let journal_entries_result = booking_handler.list_journal_entries(db, None, None);
    let account_info_list = match config_handle.finance_account_list_async(db, None) {
        Err(e) => {
            return Err(e);
        },
        Ok(v) => v,
    };
    let journal_entries = match journal_entries_result {
        Err(e) => {
            return Err(e);
        },
        Ok(v) => v,
    };
    let ghost u = config_handle.user();
    let ghost i = user_position(db@, u)->0;
    proof {
        crate::ledger_laws::lemma_accounts_unlimited(db@[i].accounts);
    }
    let mut rows: Vec<JournalTableRow> = Vec::new();
    let mut k: usize = 0;
    while k < journal_entries.len()
        invariant
            k <= journal_entries.len(),
            rows@.len() == k,
            forall|j: int| 0 <= j < k ==> row_shows_entry(#[trigger] rows@[j], journal_entries@[j], account_info_list@),
        decreases journal_entries.len() - k,
    {
        let e = &journal_entries[k];
        rows.push(
            JournalTableRow {
                id: uuid_to_text(e.id),
                booking_time: e.booking_time,
                is_simple_entry: e.is_simple_entry,
                is_saldo: e.is_saldo,
                credit_account_name: find_account_name(&account_info_list, e.credit_finance_account_id),
                debit_account_name: find_account_name(&account_info_list, e.debit_finance_account_id),
                title: e.title.clone(),
                description: e.description.clone(),
                amount_cents: e.amount,
                running_number: e.running_number as i64,
            },
        );
        k = k + 1;
    }
    Ok(rows)
}

/// The registration e-mail's subject: the configured subject with the
/// user name filled in.
pub open spec fn registration_subject(setting: SettingStruct, user_name: Seq<char>) -> Seq<char> {
    replaced(setting.frontend_register_user_mail_info_subject@, "{{username}}"@, user_name)
}

/// The registration e-mail's body: the template with the user name, the
/// server address and the URL-encoded validation token filled in.
pub open spec fn registration_body(
    setting: SettingStruct,
    template: Seq<char>,
    user_name: Seq<char>,
    token: Seq<char>,
) -> Seq<char> {
    replaced(
        replaced(
            replaced(template, "{{username}}"@, user_name),
            "{{serveraddress}}"@,
            setting.frontend_register_user_mail_server_address@,
        ),
        "{{hashedToken}}"@,
        escape_text(token),
    )
}

/// The e-mail asking a new user to validate the address.
pub fn registration_mail(
    setting: &SettingStruct,
    user_name: &String,
    user_email: &String,
    validation_token: &String,
    body_template: &String,
) -> (r: SimpleMailData)
    ensures
        r.receiver@ == user_email@,
        r.sender@ == setting.backend_mail_smtp_mail_address@,
        r.subject@ == registration_subject(*setting, user_name@),
        r.body@ == registration_body(*setting, body_template@, user_name@, validation_token@),
{
    proof {
        reveal_strlit("{{username}}");
        reveal_strlit("{{serveraddress}}");
        reveal_strlit("{{hashedToken}}");
    }
    let subject = replace_all(setting.frontend_register_user_mail_info_subject.as_str(), "{{username}}", user_name.as_str());
    let masked = ConvertTools::escape_htmltext(validation_token);
    let body1 = replace_all(body_template.as_str(), "{{username}}", user_name.as_str());
    let body2 = replace_all(body1.as_str(), "{{serveraddress}}", setting.frontend_register_user_mail_server_address.as_str());
    let body = replace_all(body2.as_str(), "{{hashedToken}}", masked.as_str());
    SimpleMailData {
        receiver: user_email.clone(),
        sender: setting.backend_mail_smtp_mail_address.clone(),
        subject,
        body,
    }
}

/// The password reset e-mail's subject: the configured subject with the
/// user name filled in.
pub open spec fn reset_subject(setting: SettingStruct, user_name: Seq<char>) -> Seq<char> {
    replaced(setting.frontend_password_reset_mail_info_subject@, "{{username}}"@, user_name)
}

/// The password reset e-mail's body: the template with the user name, the
/// server address, the URL-encoded token, the time limit in minutes and the
/// token's expiry filled in.
pub open spec fn reset_body(
    setting: SettingStruct,
    template: Seq<char>,
    user_name: Seq<char>,
    token: PasswordResetTokenRequestResult,
) -> Seq<char> {
    replaced(
        replaced(
            replaced(
                replaced(
                    replaced(template, "{{username}}"@, user_name),
                    "{{serveraddress}}"@,
                    setting.frontend_password_reset_mail_server_address@,
                ),
                "{{resettoken}}"@,
                escape_text(token.reset_token@),
            ),
            "{{timelimit_minutes}}"@,
            nat_digits(setting.frontend_password_reset_token_time_limit_minutes as nat),
        ),
        "{{tokenexpriredatetime}}"@,
        spec_utc_display_text(token.expires_at),
    )
}

/// The e-mail carrying a password reset token to the user's address.
pub fn password_reset_mail(
    setting: &SettingStruct,
    user_name: &String,
    password_reset_token: &PasswordResetTokenRequestResult,
    body_template: &String,
) -> (r: SimpleMailData)
    ensures
        r.receiver@ == password_reset_token.user_email@,
        r.sender@ == setting.backend_mail_smtp_mail_address@,
        r.subject@ == reset_subject(*setting, user_name@),
        r.body@ == reset_body(*setting, body_template@, user_name@, *password_reset_token),
{
    proof {
        reveal_strlit("{{username}}");
        reveal_strlit("{{serveraddress}}");
        reveal_strlit("{{resettoken}}");
        reveal_strlit("{{timelimit_minutes}}");
        reveal_strlit("{{tokenexpriredatetime}}");
    }
    let subject = replace_all(setting.frontend_password_reset_mail_info_subject.as_str(), "{{username}}", user_name.as_str());
    let masked = ConvertTools::escape_htmltext(&password_reset_token.reset_token);
    let minutes = u64_decimal(setting.frontend_password_reset_token_time_limit_minutes as u64);
    let expiry = utc_display_text(password_reset_token.expires_at);
    let body1 = replace_all(body_template.as_str(), "{{username}}", user_name.as_str());
    let body2 = replace_all(body1.as_str(), "{{serveraddress}}", setting.frontend_password_reset_mail_server_address.as_str());
    let body3 = replace_all(body2.as_str(), "{{resettoken}}", masked.as_str());
    let body4 = replace_all(body3.as_str(), "{{timelimit_minutes}}", minutes.as_str());
    let body = replace_all(body4.as_str(), "{{tokenexpriredatetime}}", expiry.as_str());
    SimpleMailData {
        receiver: password_reset_token.user_email.clone(),
        sender: setting.backend_mail_smtp_mail_address.clone(),
        subject,
        body,
    }
}

/// The mail server the settings name.
pub fn smtp_mail_setting(setting: &SettingStruct) -> (r: SmtpMailSetting)
    ensures
        r.host@ == setting.backend_mail_smtp_host@,
        r.client_name@ == setting.backend_mail_smtp_user@,
        r.client_password@ == setting.backend_mail_smtp_password@,
{
    SmtpMailSetting {
        host: setting.backend_mail_smtp_host.clone(),
        client_name: setting.backend_mail_smtp_user.clone(),
        client_password: setting.backend_mail_smtp_password.clone(),
    }
}

/// Whether an address may be registered, from the format check: a failed
/// check and an invalid address are refused with the address named.
pub fn registration_email_check(user_email: &String, check: &Result<bool, String>) -> (r: Result<(), String>)
    ensures
        match check {
            Err(e) => fails_with(r, "Error while validating email "@ + user_email@ + ": "@ + e@),
            Ok(false) => fails_with(r, "email "@ + user_email@ + " is not valid"@),
            Ok(true) => r is Ok,
        },
{
    match check {
        Err(e) => {
            let head = crate::text::concat3("Error while validating email ", user_email.as_str(), ": ");
            Err(concat2(head.as_str(), e.as_str()))
        },
        Ok(false) => Err(crate::text::concat3("email ", user_email.as_str(), " is not valid")),
        Ok(true) => Ok(()),
    }
}

} // verus!
