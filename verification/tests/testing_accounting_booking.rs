use finance_overview::accounting_config_logic::FinanceAccountingConfigHandle;
use finance_overview::accounting_database::{
    check_booking_accounts, check_single_account_available, FinanceAccountBookingEntryListSearchOption,
};
use finance_overview::accounting_logic::FinanceBookingHandle;
use finance_overview::database_handler_mongodb::DbConnectionSetting;
use finance_overview::datatypes::{
    AccountBalanceInfo, AccountBalanceType, BookingEntryType, FinanceAccount, FinanceAccountType,
    FinanceBookingRequest, FinanceBookingResult,
};
use finance_overview::in_memory_database::InMemoryDatabaseData;
fn new_uuid() -> u128 {
    uuid::Uuid::new_v4().as_u128()
}

const DAY: i64 = 86_400_000;
// 2024-01-01 10:15:25 UTC
const BOOKING_TIME_1: i64 = 1_704_104_125_000;

fn dummy_connection_settings() -> DbConnectionSetting {
    DbConnectionSetting { instance: "".into(), password: "".into(), url: "".into(), user: "".into() }
}

fn check_entry_response_match_entry_request(request: &FinanceBookingRequest, result: &FinanceBookingResult) -> String {
    let j = &result.journal_entry;
    if j.is_simple_entry != request.is_simple_entry
        || j.is_saldo != request.is_saldo
        || j.debit_finance_account_id != request.debit_finance_account_id
        || j.credit_finance_account_id != request.credit_finance_account_id
        || j.booking_time != request.booking_time
        || j.amount != request.amount
        || j.title != request.title
        || j.description != request.description
    {
        return "journal entry does not match request".into();
    }
    let c = &result.credit_account_entry;
    let d = &result.debit_account_entry;
    if c.finance_account_id != request.credit_finance_account_id || d.finance_account_id != request.debit_finance_account_id {
        return "accounts do not match".into();
    }
    if c.finance_journal_diary_id != j.id || d.finance_journal_diary_id != j.id {
        return "lines do not belong to journal entry".into();
    }
    if c.amount != request.amount || d.amount != request.amount {
        return "amounts do not match".into();
    }
    let (ct, dt) = if request.is_saldo {
        (BookingEntryType::SaldoCredit, BookingEntryType::SaldoDebit)
    } else {
        (BookingEntryType::Credit, BookingEntryType::Debit)
    };
    if c.booking_type != ct || d.booking_type != dt {
        return "booking types do not match".into();
    }
    "".into()
}

fn check_balance_account_info(
    info: &AccountBalanceInfo,
    account_id: &u128,
    amount: &u64,
    balance_type: &AccountBalanceType,
) -> String {
    if info.account_id != *account_id {
        return "account id does not match".into();
    }
    if info.amount != *amount {
        return format!("amount {} does not match {}", info.amount, amount);
    }
    if info.balance_type != *balance_type {
        return "balance type does not match".into();
    }
    "".into()
}

fn request(debit: u128, credit: u128, time: i64, amount: u64, title: &str, saldo: bool) -> FinanceBookingRequest {
    FinanceBookingRequest {
        is_simple_entry: true,
        is_saldo: saldo,
        debit_finance_account_id: debit,
        credit_finance_account_id: credit,
        booking_time: time,
        amount,
        title: title.into(),
        description: format!("description_{}", title),
    }
}

/// One user with an account type and `n` accounts of it.
fn prepared_user(db: &mut InMemoryDatabaseData, settings: &DbConnectionSetting, user: &u128, n: usize) -> Vec<FinanceAccount> {
    let _ = db.insert_in_memory_database(vec![InMemoryDatabaseData::create_in_memory_database_entry_object(user)]);
    let mut config = FinanceAccountingConfigHandle::new(settings, user);
    let mut t = FinanceAccountType { id: new_uuid(), title: "T".into(), description: "type".into() };
    assert!(config.finance_account_type_upsert(db, &mut t).is_ok());
    let mut accounts = Vec::new();
    for k in 0..n {
        let a = FinanceAccount {
            id: new_uuid(),
            finance_account_type_id: t.id,
            title: format!("account_{}", k),
            description: format!("description_{}", k),
        };
        assert!(config.finance_account_upsert(db, &a).is_ok());
        accounts.push(a);
    }
    accounts
}

#[test]
fn test_accounting_booking_calculate_with_mock() {
    let dummy_connection_settings = dummy_connection_settings();
    let user_id_1 = new_uuid();
    let mut db = InMemoryDatabaseData::new();
    let entry_object1 = InMemoryDatabaseData::create_in_memory_database_entry_object(&user_id_1);
    let _insert_result = db.insert_in_memory_database(Vec::from([entry_object1]));
    let mut account_handle_1 = FinanceAccountingConfigHandle::new(&dummy_connection_settings, &user_id_1);
    let booking_handle_1 = FinanceBookingHandle::new(&dummy_connection_settings, &user_id_1);

    let mut finance_account_type_1_1 = FinanceAccountType {
        description: "SomeTypeDescription_1_1".to_string(),
        title: "SomeType_1_1".to_string(),
        id: new_uuid(),
    };
    let mut finance_account_type_1_2 = FinanceAccountType {
        description: "SomeTypeDescription_1_1".to_string(),
        title: "SomeType_1_2".to_string(),
        id: new_uuid(),
    };
    let insert_finance_account_type_1_1_result = account_handle_1.finance_account_type_upsert(&mut db, &mut finance_account_type_1_1);
    let insert_finance_account_type_1_2_result = account_handle_1.finance_account_type_upsert(&mut db, &mut finance_account_type_1_2);
    let finance_account_1_1 = FinanceAccount {
        id: new_uuid(),
        finance_account_type_id: finance_account_type_1_1.id,
        title: "account_1_1".into(),
        description: "description_1_1".into(),
    };
    let finance_account_1_2 = FinanceAccount {
        id: new_uuid(),
        finance_account_type_id: finance_account_type_1_2.id,
        title: "account_1_2".into(),
        description: "description_1_2".into(),
    };
    let finance_account_1_3 = FinanceAccount {
        id: new_uuid(),
        finance_account_type_id: finance_account_type_1_2.id,
        title: "account_1_3".into(),
        description: "description_1_3".into(),
    };
    let insert_finance_account_1_1_result = account_handle_1.finance_account_upsert(&mut db, &finance_account_1_1);
    let insert_finance_account_1_2_result = account_handle_1.finance_account_upsert(&mut db, &finance_account_1_2);
    let insert_finance_account_1_3_result = account_handle_1.finance_account_upsert(&mut db, &finance_account_1_3);
    assert!(insert_finance_account_type_1_1_result.is_ok());
    assert!(insert_finance_account_type_1_2_result.is_ok());
    assert!(insert_finance_account_1_1_result.is_ok());
    assert!(insert_finance_account_1_2_result.is_ok());
    assert!(insert_finance_account_1_3_result.is_ok());

    let amount_1: u64 = 17;
    let amount_2: u64 = 23;
    let amount_3: u64 = 41;
    let booking_time_1 = BOOKING_TIME_1;
    let booking_time_2 = booking_time_1 + DAY;
    let booking_time_3 = booking_time_2 + DAY;
    let finance_booking_request_1_1 = FinanceBookingRequest {
        is_simple_entry: true,
        is_saldo: false,
        debit_finance_account_id: finance_account_1_1.id,
        credit_finance_account_id: finance_account_1_2.id,
        booking_time: booking_time_1,
        amount: amount_1,
        title: "f_b_r_1_1".into(),
        description: "description_f_b_r_1_1".into(),
    };
    let finance_booking_request_1_2 = FinanceBookingRequest {
        is_simple_entry: true,
        is_saldo: false,
        debit_finance_account_id: finance_account_1_1.id,
        credit_finance_account_id: finance_account_1_3.id,
        booking_time: booking_time_2,
        amount: amount_2,
        title: "f_b_r_1_2".into(),
        description: "description_f_b_r_1_2".into(),
    };
    let finance_booking_request_1_3 = FinanceBookingRequest {
        is_simple_entry: true,
        is_saldo: false,
        debit_finance_account_id: finance_account_1_2.id,
        credit_finance_account_id: finance_account_1_3.id,
        booking_time: booking_time_3,
        amount: amount_3,
        title: "f_b_r_1_3".into(),
        description: "description_f_b_r_1_3".into(),
    };
    let account_1_running_saldo_amount = amount_1 + amount_2;
    let account_1_running_saldo_type = AccountBalanceType::Debit;
    let account_2_running_saldo_amount = amount_1.abs_diff(amount_3);
    let account_2_running_saldo_type = AccountBalanceType::Debit;
    let account_3_running_saldo_amount = amount_2 + amount_3;
    let account_3_running_saldo_type = AccountBalanceType::Credit;

    let insert_finance_booking_request_1_1_result = booking_handle_1.finance_insert_booking_entry(&mut db, &finance_booking_request_1_1);
    let insert_finance_booking_request_1_2_result = booking_handle_1.finance_insert_booking_entry(&mut db, &finance_booking_request_1_2);
    let insert_finance_booking_request_1_3_result = booking_handle_1.finance_insert_booking_entry(&mut db, &finance_booking_request_1_3);
    assert!(insert_finance_booking_request_1_1_result.is_ok());
    assert!(insert_finance_booking_request_1_2_result.is_ok());
    assert!(insert_finance_booking_request_1_3_result.is_ok());

    let balance_account_1_result = booking_handle_1.calculate_balance_info(&db, &vec![finance_account_1_1.id]);
    let balance_account_2_result = booking_handle_1.calculate_balance_info(&db, &vec![finance_account_1_2.id]);
    let balance_account_3_result = booking_handle_1.calculate_balance_info(&db, &vec![finance_account_1_3.id]);
    assert!(balance_account_1_result.is_ok());
    assert!(balance_account_2_result.is_ok());
    assert!(balance_account_3_result.is_ok());
    assert_eq!(
        check_entry_response_match_entry_request(&finance_booking_request_1_1, &insert_finance_booking_request_1_1_result.unwrap()),
        ""
    );
    assert_eq!(
        check_entry_response_match_entry_request(&finance_booking_request_1_2, &insert_finance_booking_request_1_2_result.unwrap()),
        ""
    );
    assert_eq!(
        check_entry_response_match_entry_request(&finance_booking_request_1_3, &insert_finance_booking_request_1_3_result.unwrap()),
        ""
    );
    let balance_account_1_info = balance_account_1_result.unwrap();
    let balance_account_2_info = balance_account_2_result.unwrap();
    let balance_account_3_info = balance_account_3_result.unwrap();
    assert_eq!(balance_account_1_info.len(), 1);
    assert_eq!(balance_account_2_info.len(), 1);
    assert_eq!(balance_account_3_info.len(), 1);
    assert_eq!(
        check_balance_account_info(&balance_account_1_info[0], &finance_account_1_1.id, &account_1_running_saldo_amount, &account_1_running_saldo_type),
        ""
    );
    assert_eq!(
        check_balance_account_info(&balance_account_2_info[0], &finance_account_1_2.id, &account_2_running_saldo_amount, &account_2_running_saldo_type),
        ""
    );
    assert_eq!(
        check_balance_account_info(&balance_account_3_info[0], &finance_account_1_3.id, &account_3_running_saldo_amount, &account_3_running_saldo_type),
        ""
    );
}

#[test]
fn bookings_are_kept_per_user() {
    let settings = dummy_connection_settings();
    let mut db = InMemoryDatabaseData::new();
    let user_1 = new_uuid();
    let user_2 = new_uuid();
    let user_3 = new_uuid();
    let accounts_1 = prepared_user(&mut db, &settings, &user_1, 2);
    let accounts_2 = prepared_user(&mut db, &settings, &user_2, 3);
    let booking_1 = FinanceBookingHandle::new(&settings, &user_1);
    let booking_2 = FinanceBookingHandle::new(&settings, &user_2);
    let booking_3 = FinanceBookingHandle::new(&settings, &user_3);

    let r_1_1 = request(accounts_1[0].id, accounts_1[1].id, BOOKING_TIME_1, 100, "f_b_r_1_1", false);
    let r_1_2 = request(accounts_1[1].id, accounts_1[0].id, BOOKING_TIME_1 + DAY, 101, "f_b_r_1_2", false);
    let r_2_1 = request(accounts_2[0].id, accounts_2[1].id, BOOKING_TIME_1 + 2 * DAY, 100, "f_b_r_2_1", false);
    let r_2_2 = request(accounts_2[1].id, accounts_2[2].id, BOOKING_TIME_1 + 3 * DAY, 101, "f_b_r_2_2", false);
    let r_3_1 = request(accounts_1[0].id, accounts_1[1].id, BOOKING_TIME_1 + 5 * DAY, 100, "f_b_r_3_1", false);

    let res_1_1 = booking_1.finance_insert_booking_entry(&mut db, &r_1_1).unwrap();
    let res_1_2 = booking_1.finance_insert_booking_entry(&mut db, &r_1_2).unwrap();
    assert!(booking_2.finance_insert_booking_entry(&mut db, &r_2_1).is_ok());
    assert!(booking_2.finance_insert_booking_entry(&mut db, &r_2_2).is_ok());
    let err_3 = booking_3.finance_insert_booking_entry(&mut db, &r_3_1).unwrap_err();
    assert_eq!(err_3, "Error checking already existing entries: User not found");

    assert_eq!(res_1_1.journal_entry.running_number, 1);
    assert_eq!(res_1_2.journal_entry.running_number, 2);

    let journal_1 = booking_1.list_journal_entries(&db, None, None).unwrap();
    let journal_2 = booking_2.list_journal_entries(&db, None, None).unwrap();
    assert_eq!(journal_1.len(), 2);
    assert_eq!(journal_2.len(), 2);
    assert!(journal_1.iter().all(|j| j.title.starts_with("f_b_r_1")));
    assert!(journal_2.iter().all(|j| j.title.starts_with("f_b_r_2")));

    // an account of another user is not available
    let foreign = request(accounts_2[0].id, accounts_1[0].id, BOOKING_TIME_1 + 9 * DAY, 5, "x", false);
    assert_eq!(booking_1.finance_insert_booking_entry(&mut db, &foreign).unwrap_err(), "debit account is not available");
    let foreign_2 = request(accounts_1[0].id, accounts_2[0].id, BOOKING_TIME_1 + 9 * DAY, 5, "x", false);
    assert_eq!(booking_1.finance_insert_booking_entry(&mut db, &foreign_2).unwrap_err(), "credit account is not available");
    let lines = booking_1.list_account_booking_entries(&db, &accounts_2[0].id, None, None);
    assert!(lines.unwrap_err().contains("not avaiable"));
}

#[test]
fn second_booking_at_same_time_is_refused() {
    let settings = dummy_connection_settings();
    let mut db = InMemoryDatabaseData::new();
    let user = new_uuid();
    let accounts = prepared_user(&mut db, &settings, &user, 3);
    let booking = FinanceBookingHandle::new(&settings, &user);
    let first = request(accounts[0].id, accounts[1].id, BOOKING_TIME_1, 10, "a", false);
    assert!(booking.finance_insert_booking_entry(&mut db, &first).is_ok());
    let same_credit = request(accounts[2].id, accounts[1].id, BOOKING_TIME_1, 10, "b", false);
    assert_eq!(
        booking.finance_insert_booking_entry(&mut db, &same_credit).unwrap_err(),
        "Could not perform request: there is already an entry for credit account at specified booking time"
    );
    let same_debit = request(accounts[0].id, accounts[2].id, BOOKING_TIME_1, 10, "c", false);
    assert_eq!(
        booking.finance_insert_booking_entry(&mut db, &same_debit).unwrap_err(),
        "Could not perform request: there is already an entry for debit account at specified booking time"
    );
    assert_eq!(booking.list_journal_entries(&db, None, None).unwrap().len(), 1);
}

#[test]
fn saldo_closes_earlier_bookings() {
    let settings = dummy_connection_settings();
    let mut db = InMemoryDatabaseData::new();
    let user = new_uuid();
    let accounts = prepared_user(&mut db, &settings, &user, 3);
    let booking = FinanceBookingHandle::new(&settings, &user);
    let saldo = request(accounts[0].id, accounts[1].id, BOOKING_TIME_1 + 10 * DAY, 50, "saldo", true);
    let res = booking.finance_insert_booking_entry(&mut db, &saldo).unwrap();
    assert_eq!(res.credit_account_entry.booking_type, BookingEntryType::SaldoCredit);
    assert_eq!(res.debit_account_entry.booking_type, BookingEntryType::SaldoDebit);

    let before_credit = request(accounts[2].id, accounts[1].id, BOOKING_TIME_1 + 9 * DAY, 5, "early", false);
    let err = booking.finance_insert_booking_entry(&mut db, &before_credit).unwrap_err();
    assert_eq!(err, "Can not insert before saldo of credit account");
    let before_debit = request(accounts[0].id, accounts[2].id, BOOKING_TIME_1 + 9 * DAY, 5, "early", false);
    assert_eq!(booking.finance_insert_booking_entry(&mut db, &before_debit).unwrap_err(), "Can not insert before saldo of debit account");
    let after = request(accounts[2].id, accounts[1].id, BOOKING_TIME_1 + 11 * DAY, 5, "late", false);
    assert!(booking.finance_insert_booking_entry(&mut db, &after).is_ok());

    let saldos = booking.finance_get_last_saldo_account_entries(&db, None).unwrap();
    assert_eq!(saldos.len(), 2);
    assert_eq!(saldos[&accounts[0].id].booking_time, BOOKING_TIME_1 + 10 * DAY);

    // the balance counts the saldo line and what came after it
    let balances = booking.calculate_balance_info(&db, &vec![accounts[1].id]).unwrap();
    assert_eq!(balances[0].amount, 55);
    assert_eq!(balances[0].balance_type, AccountBalanceType::Credit);
}

#[test]
fn empty_and_reversed_queries_are_refused() {
    let settings = dummy_connection_settings();
    let mut db = InMemoryDatabaseData::new();
    let user = new_uuid();
    let accounts = prepared_user(&mut db, &settings, &user, 1);
    let booking = FinanceBookingHandle::new(&settings, &user);
    assert_eq!(
        booking.list_account_booking_entries_multi(&db, vec![]).unwrap_err(),
        "could not query because search options is empty"
    );
    let reversed = FinanceAccountBookingEntryListSearchOption::new(&accounts[0].id, Some(10), Some(5));
    assert_eq!(
        booking.list_account_booking_entries_multi(&db, vec![reversed]).unwrap_err(),
        "could not query because booking_time_from is after booking_time_till"
    );
    assert_eq!(
        booking.list_journal_entries(&db, Some(10), Some(5)).unwrap_err(),
        "could not query because booking_time_from is after booking_time_till"
    );
    assert_eq!(
        booking.calculate_balance_info(&db, &vec![]).unwrap_err(),
        "Error getting multi booking entries: could not query because search options is empty"
    );
}

#[test]
fn journal_window_is_inclusive() {
    let settings = dummy_connection_settings();
    let mut db = InMemoryDatabaseData::new();
    let user = new_uuid();
    let accounts = prepared_user(&mut db, &settings, &user, 2);
    let booking = FinanceBookingHandle::new(&settings, &user);
    for k in 0..3 {
        let r = request(accounts[0].id, accounts[1].id, BOOKING_TIME_1 + k * DAY, 1, "w", false);
        assert!(booking.finance_insert_booking_entry(&mut db, &r).is_ok());
    }
    let inside = booking.list_journal_entries(&db, Some(BOOKING_TIME_1 + DAY), Some(BOOKING_TIME_1 + 2 * DAY)).unwrap();
    assert_eq!(inside.len(), 2);
    let lines = booking.list_account_booking_entries(&db, &accounts[0].id, Some(BOOKING_TIME_1), Some(BOOKING_TIME_1)).unwrap();
    assert_eq!(lines.len(), 1);
    assert_eq!(lines[0].booking_type, BookingEntryType::Debit);
}

#[test]
fn booking_accounts_must_be_the_users() {
    let accounts = vec![
        FinanceAccount { id: 1, finance_account_type_id: 7, title: "a".into(), description: "".into() },
        FinanceAccount { id: 2, finance_account_type_id: 7, title: "b".into(), description: "".into() },
    ];
    assert_eq!(check_booking_accounts(&accounts, &request(1, 2, 0, 5, "ok", false)), Ok(()));
    assert_eq!(check_booking_accounts(&accounts, &request(1, 3, 0, 5, "c", false)).unwrap_err(), "credit account is not available");
    assert_eq!(check_booking_accounts(&accounts, &request(3, 2, 0, 5, "d", false)).unwrap_err(), "debit account is not available");
    assert_eq!(check_booking_accounts(&accounts, &request(4, 3, 0, 5, "e", false)).unwrap_err(), "credit account is not available");
    assert_eq!(
        check_booking_accounts(&accounts, &request(1, 1, 0, 5, "f", false)).unwrap_err(),
        "credit and debit account must not be the same account"
    );
}

#[test]
fn same_account_booking_is_refused() {
    let settings = dummy_connection_settings();
    let user = new_uuid();
    let mut db = InMemoryDatabaseData::new();
    let accounts = prepared_user(&mut db, &settings, &user, 2);
    let handle = FinanceBookingHandle::new(&settings, &user);
    let a = accounts[0].id;
    let refused = handle.finance_insert_booking_entry(&mut db, &request(a, a, BOOKING_TIME_1, 23, "A to A", false));
    assert_eq!(refused.unwrap_err(), "credit and debit account must not be the same account");
    assert_eq!(handle.list_journal_entries(&db, None, None).unwrap().len(), 0);
    let store_refused = db.finance_insert_booking_entry(&settings, &user, request(a, a, BOOKING_TIME_1, 23, "A to A", false));
    assert!(store_refused.is_err());
    assert!(handle.finance_insert_booking_entry(&mut db, &request(a, accounts[1].id, BOOKING_TIME_1, 23, "A to B", false)).is_ok());
}

#[test]
fn booking_moves_balances_by_its_amount() {
    let settings = dummy_connection_settings();
    let user = new_uuid();
    let mut db = InMemoryDatabaseData::new();
    let accounts = prepared_user(&mut db, &settings, &user, 3);
    let handle = FinanceBookingHandle::new(&settings, &user);
    let ids: Vec<u128> = accounts.iter().map(|a| a.id).collect();
    let (a, d, other) = (ids[0], ids[1], ids[2]);
    assert!(handle.finance_insert_booking_entry(&mut db, &request(a, other, BOOKING_TIME_1, 40, "first", false)).is_ok());
    let signed = |b: &AccountBalanceInfo| -> i128 {
        if b.balance_type == AccountBalanceType::Credit { b.amount as i128 } else { -(b.amount as i128) }
    };
    let before = handle.calculate_balance_info(&db, &ids).unwrap();
    assert!(handle.finance_insert_booking_entry(&mut db, &request(d, a, BOOKING_TIME_1 + DAY, 15, "second", false)).is_ok());
    let after = handle.calculate_balance_info(&db, &ids).unwrap();
    assert_eq!(signed(&after[0]), signed(&before[0]) + 15);
    assert_eq!(signed(&after[1]), signed(&before[1]) - 15);
    assert_eq!(signed(&after[2]), signed(&before[2]));
}

#[test]
fn single_account_listing_needs_one_of_the_users_accounts() {
    let accounts = vec![FinanceAccount {
        id: 7,
        finance_account_type_id: 1,
        title: "cash".into(),
        description: "".into(),
    }];
    assert_eq!(check_single_account_available(&accounts, 7), Ok(()));
    assert_eq!(check_single_account_available(&accounts, 8), Err("account not avaiable".to_string()));
    assert_eq!(check_single_account_available(&Vec::new(), 7), Err("account not avaiable".to_string()));
}
