use finance_overview::accounting_config_logic::FinanceAccountingConfigHandle;
use finance_overview::accounting_database::FinanceAccountBookingEntryListSearchOption;
use finance_overview::accounting_logic::FinanceBookingHandle;
use finance_overview::database_handler_mongodb::DbConnectionSetting;
use finance_overview::datatypes::{
    BookingEntryType, FinanceAccount, FinanceAccountBookingEntry, FinanceAccountType, FinanceBookingRequest,
    FinanceBookingResult, FinanceJournalEntry,
};
use finance_overview::in_memory_database::InMemoryDatabaseData;

fn new_uuid() -> u128 {
    uuid::Uuid::new_v4().as_u128()
}

const SECOND: i64 = 1_000;
const HOUR: i64 = 3_600_000;
const DAY: i64 = 86_400_000;
// 2024-01-01 10:15:25 UTC
const FIRST_BOOKING_TIME: i64 = 1_704_104_125_000;

fn booking_types(request: &FinanceBookingRequest) -> (BookingEntryType, BookingEntryType) {
    if request.is_saldo {
        (BookingEntryType::SaldoCredit, BookingEntryType::SaldoDebit)
    } else {
        (BookingEntryType::Credit, BookingEntryType::Debit)
    }
}

fn check_entry_response_match_entry_request(request: &FinanceBookingRequest, response: &FinanceBookingResult) -> String {
    let (credit_type, debit_type) = booking_types(request);
    let j = &response.journal_entry;
    if j.amount != request.amount
        || j.booking_time != request.booking_time
        || j.credit_finance_account_id != request.credit_finance_account_id
        || j.debit_finance_account_id != request.debit_finance_account_id
        || j.is_saldo != request.is_saldo
        || j.is_simple_entry != request.is_simple_entry
        || j.description != request.description
        || j.title != request.title
    {
        return "journal entry does not match".into();
    }
    for (line, account, kind) in [
        (&response.credit_account_entry, request.credit_finance_account_id, credit_type),
        (&response.debit_account_entry, request.debit_finance_account_id, debit_type),
    ] {
        if line.finance_account_id != account
            || line.finance_journal_diary_id != j.id
            || line.amount != request.amount
            || line.booking_time != request.booking_time
            || line.booking_type != kind
            || line.description != request.description
            || line.title != request.title
        {
            return "account entry does not match".into();
        }
    }
    "".into()
}

fn check_journal_listing_contains_booking_request(list_to_check: &Vec<FinanceJournalEntry>, element: &FinanceBookingRequest) -> bool {
    match list_to_check.iter().position(|e| {
        e.booking_time == element.booking_time
            && e.credit_finance_account_id == element.credit_finance_account_id
            && e.debit_finance_account_id == element.debit_finance_account_id
    }) {
        Some(p) => {
            let e = &list_to_check[p];
            e.amount == element.amount
                && e.is_saldo == element.is_saldo
                && e.is_simple_entry == element.is_simple_entry
                && e.description == element.description
                && e.title == element.title
        }
        None => false,
    }
}

fn check_account_listing_contains_booking_request(list_to_check: &Vec<FinanceAccountBookingEntry>, element: &FinanceBookingRequest) -> String {
    let position = list_to_check.iter().position(|e| {
        e.booking_time == element.booking_time
            && (e.finance_account_id == element.credit_finance_account_id || e.finance_account_id == element.debit_finance_account_id)
    });
    let p = match position {
        None => return "no entry for booking time found".into(),
        Some(p) => p,
    };
    let (credit_type, debit_type) = booking_types(element);
    let required = if list_to_check[p].finance_account_id == element.credit_finance_account_id { credit_type } else { debit_type };
    if list_to_check[p].amount != element.amount {
        return "amount does not match".into();
    }
    if list_to_check[p].booking_type != required {
        return "booking_type does not match".into();
    }
    if list_to_check[p].description != element.description {
        return "description does not match".into();
    }
    if list_to_check[p].title != element.title {
        return "title does not match".into();
    }
    "".into()
}

fn get_max_running_number_from_journal_list(journal_list: &Vec<FinanceJournalEntry>) -> u64 {
    journal_list.iter().map(|e| e.running_number).max().unwrap_or(0)
}

fn booking(debit: u128, credit: u128, time: i64, amount: u64, saldo: bool, name: &str) -> FinanceBookingRequest {
    FinanceBookingRequest {
        is_simple_entry: true,
        is_saldo: saldo,
        debit_finance_account_id: debit,
        credit_finance_account_id: credit,
        booking_time: time,
        amount,
        title: name.into(),
        description: format!("description_{}", name),
    }
}

fn account(type_id: u128, name: &str) -> FinanceAccount {
    FinanceAccount { id: new_uuid(), finance_account_type_id: type_id, title: format!("account_{}", name), description: format!("description_{}", name) }
}

fn account_type(title: &str, description: &str) -> FinanceAccountType {
    FinanceAccountType { id: new_uuid(), title: title.into(), description: description.into() }
}

fn option(account_id: &u128, from: Option<i64>, till: Option<i64>) -> FinanceAccountBookingEntryListSearchOption {
    FinanceAccountBookingEntryListSearchOption::new(account_id, from, till)
}

#[test]
fn test_accounting_booking_creating_with_mock() {
    let settings = DbConnectionSetting { instance: "".into(), password: "".into(), url: "".into(), user: "".into() };
    let (user_id_1, user_id_2, user_id_3) = (new_uuid(), new_uuid(), new_uuid());
    let mut db = InMemoryDatabaseData::new();
    let _ = db.insert_in_memory_database(vec![
        InMemoryDatabaseData::create_in_memory_database_entry_object(&user_id_1),
        InMemoryDatabaseData::create_in_memory_database_entry_object(&user_id_2),
    ]);
    let mut account_handle_1 = FinanceAccountingConfigHandle::new(&settings, &user_id_1);
    let mut account_handle_2 = FinanceAccountingConfigHandle::new(&settings, &user_id_2);
    let mut account_handle_3 = FinanceAccountingConfigHandle::new(&settings, &user_id_3);
    let booking_handle_1 = FinanceBookingHandle::new(&settings, &user_id_1);
    let booking_handle_2 = FinanceBookingHandle::new(&settings, &user_id_2);
    let booking_handle_3 = FinanceBookingHandle::new(&settings, &user_id_3);

    let mut type_1_1 = account_type("SomeType_1_1", "SomeTypeDescription_1_1");
    let mut type_1_2 = account_type("SomeType_1_2", "SomeTypeDescription_1_1");
    let mut type_2_1 = account_type("SomeType_2_1", "SomeTypeDescription_1_1");
    let mut type_2_2 = account_type("SomeType_1_2", "SomeTypeDescription_1_1");
    let mut type_3_1 = account_type("SomeType_3_1", "SomeTypeDescription_3_1");
    let account_1_1 = account(type_1_1.id, "1_1");
    let account_1_2 = account(type_1_2.id, "1_2");
    let account_2_1 = account(type_2_1.id, "2_1");
    let account_2_2 = account(type_2_2.id, "2_2");
    let account_2_3 = account(type_2_2.id, "2_3");
    let account_3_1 = account(type_3_1.id, "3_1");
    let account_3_2 = account(type_3_1.id, "3_2");
    assert!(account_handle_1.finance_account_type_upsert(&mut db, &mut type_1_1).is_ok());
    assert!(account_handle_1.finance_account_type_upsert(&mut db, &mut type_1_2).is_ok());
    assert!(account_handle_2.finance_account_type_upsert(&mut db, &mut type_2_1).is_ok());
    assert!(account_handle_2.finance_account_type_upsert(&mut db, &mut type_2_2).is_ok());
    assert!(account_handle_3.finance_account_type_upsert(&mut db, &mut type_3_1).is_err(), "command should have failed");
    assert!(account_handle_1.finance_account_upsert(&mut db, &account_1_1).is_ok());
    assert!(account_handle_1.finance_account_upsert(&mut db, &account_1_2).is_ok());
    assert!(account_handle_2.finance_account_upsert(&mut db, &account_2_1).is_ok());
    assert!(account_handle_2.finance_account_upsert(&mut db, &account_2_2).is_ok());
    assert!(account_handle_2.finance_account_upsert(&mut db, &account_2_3).is_ok());
    assert!(account_handle_3.finance_account_upsert(&mut db, &account_3_1).is_err(), "command should have failed");
    assert!(account_handle_3.finance_account_upsert(&mut db, &account_3_2).is_err(), "command should have failed");

    // bookings of three users; the third is unknown to the store
    let booking_time_1 = FIRST_BOOKING_TIME;
    let booking_time_2 = booking_time_1 + DAY;
    let booking_time_3 = booking_time_2 + DAY;
    let booking_time_4 = booking_time_3 + DAY;
    let booking_time_5 = booking_time_4 + DAY;
    let booking_time_6 = booking_time_5 + DAY;
    let request_1_1 = booking(account_1_1.id, account_1_2.id, booking_time_1, 100, false, "f_b_r_1_1");
    let request_1_2 = booking(account_1_2.id, account_1_1.id, booking_time_2, 101, false, "f_b_r_1_2");
    let request_2_1 = booking(account_2_1.id, account_2_2.id, booking_time_3, 100, false, "f_b_r_2_1");
    let request_2_2 = booking(account_2_2.id, account_2_3.id, booking_time_4, 101, false, "f_b_r_2_2");
    let request_2_3 = booking(account_2_3.id, account_2_1.id, booking_time_2, 102, false, "f_b_r_2_3");
    let request_3_1 = booking(account_3_1.id, account_3_2.id, booking_time_6, 100, false, "f_b_r_3_1");
    let result_1_1 = booking_handle_1.finance_insert_booking_entry(&mut db, &request_1_1);
    let result_1_2 = booking_handle_1.finance_insert_booking_entry(&mut db, &request_1_2);
    let result_2_1 = booking_handle_2.finance_insert_booking_entry(&mut db, &request_2_1);
    let result_2_2 = booking_handle_2.finance_insert_booking_entry(&mut db, &request_2_2);
    let result_2_3 = booking_handle_2.finance_insert_booking_entry(&mut db, &request_2_3);
    let result_3_1 = booking_handle_3.finance_insert_booking_entry(&mut db, &request_3_1);
    assert!(result_3_1.is_err(), "inserting booking request for unkown userdid not fail");
    assert_eq!(check_entry_response_match_entry_request(&request_1_1, &result_1_1.unwrap()), "");
    assert_eq!(check_entry_response_match_entry_request(&request_1_2, &result_1_2.unwrap()), "");
    assert_eq!(check_entry_response_match_entry_request(&request_2_1, &result_2_1.unwrap()), "");
    assert_eq!(check_entry_response_match_entry_request(&request_2_2, &result_2_2.unwrap()), "");
    assert_eq!(check_entry_response_match_entry_request(&request_2_3, &result_2_3.unwrap()), "");

    let full_listing_user_1 = booking_handle_1.list_journal_entries(&db, None, None).unwrap();
    let full_listing_user_2 = booking_handle_2.list_journal_entries(&db, None, None).unwrap();
    assert_eq!(full_listing_user_1.len(), 2);
    assert_eq!(full_listing_user_2.len(), 3);
    assert!(check_journal_listing_contains_booking_request(&full_listing_user_1, &request_1_1));
    assert!(check_journal_listing_contains_booking_request(&full_listing_user_1, &request_1_2));
    assert!(check_journal_listing_contains_booking_request(&full_listing_user_2, &request_2_1));
    assert!(check_journal_listing_contains_booking_request(&full_listing_user_2, &request_2_2));
    assert!(check_journal_listing_contains_booking_request(&full_listing_user_2, &request_2_3));

    // the running number grows
    let booking_time_7 = booking_time_6 + DAY;
    let request_1_3 = booking(account_1_2.id, account_1_1.id, booking_time_7, 102, false, "f_b_r_1_3");
    let result_1_3 = booking_handle_1.finance_insert_booking_entry(&mut db, &request_1_3);
    assert_eq!(check_entry_response_match_entry_request(&request_1_3, &result_1_3.unwrap()), "");
    let full_listing_user_1_2 = booking_handle_1.list_journal_entries(&db, None, None).unwrap();
    assert_eq!(full_listing_user_1_2.len(), 3);
    assert!(check_journal_listing_contains_booking_request(&full_listing_user_1_2, &request_1_1));
    assert!(check_journal_listing_contains_booking_request(&full_listing_user_1_2, &request_1_2));
    assert!(check_journal_listing_contains_booking_request(&full_listing_user_1_2, &request_1_3));
    assert!(
        get_max_running_number_from_journal_list(&full_listing_user_1_2) > get_max_running_number_from_journal_list(&full_listing_user_1),
        "new running must be greater than old running number"
    );

    // journal windows: from, till, both
    let check_date_time_1 = booking_time_2 - SECOND;
    let check_date_time_2 = booking_time_7 - SECOND;
    let listing_1_3 = booking_handle_1.list_journal_entries(&db, Some(check_date_time_1), None).unwrap();
    let listing_1_4 = booking_handle_1.list_journal_entries(&db, None, Some(check_date_time_2)).unwrap();
    let listing_1_5 = booking_handle_1.list_journal_entries(&db, Some(check_date_time_1), Some(check_date_time_2)).unwrap();
    assert_eq!(listing_1_3.len(), 2);
    assert_eq!(listing_1_4.len(), 2);
    assert_eq!(listing_1_5.len(), 1);
    assert!(check_journal_listing_contains_booking_request(&listing_1_3, &request_1_2));
    assert!(check_journal_listing_contains_booking_request(&listing_1_3, &request_1_3));
    assert!(check_journal_listing_contains_booking_request(&listing_1_4, &request_1_1));
    assert!(check_journal_listing_contains_booking_request(&listing_1_4, &request_1_2));
    assert!(check_journal_listing_contains_booking_request(&listing_1_5, &request_1_2));

    // account windows
    let account_listing_1 = booking_handle_1.list_account_booking_entries_multi(&db, vec![option(&account_1_1.id, None, None)]).unwrap();
    let account_listing_2 =
        booking_handle_1.list_account_booking_entries_multi(&db, vec![option(&account_1_1.id, Some(check_date_time_1), None)]).unwrap();
    let account_listing_3 =
        booking_handle_1.list_account_booking_entries_multi(&db, vec![option(&account_1_1.id, None, Some(check_date_time_2))]).unwrap();
    let account_listing_4 = booking_handle_1
        .list_account_booking_entries_multi(&db, vec![option(&account_1_1.id, Some(check_date_time_1), Some(check_date_time_2))])
        .unwrap();
    assert_eq!(account_listing_1.len(), 3);
    assert_eq!(account_listing_2.len(), 2);
    assert_eq!(account_listing_3.len(), 2);
    assert_eq!(account_listing_4.len(), 1);
    assert_eq!(check_account_listing_contains_booking_request(&account_listing_1, &request_1_1), "");
    assert_eq!(check_account_listing_contains_booking_request(&account_listing_1, &request_1_2), "");
    assert_eq!(check_account_listing_contains_booking_request(&account_listing_1, &request_1_3), "");
    assert_eq!(check_account_listing_contains_booking_request(&account_listing_2, &request_1_2), "");
    assert_eq!(check_account_listing_contains_booking_request(&account_listing_2, &request_1_3), "");
    assert_eq!(check_account_listing_contains_booking_request(&account_listing_3, &request_1_1), "");
    assert_eq!(check_account_listing_contains_booking_request(&account_listing_3, &request_1_2), "");
    assert_eq!(check_account_listing_contains_booking_request(&account_listing_4, &request_1_2), "");
    let multi_account_list = booking_handle_2
        .list_account_booking_entries_multi(
            &db,
            vec![option(&account_2_1.id, None, Some(booking_time_2)), option(&account_2_2.id, Some(booking_time_4), None)],
        )
        .unwrap();
    assert_eq!(multi_account_list.len(), 2);
    assert_eq!(check_account_listing_contains_booking_request(&multi_account_list, &request_2_3), "");
    assert_eq!(check_account_listing_contains_booking_request(&multi_account_list, &request_2_2), "");

    // refused operations
    assert!(
        booking_handle_1.list_journal_entries(&db, Some(check_date_time_2), Some(check_date_time_1)).is_err(),
        "filtering with date till before date from must fail"
    );
    assert!(
        booking_handle_1
            .list_account_booking_entries_multi(&db, vec![option(&account_1_1.id, Some(check_date_time_2), Some(check_date_time_1))])
            .is_err(),
        "filtering with date till before date from must fail"
    );
    let account_2_4 = account(type_2_2.id, "2_4");
    assert!(account_handle_2.finance_account_upsert(&mut db, &account_2_4).is_ok());
    let request_2_4 = booking(account_2_4.id, account_2_2.id, booking_time_3, 117, false, "f_b_r_2_4");
    assert!(
        booking_handle_2.finance_insert_booking_entry(&mut db, &request_2_4).is_err(),
        "inserting booking request for credit account with same booking time twice must fail"
    );
    let request_2_5 = booking(account_2_1.id, account_2_4.id, booking_time_3, 119, false, "f_b_r_2_5");
    assert!(
        booking_handle_2.finance_insert_booking_entry(&mut db, &request_2_5).is_err(),
        "inserting booking request for debit account with same booking time twice must fail"
    );
    let booking_time_8 = booking_time_7 + DAY;
    let request_2_6 = booking(account_2_4.id, account_1_1.id, booking_time_8, 127, false, "f_b_r_2_6");
    assert!(
        booking_handle_2.finance_insert_booking_entry(&mut db, &request_2_6).is_err(),
        "inserting booking request for credit account from another user must fail"
    );
    let request_2_7 = booking(account_1_1.id, account_2_4.id, booking_time_8, 127, false, "f_b_r_2_7");
    assert!(
        booking_handle_2.finance_insert_booking_entry(&mut db, &request_2_7).is_err(),
        "inserting booking request for debit account from another user must fail"
    );
    let booking_time_9 = booking_time_8 + DAY;
    let request_2_8 = booking(account_2_1.id, account_2_2.id, booking_time_9, 127, true, "f_b_r_2_8");
    let result_2_8 = booking_handle_2.finance_insert_booking_entry(&mut db, &request_2_8);
    assert!(result_2_8.is_ok(), "could not prepare saldo check: {}", result_2_8.as_ref().unwrap_err());
    assert_eq!(check_entry_response_match_entry_request(&request_2_8, &result_2_8.unwrap()), "");

    let saldo_error_text = "Can not insert before saldo";
    let booking_time_10 = booking_time_9 - HOUR;
    for (debit, credit, name) in [
        (account_2_1.id, account_2_3.id, "f_b_r_2_9"),
        (account_2_3.id, account_2_1.id, "f_b_r_2_10"),
        (account_2_2.id, account_2_3.id, "f_b_r_2_11"),
        (account_2_3.id, account_2_2.id, "f_b_r_2_12"),
    ] {
        let request = booking(debit, credit, booking_time_10, 127, false, name);
        let result = booking_handle_2.finance_insert_booking_entry(&mut db, &request);
        assert!(result.is_err(), "operation should have failed");
        assert!(result.unwrap_err().contains(saldo_error_text));
    }

    assert!(
        booking_handle_1.list_account_booking_entries_multi(&db, vec![option(&account_2_1.id, None, None)]).is_err(),
        "operation should have failed"
    );
    let empty_listing = booking_handle_1.list_account_booking_entries_multi(&db, Vec::new());
    assert!(empty_listing.is_err(), "query with empty search options needs to fail");
    assert!(empty_listing.unwrap_err().contains("could not query because search options is empty"));
}
