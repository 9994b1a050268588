use finance_overview::accounting_config_logic::{account_type_check, owner_check, FinanceAccountingConfigHandle};
use finance_overview::database_handler_mongodb::upsert_count_check;
use finance_overview::database_handler_mongodb::DbConnectionSetting;
use finance_overview::datatypes::{FinanceAccount, FinanceAccountType};
use finance_overview::in_memory_database::InMemoryDatabaseData;
fn new_uuid() -> u128 {
    uuid::Uuid::new_v4().as_u128()
}

fn test_settings() -> DbConnectionSetting {
    DbConnectionSetting {
        url: "memory".to_string(),
        user: "tester".to_string(),
        password: "secret".to_string(),
        instance: "test".to_string(),
    }
}

fn account_type_list_contains_element(
    list_to_check: &Vec<FinanceAccountType>,
    element_to_check: &FinanceAccountType,
) -> bool {
    let position_option = list_to_check.iter().position(|elem| elem.id.eq(&element_to_check.id));
    if let Some(position) = position_option {
        return list_to_check[position].eq(element_to_check);
    }
    false
}

fn account_list_contains_element(list_to_check: &Vec<FinanceAccount>, element_to_check: &FinanceAccount) -> bool {
    let position_option = list_to_check.iter().position(|elem| elem.id.eq(&element_to_check.id));
    if let Some(position) = position_option {
        return list_to_check[position].eq(element_to_check);
    }
    false
}

#[test]
fn test_accounting_type_config_handling_with_mock() {
    let settings = test_settings();
    let user_id_1 = new_uuid();
    let user_id_2 = new_uuid();
    let user_id_3 = new_uuid();
    let user_id_4 = new_uuid();

    let mut db = InMemoryDatabaseData::new();
    let entry_object1 = InMemoryDatabaseData::create_in_memory_database_entry_object(&user_id_1);
    let entry_object2 = InMemoryDatabaseData::create_in_memory_database_entry_object(&user_id_2);
    let entry_object3 = InMemoryDatabaseData::create_in_memory_database_entry_object(&user_id_3);
    let _insert_result = db.insert_in_memory_database(Vec::from([entry_object1, entry_object2, entry_object3]));

    let account_handle_1 = FinanceAccountingConfigHandle::new(&settings, &user_id_1);
    let mut account_handle_2 = FinanceAccountingConfigHandle::new(&settings, &user_id_2);
    let mut account_handle_3 = FinanceAccountingConfigHandle::new(&settings, &user_id_3);
    let mut account_handle_4 = FinanceAccountingConfigHandle::new(&settings, &user_id_4);

    let list_1_result = account_handle_1.finance_account_type_list(&db);
    let finance_account_type_1 = FinanceAccountType {
        description: "SomeTypeDescription".to_string(),
        title: "SomeType".to_string(),
        id: new_uuid(),
    };
    let insert_result_1 = account_handle_2.finance_account_type_upsert(&mut db, &mut finance_account_type_1.clone());
    let mut finance_account_type_2 = FinanceAccountType {
        description: "SomeTypeDescription2".to_string(),
        title: "SomeType2".to_string(),
        id: new_uuid(),
    };
    let finance_account_type_3 = FinanceAccountType {
        description: "SomeTypeDescription3".to_string(),
        title: "SomeType3".to_string(),
        id: new_uuid(),
    };
    let insert_result_2 = account_handle_3.finance_account_type_upsert(&mut db, &mut finance_account_type_2.clone());
    let insert_result_3 = account_handle_3.finance_account_type_upsert(&mut db, &mut finance_account_type_3.clone());
    finance_account_type_2.description = "UpdatedDescription".to_string();
    finance_account_type_2.title = "UpdatedTitle".to_string();
    let update_result_1 = account_handle_3.finance_account_type_upsert(&mut db, &mut finance_account_type_2);
    let finance_account_type_4 = FinanceAccountType {
        description: "SomeTypeDescription4".to_string(),
        title: "SomeType4".to_string(),
        id: new_uuid(),
    };
    let insert_result_4 = account_handle_4.finance_account_type_upsert(&mut db, &mut finance_account_type_4.clone());

    if list_1_result.is_ok() {
        assert_eq!(list_1_result.unwrap().len(), 0)
    } else {
        panic!("{}", list_1_result.unwrap_err())
    }

    assert!(insert_result_1.is_ok());
    let list_2_result = account_handle_2.finance_account_type_list(&db);
    if list_2_result.is_ok() {
        let returned_list = list_2_result.unwrap();
        assert_eq!(returned_list.len(), 1);
        assert_eq!(returned_list[0], finance_account_type_1);
    } else {
        panic!("{}", list_2_result.unwrap_err())
    }

    assert!(insert_result_2.is_ok());
    assert!(insert_result_3.is_ok());
    assert!(update_result_1.is_ok());
    let list_3_result = account_handle_3.finance_account_type_list(&db);
    if list_3_result.is_ok() {
        let returned_list = list_3_result.unwrap();
        assert_eq!(returned_list.len(), 2);
        assert!(account_type_list_contains_element(&returned_list, &finance_account_type_2));
        assert!(account_type_list_contains_element(&returned_list, &finance_account_type_3));
    } else {
        panic!("{}", list_3_result.unwrap_err())
    }

    assert!(insert_result_4.is_err());

    let mut finance_account_type_5 = finance_account_type_1.clone();
    finance_account_type_5.description = "ERRORDescription".to_string();
    finance_account_type_5.title = "ERRORType".to_string();
    let insert_result_5 = account_handle_3.finance_account_type_upsert(&mut db, &mut finance_account_type_5.clone());
    assert!(insert_result_5.is_err(), "Using account type from different user must fail");
    let errmsg = insert_result_5.unwrap_err();
    assert!(errmsg.contains("account type id not available for current user"));
}

#[test]
fn test_accounting_config_handle_with_mock() {
    let settings = test_settings();
    let mut db = InMemoryDatabaseData::new();
    let user_id_1 = new_uuid();
    let user_id_2 = new_uuid();
    let user_id_3 = new_uuid();

    let mut account_handle_1 = FinanceAccountingConfigHandle::new(&settings, &user_id_1);
    let mut account_handle_2 = FinanceAccountingConfigHandle::new(&settings, &user_id_2);
    let mut account_handle_3 = FinanceAccountingConfigHandle::new(&settings, &user_id_3);

    let entry_object1 = InMemoryDatabaseData::create_in_memory_database_entry_object(&user_id_1);
    let entry_object2 = InMemoryDatabaseData::create_in_memory_database_entry_object(&user_id_2);
    let init_db_result = db.insert_in_memory_database(Vec::from([entry_object1, entry_object2]));
    assert!(init_db_result.is_ok(), "Could not prepare database for test");

    let finance_account_type_a_1 = FinanceAccountType {
        description: "SomeTypeDescription_a_1".to_string(),
        title: "SomeType_a_1".to_string(),
        id: new_uuid(),
    };
    let finance_account_type_a_2 = FinanceAccountType {
        description: "SomeTypeDescription_a_2".to_string(),
        title: "SomeType_a_2".to_string(),
        id: new_uuid(),
    };
    let finance_account_type_b_1 = FinanceAccountType {
        description: "SomeTypeDescription_b_1".to_string(),
        title: "SomeType_b_1".to_string(),
        id: new_uuid(),
    };
    let insert_result_fat_a1 = account_handle_1.finance_account_type_upsert(&mut db, &mut finance_account_type_a_1.clone());
    let insert_result_fat_a2 = account_handle_1.finance_account_type_upsert(&mut db, &mut finance_account_type_a_2.clone());
    let insert_result_fat_b1 = account_handle_2.finance_account_type_upsert(&mut db, &mut finance_account_type_b_1.clone());
    assert!(
        insert_result_fat_a1.is_ok() && insert_result_fat_a2.is_ok() && insert_result_fat_b1.is_ok(),
        "Could not prepare database for testing"
    );

    let finance_account_1_1 = FinanceAccount {
        id: new_uuid(),
        finance_account_type_id: finance_account_type_a_1.id,
        title: "account_1_1".into(),
        description: "description_1_1".into(),
    };
    let finance_account_1_2 = FinanceAccount {
        id: new_uuid(),
        finance_account_type_id: finance_account_type_a_2.id,
        title: "account_1_2".into(),
        description: "description_1_2".into(),
    };
    let finance_account_1_3 = FinanceAccount {
        id: new_uuid(),
        finance_account_type_id: finance_account_type_a_1.id,
        title: "account_1_3".into(),
        description: "description_1_3".into(),
    };
    let list_0_result = account_handle_1.finance_account_list(&db, None);
    let insert_1_result = account_handle_1.finance_account_upsert(&mut db, &finance_account_1_1);
    let list_1_result = account_handle_1.finance_account_list(&db, None);
    let insert_2_result = account_handle_1.finance_account_upsert(&mut db, &finance_account_1_2);
    let list_2_result = account_handle_1.finance_account_list(&db, None);
    let insert_3_result = account_handle_1.finance_account_upsert(&mut db, &finance_account_1_3);
    let list_3_result = account_handle_1.finance_account_list(&db, None);

    assert!(list_0_result.is_ok());
    assert!(list_1_result.is_ok());
    assert!(list_2_result.is_ok());
    assert!(list_3_result.is_ok());
    assert!(insert_1_result.is_ok());
    assert!(insert_2_result.is_ok());
    assert!(insert_3_result.is_ok());

    let list_length_base = list_0_result.unwrap().len();
    let list1 = list_1_result.unwrap();
    let list2 = list_2_result.unwrap();
    let list3 = list_3_result.unwrap();
    assert!(
        list1.len().eq(&(list_length_base + 1))
            && list2.len().eq(&(list_length_base + 2))
            && list3.len().eq(&(list_length_base + 3)),
        "returned list length do not match"
    );
    assert!(account_list_contains_element(&list1, &finance_account_1_1));
    assert!(account_list_contains_element(&list2, &finance_account_1_1));
    assert!(account_list_contains_element(&list2, &finance_account_1_2));
    assert!(account_list_contains_element(&list3, &finance_account_1_1));
    assert!(account_list_contains_element(&list3, &finance_account_1_2));
    assert!(account_list_contains_element(&list3, &finance_account_1_3));

    let finance_account_2_1 = FinanceAccount {
        id: new_uuid(),
        finance_account_type_id: finance_account_type_b_1.id,
        title: "account_2_1".into(),
        description: "description_2_1".into(),
    };
    let finance_account_type_b_2 = FinanceAccountType {
        description: "SomeTypeDescription_b_2".to_string(),
        title: "SomeType_b_2".to_string(),
        id: new_uuid(),
    };
    let finance_account_2_2 = FinanceAccount {
        id: new_uuid(),
        finance_account_type_id: finance_account_type_b_2.id,
        title: "account_2_2".into(),
        description: "description_2_2".into(),
    };
    let list_2_0_result = account_handle_2.finance_account_list(&db, None);
    let insert_2_1_result = account_handle_2.finance_account_upsert(&mut db, &finance_account_2_1);
    let list_2_1_result = account_handle_2.finance_account_list(&db, None);
    let insert_2_2_result = account_handle_2.finance_account_upsert(&mut db, &finance_account_2_2);
    assert!(list_2_0_result.is_ok());
    assert!(list_2_1_result.is_ok());
    assert!(insert_2_1_result.is_ok());
    assert!(insert_2_2_result.is_err(), "inserting with unkown account type did not failed");
    let list_length_base_2 = list_2_0_result.unwrap().len();
    let list_2_1 = list_2_1_result.unwrap();
    assert!(list_2_1.len().eq(&(list_length_base_2 + 1)), "return list length does not match");
    assert!(account_list_contains_element(&list_2_1, &finance_account_2_1));

    let finance_account_1_2_update = FinanceAccount {
        id: finance_account_1_2.id,
        finance_account_type_id: finance_account_1_2.finance_account_type_id,
        title: "Update_1_2".into(),
        description: "Another description for 1_2".into(),
    };
    let upsert_result = account_handle_1.finance_account_upsert(&mut db, &finance_account_1_2_update);
    let list_update_result = account_handle_1.finance_account_list(&db, None);
    assert!(upsert_result.is_ok());
    assert!(list_update_result.is_ok());

    let list_update = list_update_result.unwrap();
    assert!(list3.len().eq(&list_update.len()), "return list length does not match");
    assert!(account_list_contains_element(&list_update, &finance_account_1_1));
    assert!(account_list_contains_element(&list_update, &finance_account_1_2_update));
    assert!(account_list_contains_element(&list_update, &finance_account_1_3));
    assert!(!account_list_contains_element(&list_update, &finance_account_1_2));

    let limit_4 = vec![finance_account_1_1.id, finance_account_1_2_update.id];
    let list_4_result = account_handle_1.finance_account_list_async(&db, Some(&limit_4));
    assert!(list_4_result.is_ok());
    let list4 = list_4_result.unwrap();
    assert_eq!(list4.len(), 2);
    assert!(account_list_contains_element(&list4, &finance_account_1_1));
    assert!(account_list_contains_element(&list4, &finance_account_1_2_update));
    let limit_5 = vec![finance_account_1_3.id];
    let list_5_result = account_handle_1.finance_account_list_async(&db, Some(&limit_5));
    assert!(list_5_result.is_ok());
    let list5 = list_5_result.unwrap();
    assert_eq!(list5.len(), 1);
    assert!(account_list_contains_element(&list5, &finance_account_1_3));

    let list_6_result = account_handle_2.finance_account_list_async(&db, Some(&limit_5));
    assert!(list_6_result.is_ok());
    let list6 = list_6_result.unwrap();
    assert_eq!(list6.len(), 0);

    let list_e1_result = account_handle_3.finance_account_list(&db, None);
    let insert_e1_result = account_handle_3.finance_account_upsert(&mut db, &finance_account_1_1);
    assert!(list_e1_result.is_err(), "listing for unknown user has to fail");
    assert!(insert_e1_result.is_err(), "inserting for unknown user has to fail");

    let mut finance_account_2_3 = finance_account_1_1.clone();
    finance_account_2_3.id = new_uuid();
    finance_account_2_3.title = "ERROR".into();
    finance_account_2_3.description = "ERROR".into();
    let insert_e2_result = account_handle_2.finance_account_upsert(&mut db, &finance_account_2_3);
    assert!(insert_e2_result.is_err(), "using account type from another user must fail");
    let errmsg_1 = insert_e2_result.unwrap_err();
    assert!(errmsg_1.contains("could not upsert finance account because account type is not available"));
    let mut finance_account_2_4 = finance_account_1_1.clone();
    finance_account_2_4.finance_account_type_id = finance_account_2_1.finance_account_type_id;
    finance_account_2_4.title = "ERROR".into();
    finance_account_2_4.description = "ERROR".into();
    let insert_e3_result = account_handle_2.finance_account_upsert(&mut db, &finance_account_2_4);
    assert!(insert_e3_result.is_err(), "using account id from another user must fail");
    let errmsg_2 = insert_e3_result.unwrap_err();
    assert!(errmsg_2.contains("account id not accessible for current user"));
}

#[test]
fn config_errors_name_the_reason() {
    let settings = test_settings();
    let mut db = InMemoryDatabaseData::new();
    let known = new_uuid();
    let unknown = new_uuid();
    let _ = db.insert_in_memory_database(vec![InMemoryDatabaseData::create_in_memory_database_entry_object(&known)]);
    let handle_unknown = FinanceAccountingConfigHandle::new(&settings, &unknown);
    assert_eq!(handle_unknown.finance_account_type_list(&db).unwrap_err(), "User not found");
    let mut handle_unknown_mut = FinanceAccountingConfigHandle::new(&settings, &unknown);
    let account = FinanceAccount {
        id: new_uuid(),
        finance_account_type_id: new_uuid(),
        title: "t".into(),
        description: "d".into(),
    };
    assert_eq!(
        handle_unknown_mut.finance_account_upsert(&mut db, &account).unwrap_err(),
        "Err upserting finance account, could not get list of available account types: User not found"
    );
    let mut handle_known = FinanceAccountingConfigHandle::new(&settings, &known);
    assert_eq!(
        handle_known.finance_account_upsert(&mut db, &account).unwrap_err(),
        "could not upsert finance account because account type is not available"
    );
}

#[test]
fn storing_a_type_twice_replaces_it() {
    let settings = test_settings();
    let mut db = InMemoryDatabaseData::new();
    let user = new_uuid();
    let _ = db.insert_in_memory_database(vec![InMemoryDatabaseData::create_in_memory_database_entry_object(&user)]);
    let mut handle = FinanceAccountingConfigHandle::new(&settings, &user);
    let mut t = FinanceAccountType { id: 7, title: "A".into(), description: "a".into() };
    assert!(handle.finance_account_type_upsert(&mut db, &mut t).is_ok());
    let mut t2 = FinanceAccountType { id: 7, title: "B".into(), description: "b".into() };
    assert!(handle.finance_account_type_upsert(&mut db, &mut t2).is_ok());
    let list = handle.finance_account_type_list(&db).unwrap();
    assert_eq!(list, vec![t2]);
}

#[test]
fn other_users_listings_do_not_change() {
    let settings = test_settings();
    let (user_1, user_2) = (new_uuid(), new_uuid());
    let mut db = InMemoryDatabaseData::new();
    let _ = db.insert_in_memory_database(vec![
        InMemoryDatabaseData::create_in_memory_database_entry_object(&user_1),
        InMemoryDatabaseData::create_in_memory_database_entry_object(&user_2),
    ]);
    let mut handle_1 = FinanceAccountingConfigHandle::new(&settings, &user_1);
    let mut handle_2 = FinanceAccountingConfigHandle::new(&settings, &user_2);
    let mut own = FinanceAccountType { id: new_uuid(), title: "own".into(), description: "".into() };
    assert!(handle_1.finance_account_type_upsert(&mut db, &mut own).is_ok());
    let own_account = FinanceAccount { id: new_uuid(), finance_account_type_id: own.id, title: "a".into(), description: "".into() };
    assert!(handle_1.finance_account_upsert(&mut db, &own_account).is_ok());
    let types_before = handle_1.finance_account_type_list(&db).unwrap();
    let accounts_before = handle_1.finance_account_list(&db, None).unwrap();

    let mut other = FinanceAccountType { id: new_uuid(), title: "other".into(), description: "".into() };
    assert!(handle_2.finance_account_type_upsert(&mut db, &mut other).is_ok());
    let other_account = FinanceAccount { id: new_uuid(), finance_account_type_id: other.id, title: "b".into(), description: "".into() };
    assert!(handle_2.finance_account_upsert(&mut db, &other_account).is_ok());

    assert_eq!(handle_1.finance_account_type_list(&db).unwrap(), types_before);
    assert_eq!(handle_1.finance_account_list(&db, None).unwrap(), accounts_before);
    assert_eq!(handle_2.finance_account_type_list(&db).unwrap(), vec![other]);
}

#[test]
fn store_decisions_before_a_write() {
    let t = FinanceAccountType { id: 5, title: "T".into(), description: "".into() };
    let a = FinanceAccount { id: 9, finance_account_type_id: 5, title: "a".into(), description: "".into() };
    let b = FinanceAccount { id: 10, finance_account_type_id: 6, title: "b".into(), description: "".into() };
    assert_eq!(account_type_check(&Ok(vec![t]), &a), Ok(()));
    assert_eq!(
        account_type_check(&Ok(vec![]), &b).unwrap_err(),
        "could not upsert finance account because account type is not available"
    );
    assert_eq!(
        account_type_check(&Err("offline".into()), &a).unwrap_err(),
        "Err upserting finance account, could not get list of available account types: offline"
    );
    assert_eq!(owner_check(None, 1, "taken"), Ok(()));
    assert_eq!(owner_check(Some(1), 1, "taken"), Ok(()));
    assert_eq!(owner_check(Some(2), 1, "taken").unwrap_err(), "taken");
    assert_eq!(upsert_count_check(1, 1), Ok(()));
    assert_eq!(upsert_count_check(0, 0), Ok(()));
    assert_eq!(upsert_count_check(2, 0).unwrap_err(), "Error upserting element, matched count was 2, changed count was 0");
}
