use finance_overview::ajax_handle::{
    account_create_outcome, account_type_update_request, account_update_request, anonymous_refusal,
    compare_password, gate_refusal, new_account_from_form, password_reset_text, CreateNewFinanceAccountFormInput,
    UpdateFinanceAccountFormInput, UpdateFinanceAccountTypeFormInput, STATUS_BAD_REQUEST, STATUS_OK,
};
use finance_overview::database_handler_mongodb::{
    email_status_in_documents, email_verify_step, general_user_data_from_documents, max_number_update_check,
    reset_token_step, stored_credentials_from_documents, timestamp_seconds, token_reset_step, user_exists_in_documents,
    EmailVerificationStatus, EmailVerifyStep, ResetTokenStep, TokenResetStep, UserDocument,
    commit_failure_step, transaction_failure_step, TransactionStep,
};
use finance_overview::datatypes::{FinanceAccount, FinanceAccountType, GenerallUserData};
use finance_overview::platform::{EARLIEST_TIME_MILLIS, LATEST_TIME_MILLIS};
use finance_overview::html_render::{
    accounting_config_template, email_validation_template, login_redirect, session_gate, user_home_template,
    visit_step, RouteCallRecord, SessionGate, VisitAction,
};
use finance_overview::mail_handle::validate_email_with_rule;
use finance_overview::password_handle::{hash_credentials, hash_reset_secret, validate_credentials, verify_password_hash, UserCredentials};
use finance_overview::session_data_handle::{SessionDataHandler, SessionValues};

fn doc(name: &str) -> UserDocument {
    UserDocument {
        user_name: Ok(name.into()),
        user_id: Ok(42),
        password_hash: Ok("hash".into()),
        user_email: Some(Ok("a@b.org".into())),
        mail_validated: Ok(false),
        mail_validation_token: Ok("tok".into()),
        first_name: Ok("Ada".into()),
        last_name: Err("field is not present".into()),
        reset_secret_hash: Err("field is not present".into()),
        password_reset_token_value: Ok("reset".into()),
        password_reset_token_timestamp: Ok(1000),
    }
}

#[test]
fn gate_order_is_login_then_expiry() {
    assert_eq!(session_gate(false, true), SessionGate::NotLoggedIn);
    assert_eq!(session_gate(true, true), SessionGate::Expired);
    assert_eq!(session_gate(true, false), SessionGate::Active);
    assert_eq!(gate_refusal(SessionGate::NotLoggedIn, "x").unwrap(), "not logged in");
    assert_eq!(gate_refusal(SessionGate::Expired, "Session expired").unwrap(), "Session expired");
    assert!(gate_refusal(SessionGate::Active, "x").is_none());
    assert_eq!(anonymous_refusal(true, true, "log out first").unwrap(), "log out first");
    assert_eq!(anonymous_refusal(false, true, "x").unwrap(), "Session expired, please try again");
    assert!(anonymous_refusal(false, false, "x").is_none());
}

#[test]
fn user_home_pages() {
    let ts = "2024-01-01 00:00:00 UTC".to_string();
    let page = user_home_template(SessionGate::Expired, &"bob".into(), &ts, &None);
    assert_eq!(page.logout_reason, "Session expired");
    assert_eq!(page.username, "");
    let data = Some(Ok(GenerallUserData { first_name: "Bob".into(), last_name: "B".into() }));
    let page = user_home_template(SessionGate::Active, &"bob".into(), &ts, &data);
    assert!(page.logged_in);
    assert_eq!(page.user_vorname, "Bob");
    let page = user_home_template(SessionGate::Active, &"bob".into(), &ts, &Some(Err("db down".into())));
    assert_eq!(page.logout_reason, "error calling database");
    assert_eq!(page.session_expire_timestamp, ts);
}

#[test]
fn config_page_names_types_of_accounts() {
    let types = vec![FinanceAccountType { id: 1, title: "Bank".into(), description: "d".into() }];
    let accounts = vec![
        FinanceAccount { id: 2, finance_account_type_id: 1, title: "Giro".into(), description: "g".into() },
        FinanceAccount { id: 3, finance_account_type_id: 9, title: "Lost".into(), description: "l".into() },
    ];
    let page = accounting_config_template(SessionGate::Active, &"ann".into(), &Ok(types.clone()), &Ok(accounts));
    assert_eq!(page.username, "ann");
    assert_eq!(page.account_types[0].id, uuid::Uuid::from_u128(1).to_string());
    assert_eq!(page.accounts[0].type_title, "Bank");
    assert_eq!(page.accounts[1].type_title, "no title found");
    let page = accounting_config_template(SessionGate::Active, &"ann".into(), &Err("x".into()), &Ok(vec![]));
    assert_eq!(page.username, "problems while getting account types list");
    assert!(page.accounts.is_empty());
}

#[test]
fn email_validation_page_and_login_redirects() {
    let page = email_validation_template(&"bob".into(), &Ok(EmailVerificationStatus::Verified));
    assert_eq!(page.validation_detail_result, "email for bob validated");
    assert_eq!(login_redirect(false, &Ok(EmailVerificationStatus::Verified)), "/invalid");
    assert_eq!(login_redirect(true, &Ok(EmailVerificationStatus::NotVerified)), "/registration_incomplete");
    assert_eq!(login_redirect(true, &Ok(EmailVerificationStatus::NotGiven)), "/user_home");
    assert_eq!(login_redirect(true, &Err("x".into())), "/invalid");
}

#[test]
fn visit_counter_steps() {
    let records = vec![
        RouteCallRecord { route_name: "other".into(), calling_amount: 5 },
        RouteCallRecord { route_name: "main".into(), calling_amount: 4 },
    ];
    let (action, info, count) = visit_step("main", &Ok(records));
    assert_eq!(action, VisitAction::UpdateCount);
    assert_eq!(count, 5);
    assert_eq!(info, "<br> already called 5 times");
    let (action, info, count) = visit_step("main", &Ok(vec![]));
    assert_eq!((action, info.as_str(), count), (VisitAction::InsertFirst, "<br> first documented call", 1));
    let (action, _, count) = visit_step("main", &Err("down".into()));
    assert_eq!((action, count), (VisitAction::Nothing, 1));
}

#[test]
fn forms_become_items() {
    let id_text = uuid::Uuid::from_u128(77).to_string();
    let bad = UpdateFinanceAccountTypeFormInput { account_type_id: "nope".into(), title: "t".into(), description: "d".into() };
    assert_eq!(account_type_update_request(&bad).unwrap_err(), "Error reading data");
    let good = UpdateFinanceAccountTypeFormInput { account_type_id: id_text.clone(), title: "t".into(), description: "d".into() };
    assert_eq!(account_type_update_request(&good).unwrap().id, 77);
    let form = CreateNewFinanceAccountFormInput { title: "a".into(), description: "b".into(), account_type_id: id_text.clone() };
    let account = new_account_from_form(5, &form).unwrap();
    assert_eq!((account.id, account.finance_account_type_id), (5, 77));
    let bad_form = CreateNewFinanceAccountFormInput { title: "a".into(), description: "b".into(), account_type_id: "zz".into() };
    assert!(new_account_from_form(5, &bad_form).is_err());
    let (status, text, row) = account_create_outcome(&account, &Ok(()), &Ok(vec![FinanceAccountType { id: 77, title: "T".into(), description: "".into() }]));
    assert_eq!((status, text.as_str(), row.type_title.as_str()), (STATUS_OK, "OK, created", "T"));
    let (status, _, row) = account_create_outcome(&account, &Ok(()), &Err("types".into()));
    assert_eq!((status, row.type_title.as_str()), (STATUS_BAD_REQUEST, "Type not found"));
    let accounts = vec![FinanceAccount { id: 77, finance_account_type_id: 3, title: "old".into(), description: "old".into() }];
    let change = UpdateFinanceAccountFormInput { account_id: id_text, title: "new".into(), description: "nd".into() };
    let updated = account_update_request(&change, &Ok(accounts)).unwrap();
    assert_eq!((updated.finance_account_type_id, updated.title.as_str()), (3, "new"));
    assert_eq!(account_update_request(&change, &Ok(vec![])).unwrap_err(), "Error reading database");
}

#[test]
fn password_texts() {
    assert!(compare_password(&"a".into(), &"a".into()).is_ok());
    assert!(compare_password(&"a".into(), &"b".into()).is_err());
    assert_eq!(password_reset_text(&Ok(false)), "Password Change unsuccessful");
}

#[test]
fn user_documents_decide() {
    let docs = vec![Ok(doc("other")), Ok(doc("bob"))];
    assert_eq!(user_exists_in_documents(&"bob".into(), &docs), Ok(true));
    assert_eq!(user_exists_in_documents(&"carl".into(), &docs).unwrap_err(), "found 2 entries");
    assert_eq!(user_exists_in_documents(&"carl".into(), &vec![]), Ok(false));
    let broken = vec![Err("cursor failed".to_string()), Ok(doc("bob"))];
    assert_eq!(user_exists_in_documents(&"bob".into(), &broken).unwrap_err(), "cursor failed");
    assert_eq!(email_status_in_documents(&"bob".into(), &docs), Ok(EmailVerificationStatus::NotVerified));
    let mut no_mail = doc("bob");
    no_mail.user_email = None;
    assert_eq!(email_status_in_documents(&"bob".into(), &vec![Ok(no_mail)]), Ok(EmailVerificationStatus::NotGiven));
    match email_verify_step(&"bob".into(), &"tok".into(), &docs) {
        EmailVerifyStep::MarkValidated(id) => assert_eq!(id, 42),
        _ => panic!("expected the address to be marked"),
    }
    match email_verify_step(&"bob".into(), &"wrong".into(), &docs) {
        EmailVerifyStep::Finished(r) => assert_eq!(r.unwrap_err(), "provided E-Mail Validation token not matching stored token"),
        _ => panic!("expected a refusal"),
    }
    let data = general_user_data_from_documents(&"bob".into(), &docs).unwrap();
    assert_eq!((data.first_name.as_str(), data.last_name.as_str()), ("Ada", ""));
    assert_eq!(stored_credentials_from_documents(&"bob".into(), &docs).unwrap_err(), "found 2 entries");
    let single = vec![Ok(doc("bob"))];
    assert_eq!(stored_credentials_from_documents(&"bob".into(), &single).unwrap().user_id, 42);
    assert_eq!(stored_credentials_from_documents(&"eve".into(), &single).unwrap_err(), "field is not present");
}

#[test]
fn reset_token_steps() {
    let docs = vec![Ok(doc("bob"))];
    assert!(matches!(token_reset_step(&"bob".into(), &"reset".into(), &docs, 999), TokenResetStep::Update));
    match token_reset_step(&"bob".into(), &"reset".into(), &docs, 1001) {
        TokenResetStep::Refused(t) => assert_eq!(t, "token expired"),
        _ => panic!("expected expiry"),
    }
    match token_reset_step(&"bob".into(), &"other".into(), &docs, 0) {
        TokenResetStep::Refused(t) => assert_eq!(t, "token missmatch"),
        _ => panic!("expected mismatch"),
    }
    match token_reset_step(&"bob".into(), &"reset".into(), &vec![], 0) {
        TokenResetStep::Refused(t) => assert_eq!(t, "unable to reset value"),
        _ => panic!("expected refusal"),
    }
    assert_eq!(timestamp_seconds(1999), 1);
    assert_eq!(timestamp_seconds(-1), -1);
    assert_eq!(timestamp_seconds(-1000), -1);
    assert_eq!(timestamp_seconds(-1001), -2);
    assert!(max_number_update_check(1).is_ok());
    assert_eq!(max_number_update_check(0).unwrap_err(), "could not update max number record, upated record: 0");
}

#[test]
fn passwords_hash_and_check() {
    let creds = UserCredentials { username: "bob".into(), password: "s3cret".into() };
    let hashed = hash_credentials(&creds).unwrap();
    assert!(verify_password_hash(&hashed.password_hash, &"s3cret".into()).is_ok());
    assert!(verify_password_hash(&hashed.password_hash, &"wrong".into()).unwrap_err().starts_with("AUTH ERROR: "));
    assert_eq!(verify_password_hash(&"not a hash".into(), &"x".into()).unwrap_err(), "Failed to parse hash in PHC string format.");
    let stored = Ok(finance_overview::database_handler_mongodb::StoredCredentials { user_id: 9, password_hash: hashed.password_hash });
    assert_eq!(validate_credentials(&stored, &creds), Ok(9));
    assert_eq!(validate_credentials(&Err("x".into()), &creds).unwrap_err(), "Problem getting credentials");
}

#[test]
fn testing_email_validation_test_mail_validation() {
    let rule = r"^[^@\s]+@[^@\s]+\.[^@\s]+$".to_string();
    let testmail = "someUser@website.org";
    let result = validate_email_with_rule(&rule, &testmail.to_string());
    assert!(result.unwrap(), "Error validation e-mail address: {}", testmail);
    let invalidmail = "nopemail@";
    assert!(!validate_email_with_rule(&rule, &invalidmail.to_string()).unwrap());
    let emptymail = "";
    assert!(!validate_email_with_rule(&rule, &emptymail.to_string()).unwrap());
    assert!(validate_email_with_rule(&"(".to_string(), &testmail.to_string())
        .unwrap_err()
        .starts_with("Error parsing regex rule for email validation: "));
}

#[test]
fn session_values() {
    let values = SessionValues { logged_in: Some(true), user_name: Some("bob".into()), user_account_id: Some(3), expiry: Some(1000) };
    let mut handler = SessionDataHandler::new(1, Some(values));
    assert!(handler.is_logged_in());
    assert!(handler.valid_logged_in_at(500).is_ok());
    assert_eq!(handler.valid_logged_in_at(2000).unwrap_err(), "Session expired");
    assert_eq!(handler.user_name(), "bob");
    assert_eq!(handler.user_id(), 3);
    handler.set_expire_at(10_000, None);
    assert_eq!(handler.session().as_ref().unwrap().expiry, Some(70_000));
    let _ = handler.set_loggin(false);
    assert_eq!(handler.valid_logged_in_at(0).unwrap_err(), "not logged in");
    let none = SessionDataHandler::new(2, None);
    assert!(none.is_expired());
    assert_eq!(none.user_name(), "");
    assert!(none.get_utc_expire_timestamp().ends_with(" UTC"));
}

#[test]
fn session_reads_back_what_was_written() {
    let values = SessionValues { logged_in: None, user_name: None, user_account_id: None, expiry: Some(0) };
    let mut handler = SessionDataHandler::new(9, Some(values));
    assert!(handler.is_expired());
    assert!(!handler.is_logged_in());
    assert_eq!(handler.user_name(), "");
    handler.set_user_name(&"carol".to_string()).unwrap();
    handler.set_loggin(true).unwrap();
    handler.set_user_id(&42).unwrap();
    assert!(handler.set_expire(Some(60)));
    assert_eq!(handler.user_name(), "carol");
    assert!(handler.is_logged_in());
    assert_eq!(handler.user_id(), 42);
    assert!(!handler.is_expired());
    assert_eq!(handler.valid_logged_in(), Ok(()));
    handler.set_loggin(false).unwrap();
    assert!(!handler.is_logged_in());
    assert_eq!(handler.valid_logged_in(), Err("not logged in".to_string()));
    handler.set_expire_at(1_000, Some(1));
    assert!(!handler.is_expired_at(2_000));
    assert!(handler.is_expired_at(2_001));
}

#[test]
fn session_expiry_stays_within_chrono_range() {
    let values = SessionValues { logged_in: Some(true), user_name: None, user_account_id: None, expiry: Some(5) };
    let mut handler = SessionDataHandler::new(4, Some(values));
    assert!(!handler.set_expire(Some(u64::MAX)));
    assert_eq!(handler.session().as_ref().unwrap().expiry, Some(5));
    assert!(!handler.set_expire(Some(8_210_266_876_800)));
    assert_eq!(handler.session().as_ref().unwrap().expiry, Some(5));
    handler.set_expire_at(LATEST_TIME_MILLIS - 2_000, Some(2));
    assert_eq!(handler.session().as_ref().unwrap().expiry, Some(LATEST_TIME_MILLIS));
    handler.set_expire_at(EARLIEST_TIME_MILLIS, None);
    assert_eq!(handler.session().as_ref().unwrap().expiry, Some(EARLIEST_TIME_MILLIS + 60_000));
    check_chrono_bounds();
}

fn check_chrono_bounds() {
    assert_eq!(async_session::chrono::DateTime::<async_session::chrono::Utc>::MAX_UTC.timestamp_millis(), LATEST_TIME_MILLIS);
    assert_eq!(async_session::chrono::DateTime::<async_session::chrono::Utc>::MIN_UTC.timestamp_millis(), EARLIEST_TIME_MILLIS);
}

#[test]
fn hashed_reset_secret_checks() {
    let secret = "open sesame".to_string();
    let hash = hash_reset_secret(&secret).unwrap();
    assert_ne!(hash, secret);
    assert_eq!(verify_password_hash(&hash, &secret), Ok(()));
    assert!(verify_password_hash(&hash, &"other".to_string()).is_err());
    let mut d = doc("bob");
    d.reset_secret_hash = Ok(hash);
    let docs = vec![Ok(d)];
    let rule = r"^[a-z]+@[a-z]+\.org$".to_string();
    match reset_token_step(&"bob".into(), &secret, &rule, &docs) {
        ResetTokenStep::Generate(address) => assert_eq!(address, "a@b.org"),
        ResetTokenStep::Refused(t) => panic!("refused: {}", t),
    }
    match reset_token_step(&"bob".into(), &"guess".into(), &rule, &docs) {
        ResetTokenStep::Refused(t) => assert_eq!(t, "error in token generation"),
        _ => panic!("a wrong secret must be refused"),
    }
}

#[test]
fn transaction_failures_are_retried_or_reported() {
    assert!(matches!(transaction_failure_step(true, &"transient".to_string()), TransactionStep::Retry));
    match transaction_failure_step(false, &"write conflict".to_string()) {
        TransactionStep::Fail(m) => assert_eq!(m, "Problem closing transaction: write conflict"),
        _ => panic!("a lasting failure must end the booking"),
    }
}

#[test]
fn failed_commits_are_retried_or_keep_the_result() {
    assert!(matches!(commit_failure_step(true), TransactionStep::Retry));
    assert!(matches!(commit_failure_step(false), TransactionStep::Finish));
}

#[test]
fn used_reset_token_is_refused() {
    let mut d = doc("bob");
    assert!(matches!(token_reset_step(&"bob".into(), &"reset".into(), &vec![Ok(doc("bob"))], 999), TokenResetStep::Update));
    d.password_reset_token_value = Ok("".into());
    d.password_reset_token_timestamp = Err("field is not an i64".into());
    match token_reset_step(&"bob".into(), &"reset".into(), &vec![Ok(d)], 999) {
        TokenResetStep::Refused(_) => {}
        TokenResetStep::Update => panic!("a used token must be refused"),
    }
    let mut d = doc("bob");
    d.password_reset_token_value = Ok("".into());
    d.password_reset_token_timestamp = Err("field is not an i64".into());
    match token_reset_step(&"bob".into(), &"".into(), &vec![Ok(d)], 999) {
        TokenResetStep::Refused(t) => assert_eq!(t, "unable to retrive reset settings"),
        TokenResetStep::Update => panic!("the cleared token itself must be refused"),
    }
}
