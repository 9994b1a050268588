//! The answers of the asynchronous form requests of the front end: which
//! requests the session allows, how the forms become stored items, and the
//! result texts and status codes of each request.
use vstd::prelude::*;

use crate::datatypes::{FinanceAccount, FinanceAccountType};
use crate::html_render::{
    account_template, type_title_for, shows_account, AccountTemplate, AccountTypeTemplate,
    SessionGate,
};
use crate::lookup::{first_index, lemma_first_index, lemma_first_index_is};
use crate::platform::{parse_uuid_text, spec_uuid_parse, spec_uuid_text, uuid_to_text};
use crate::text::{concat2, fails_with};

verus! {

/// The status code of a request that succeeded.
pub const STATUS_OK: u16 = 200;

/// The status code of a request that was refused.
pub const STATUS_BAD_REQUEST: u16 = 400;

/// A request to change the password of the logged-in user.
pub struct ChangePasswortFormInput {
    pub password_new_1: String,
    pub password_new_2: String,
    pub password_old: String,
}

/// The answer to a simple request, with the session's new expiry.
pub struct SimpleAjaxRequestResult {
    pub result: String,
    pub new_expire_timestamp: String,
}

/// A request to change the secret that authorises password resets.
pub struct ChangeResetSecretFormInput {
    pub new_reset_secret: String,
}

/// The answer to a reset secret change.
pub struct ChangeResetSecretResponse {
    pub result: String,
}

/// A request to register a user with an e-mail address.
pub struct RegisterUserViaEmailFormInput {
    pub username: String,
    pub password: String,
    pub email: String,
}

/// A request to create an account type.
pub struct CreateNewFinanceAccountTypeFormInput {
    pub title: String,
    pub description: String,
}

/// The answer to an account type creation: the result text, the new id
/// and the table row of the new type.
pub struct CreateNewFinanceAccountTypeResponse {
    pub result: String,
    pub new_id: String,
    pub subpage: String,
}

/// The table row of a new account type.
pub struct AccountTypeCreateResponseTemplate {
    pub account_type: AccountTypeTemplate,
}

/// A request to change an account type.
pub struct UpdateFinanceAccountTypeFormInput {
    pub account_type_id: String,
    pub title: String,
    pub description: String,
}

/// The answer to an account type change.
pub struct UpdateFinanceAccountTypeResponse {
    pub result: String,
}

/// A request to create an account.
pub struct CreateNewFinanceAccountFormInput {
    pub title: String,
    pub description: String,
    pub account_type_id: String,
}

/// The answer to an account creation: the result text, the new id and the
/// table row of the new account.
pub struct CreateNewFinanceAccountResponse {
    pub result: String,
    pub new_id: String,
    pub subpage: String,
}

/// The table row of a new account.
pub struct AccountCreateResponseTemplate {
    pub account: AccountTemplate,
}

/// A request to change an account.
pub struct UpdateFinanceAccountFormInput {
    pub account_id: String,
    pub title: String,
    pub description: String,
}

/// The answer to an account change.
pub struct UpdateFinanceAccountResponse {
    pub result: String,
}

/// Why a request of a logged-in user is turned away: `None` lets it
/// through; an expired session is answered with `expired_text`.
pub open spec fn gate_refusal_text(gate: SessionGate, expired_text: Seq<char>) -> Option<Seq<char>> {
    match gate {
        SessionGate::NotLoggedIn => Some("not logged in"@),
        SessionGate::Expired => Some(expired_text),
        SessionGate::Active => None,
    }
}

/// Why a request of a logged-in user is turned away, if it is.
pub fn gate_refusal(gate: SessionGate, expired_text: &str) -> (r: Option<String>)
    ensures
        match gate_refusal_text(gate, expired_text@) {
            Some(t) => r matches Some(s) && s@ == t,
            None => r is None,
        },
{
    match gate {
        SessionGate::NotLoggedIn => Some(String::from_str("not logged in")),
        SessionGate::Expired => Some(String::from_str(expired_text)),
        SessionGate::Active => None,
    }
}

/// Why a request that needs a user who is not logged in (registration,
/// password reset) is turned away: a logged-in user is answered with
/// `logged_in_text`, an expired session is asked to try again.
pub open spec fn anonymous_refusal_text(logged_in: bool, expired: bool, logged_in_text: Seq<char>) -> Option<
    Seq<char>,
> {
    if logged_in {
        Some(logged_in_text)
    } else if expired {
        Some("Session expired, please try again"@)
    } else {
        None
    }
}

/// Why a request that needs a user who is not logged in is turned away, if
/// it is.
pub fn anonymous_refusal(logged_in: bool, expired: bool, logged_in_text: &str) -> (r: Option<String>)
    ensures
        match anonymous_refusal_text(logged_in, expired, logged_in_text@) {
            Some(t) => r matches Some(s) && s@ == t,
            None => r is None,
        },
{
    if logged_in {
        Some(String::from_str(logged_in_text))
    } else if expired {
        Some(String::from_str("Session expired, please try again"))
    } else {
        None
    }
}

/// The text answering a password change of a logged-in user, once the
/// old password was checked: a wrong old password, a failed update, or
/// success.
pub fn password_change_text(old_password_valid: bool, update: &Result<bool, String>) -> (r: String)
    ensures
        !old_password_valid ==> r@ == "old password did not match"@,
        old_password_valid ==> match update {
            Err(e) => r@ == "error updating password: "@ + e@,
            Ok(_) => r@ == "password change successfull"@,
        },
{
    if !old_password_valid {
        return String::from_str("old password did not match");
    }
    match update {
        Err(e) => concat2("error updating password: ", e.as_str()),
        Ok(_) => String::from_str("password change successfull"),
    }
}

/// The error text when the two new passwords differ.
pub open spec fn password_mismatch_message() -> Seq<char> {
    "new passwords do not match"@
}

/// Checks that the new password was typed the same way twice.
pub fn compare_password(password_new_1: &String, password_new_2: &String) -> (r: Result<(), String>)
    ensures
        password_new_1@ == password_new_2@ ==> r is Ok,
        password_new_1@ != password_new_2@ ==> fails_with(r, password_mismatch_message()),
{
    if crate::text::text_equal(password_new_1.as_str(), password_new_2.as_str()) {
        Ok(())
    } else {
        Err(String::from_str("new passwords do not match"))
    }
}

/// The text answering a reset secret change.
pub fn reset_secret_change_text(update: &Result<bool, String>) -> (r: String)
    ensures
        match update {
            Err(e) => r@ == "error updating reset secret: "@ + e@,
            Ok(_) => r@ == "reset secret change successfull"@,
        },
{
    match update {
        Err(e) => concat2("error updating reset secret: ", e.as_str()),
        Ok(_) => String::from_str("reset secret change successfull"),
    }
}

/// The text answering a registration.
pub fn registration_text(register: &Result<String, String>) -> (r: String)
    ensures
        match register {
            Err(e) => r@ == e@,
            Ok(_) => r@ == "OK, please check your E-Mail"@,
        },
{
    match register {
        Err(e) => e.clone(),
        Ok(_) => String::from_str("OK, please check your E-Mail"),
    }
}

/// The text answering a password reset request, once the token was made
/// and (only then) the e-mail sent.
pub fn reset_request_text(token: &Result<(), String>, send: &Result<bool, String>) -> (r: String)
    ensures
        match token {
            Err(e) => r@ == e@,
            Ok(_) => match send {
                Err(e) => r@ == e@,
                Ok(_) => r@ == "Password Request successful, please check your e-mail"@,
            },
        },
{
    match token {
        Err(e) => e.clone(),
        Ok(_) => match send {
            Err(e) => e.clone(),
            Ok(_) => String::from_str("Password Request successful, please check your e-mail"),
        },
    }
}

/// The text answering a password change with a reset token.
pub fn password_reset_text(change: &Result<bool, String>) -> (r: String)
    ensures
        match change {
            Err(e) => r@ == e@,
            Ok(true) => r@ == "Password Change successful, please login via normal page"@,
            Ok(false) => r@ == "Password Change unsuccessful"@,
        },
{
    match change {
        Err(e) => e.clone(),
        Ok(true) => String::from_str("Password Change successful, please login via normal page"),
        Ok(false) => String::from_str("Password Change unsuccessful"),
    }
}

/// The status code and result text of a store update: the error with a
/// refusal, or `ok_text` with success.
pub fn update_answer(upsert: &Result<(), String>, ok_text: &str) -> (r: (u16, String))
    ensures
        match upsert {
            Err(e) => r.0 == STATUS_BAD_REQUEST && r.1@ == e@,
            Ok(_) => r.0 == STATUS_OK && r.1@ == ok_text@,
        },
{
    match upsert {
        Err(e) => (STATUS_BAD_REQUEST, e.clone()),
        Ok(_) => (STATUS_OK, String::from_str(ok_text)),
    }
}

/// The new account type a creation form describes, under a fresh id.
pub fn new_account_type_from_form(new_id: u128, input: &CreateNewFinanceAccountTypeFormInput) -> (r: FinanceAccountType)
    ensures
        r.id == new_id,
        r.title@ == input.title@,
        r.description@ == input.description@,
{
    FinanceAccountType { id: new_id, title: input.title.clone(), description: input.description.clone() }
}

/// The answer to an account type creation: the store's refusal (status
/// 400) or "OK, created", the new type's id, and its rendered table row.
pub fn account_type_create_response(
    new_type: &FinanceAccountType,
    upsert: &Result<(), String>,
    subpage: String,
) -> (r: (u16, CreateNewFinanceAccountTypeResponse))
    ensures
        match upsert {
            Err(e) => r.0 == STATUS_BAD_REQUEST && r.1.result@ == e@,
            Ok(_) => r.0 == STATUS_OK && r.1.result@ == "OK, created"@,
        },
        r.1.new_id@ == spec_uuid_text(new_type.id),
        r.1.subpage == subpage,
{
    let (status, result) = update_answer(upsert, "OK, created");
    (status, CreateNewFinanceAccountTypeResponse { result, new_id: uuid_to_text(new_type.id), subpage })
}

/// The account type a change form describes: refused when its id cannot be
/// read.
pub fn account_type_update_request(input: &UpdateFinanceAccountTypeFormInput) -> (r: Result<FinanceAccountType, String>)
    ensures
        match spec_uuid_parse(input.account_type_id@) {
            Err(_) => fails_with(r, "Error reading data"@),
            Ok(id) => r matches Ok(t) && t.id == id && t.title@ == input.title@ && t.description@
                == input.description@,
        },
{
    match parse_uuid_text(input.account_type_id.as_str()) {
        Err(_) => Err(String::from_str("Error reading data")),
        Ok(id) => Ok(FinanceAccountType { id, title: input.title.clone(), description: input.description.clone() }),
    }
}

/// The new account a creation form describes, under a fresh id: refused,
/// with the parser's message, when the type id cannot be read.
pub fn new_account_from_form(new_id: u128, input: &CreateNewFinanceAccountFormInput) -> (r: Result<FinanceAccount, String>)
    ensures
        match spec_uuid_parse(input.account_type_id@) {
            Err(m) => fails_with(r, m),
            Ok(type_id) => r matches Ok(a) && a.id == new_id && a.finance_account_type_id == type_id
                && a.title@ == input.title@ && a.description@ == input.description@,
        },
{
    match parse_uuid_text(input.account_type_id.as_str()) {
        Err(e) => Err(e),
        Ok(type_id) => Ok(
            FinanceAccount {
                id: new_id,
                finance_account_type_id: type_id,
                title: input.title.clone(),
                description: input.description.clone(),
            },
        ),
    }
}

/// The title shown for a new account whose type is not among the types.
pub open spec fn created_account_missing_type() -> Seq<char> {
    "Type not found"@
}

/// The outcome of an account creation once the account was stored and the
/// types were read again: the result text (the store's refusal, else "OK,
/// created"; a failed type lookup replaces it), its status code, and the
/// table row of the new account (its type title looked up among the types
/// read, none when they could not be read).
pub fn account_create_outcome(
    new_account: &FinanceAccount,
    upsert: &Result<(), String>,
    types: &Result<Vec<FinanceAccountType>, String>,
) -> (r: (u16, String, AccountTemplate))
    ensures
        match types {
            Err(e) => r.0 == STATUS_BAD_REQUEST && r.1@ == e@ && shows_account(
                r.2,
                *new_account,
                Seq::<FinanceAccountType>::empty(),
                created_account_missing_type(),
            ),
            Ok(ts) => shows_account(r.2, *new_account, ts@, created_account_missing_type()) && match upsert {
                Err(e) => r.0 == STATUS_BAD_REQUEST && r.1@ == e@,
                Ok(_) => r.0 == STATUS_OK && r.1@ == "OK, created"@,
            },
        },
{
    let (status, text) = update_answer(upsert, "OK, created");
    match types {
        Err(e) => {
            let none: Vec<FinanceAccountType> = Vec::new();
            assert(none@ =~= Seq::<FinanceAccountType>::empty());
            (STATUS_BAD_REQUEST, e.clone(), account_template(new_account, &none, "Type not found"))
        },
        Ok(ts) => (status, text, account_template(new_account, ts, "Type not found")),
    }
}

/// Whether entry `k` of the account list has the id.
pub open spec fn account_with_id(accounts: Seq<FinanceAccount>, id: u128) -> spec_fn(int) -> bool {
    |k: int| accounts[k].id == id
}

/// The account a change form describes: its id must be readable
/// ("Error reading data") and name one of the user's accounts ("Error
/// reading database", also when the accounts could not be read); the
/// account keeps its type and takes the new title and description.
pub open spec fn account_update_outcome(
    input: UpdateFinanceAccountFormInput,
    accounts: Result<Vec<FinanceAccount>, String>,
    r: Result<FinanceAccount, String>,
) -> bool {
    match spec_uuid_parse(input.account_id@) {
        Err(_) => fails_with(r, "Error reading data"@),
        Ok(id) => match accounts {
            Err(_) => fails_with(r, "Error reading database"@),
            Ok(accs) => match first_index(accs@.len() as int, account_with_id(accs@, id)) {
                None => fails_with(r, "Error reading database"@),
                Some(k) => r matches Ok(a) && a.id == id && a.finance_account_type_id
                    == accs@[k].finance_account_type_id && a.title@ == input.title@ && a.description@
                    == input.description@,
            },
        },
    }
}

/// The account a change form describes, checked against the user's
/// accounts.
pub fn account_update_request(
    input: &UpdateFinanceAccountFormInput,
    accounts: &Result<Vec<FinanceAccount>, String>,
) -> (r: Result<FinanceAccount, String>)
    ensures
        account_update_outcome(*input, *accounts, r),
{
    let id = match parse_uuid_text(input.account_id.as_str()) {
        Err(_) => {
            return Err(String::from_str("Error reading data"));
        },
        Ok(id) => id,
    };
    let accs = match accounts {
        Err(_) => {
            return Err(String::from_str("Error reading database"));
        },
        Ok(v) => v,
    };
    let ghost p = account_with_id(accs@, id);
    let mut k: usize = 0;
    while k < accs.len()
        invariant
            k <= accs.len(),
            p == account_with_id(accs@, id),
            spec_uuid_parse(input.account_id@) matches Ok(v) && v == id,
            *accounts matches Ok(v) && v@ == accs@,
            forall|j: int| 0 <= j < k ==> !#[trigger] p(j),
        decreases accs.len() - k,
    {
        if accs[k].id == id {
            proof {
                lemma_first_index_is(accs@.len() as int, p, k as int);
            }
            return Ok(
                FinanceAccount {
                    id,
                    finance_account_type_id: accs[k].finance_account_type_id,
                    title: input.title.clone(),
                    description: input.description.clone(),
                },
            );
        }
        k = k + 1;
    }
    proof {
        lemma_first_index(accs@.len() as int, p);
    }
    Err(String::from_str("Error reading database"))
}

} // verus!
