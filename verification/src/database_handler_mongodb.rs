//! Connection settings and the user-record rules of the document store:
//! how the user documents a query returns decide whether a user exists,
//! the state of the user's e-mail validation, the stored credentials, the
//! profile data, and the password reset steps.
use vstd::prelude::*;

use crate::datatypes::{GenerallUserData, PasswordResetTokenRequestResult};
use crate::mail_handle::{spec_regex_match, validate_email_with_rule};
use crate::password_handle::{password_matches, verify_password_hash};
use crate::platform::{new_uuid, now_millis, spec_uuid_text, uuid_to_text, LATEST_TIME_MILLIS};
use crate::lookup::{first_index, lemma_first_index, lemma_first_index_is, lemma_first_index_none};
use crate::text::{concat3, fails_with, nat_digits, text_equal, u64_decimal};

verus! {

/// Where and as whom to connect to the document store.
#[derive(Debug)]
pub struct DbConnectionSetting {
    pub url: String,
    pub user: String,
    pub password: String,
    pub instance: String,
}

impl Clone for DbConnectionSetting {
    fn clone(&self) -> (r: Self)
        ensures
            r == *self,
    {
        DbConnectionSetting {
            url: self.url.clone(),
            user: self.user.clone(),
            password: self.password.clone(),
            instance: self.instance.clone(),
        }
    }
}

/// Whether a user's e-mail address is known and validated.
#[derive(Debug, Clone, Copy, PartialEq, Eq, Structural)]
pub enum EmailVerificationStatus {
    NotGiven,
    NotVerified,
    Verified,
}

/// The store of user documents.
pub struct DbHandlerMongoDB {}

impl DbHandlerMongoDB {
    /// The collection of general information.
    pub const COLLECTION_NAME_GENERAL_INFORMATION: &'static str = "GeneralInformation";
    /// The collection counting the requests.
    pub const COLLECTION_NAME_WEBSITE_TRAFFIC: &'static str = "WebSiteTraffic";
    /// The collection of sessions.
    pub const COLLECTION_NAME_SESSION_INFO: &'static str = "SessionInfo";
    /// The collection of users.
    pub const COLLECTION_NAME_USER_LIST: &'static str = "UserList";
    /// The collection of account types.
    pub const COLLECTION_NAME_ACCOUNTING_TYPES: &'static str = "FinanceAccountTypes";
    /// The collection of accounts.
    pub const COLLECTION_NAME_ACCOUNTS: &'static str = "FinanceAccounts";
    /// The collection of booking lines.
    pub const COLLECTION_NAME_BOOKING_ENTRIES: &'static str = "BookingEntries";
    /// The collection of journal entries.
    pub const COLLECTION_NAME_JOURNAL_DIARY: &'static str = "FinanceJournalDiary";
    /// The collection of per-user counters that running numbers are drawn
    /// from.
    pub const COLLECTION_NAME_COUNTERS: &'static str = "Counters";
}

/// A user document as a query returns it: each field read from it, or the
/// text of the error reading it. `user_email` is `None` where the document
/// has no such field.
#[derive(Debug)]
pub struct UserDocument {
    pub user_name: Result<String, String>,
    pub user_id: Result<u128, String>,
    pub password_hash: Result<String, String>,
    pub user_email: Option<Result<String, String>>,
    pub mail_validated: Result<bool, String>,
    pub mail_validation_token: Result<String, String>,
    pub first_name: Result<String, String>,
    pub last_name: Result<String, String>,
    pub reset_secret_hash: Result<String, String>,
    pub password_reset_token_value: Result<String, String>,
    pub password_reset_token_timestamp: Result<i64, String>,
}

/// The credentials stored for a user: the account id and the password hash.
#[derive(Debug)]
pub struct StoredCredentials {
    pub user_id: u128,
    pub password_hash: String,
}

/// The error text for a query that found documents but none of the user.
pub open spec fn found_entries_message(n: nat) -> Seq<char> {
    "found "@ + nat_digits(n) + " entries"@
}

/// The text of reading a field of a document that lacks it.
pub open spec fn field_missing_message() -> Seq<char> {
    "field is not present"@
}

/// Whether document `k` of a query result ends the scan for a user: it
/// could not be read, its user name could not be read, or it is the user's.
pub open spec fn decides_for(docs: Seq<Result<UserDocument, String>>, name: Seq<char>) -> spec_fn(int) -> bool {
    |k: int| match docs[k] {
        Err(_) => true,
        Ok(d) => match d.user_name {
            Err(_) => true,
            Ok(n) => n@ == name,
        },
    }
}

/// The first document that ends the scan for a user, if any.
pub open spec fn deciding_document(docs: Seq<Result<UserDocument, String>>, name: Seq<char>) -> Option<int> {
    first_index(docs.len() as int, decides_for(docs, name))
}

/// The error that a deciding document ends the scan with, if it ends it
/// with an error rather than as the user's document.
pub open spec fn read_error(doc: Result<UserDocument, String>) -> Option<Seq<char>> {
    match doc {
        Err(e) => Some(e@),
        Ok(d) => match d.user_name {
            Err(e) => Some(e@),
            Ok(_) => None,
        },
    }
}

/// Finds the first document that ends the scan for the user.
fn find_deciding_document(name: &String, docs: &Vec<Result<UserDocument, String>>) -> (r: Option<usize>)
    ensures
        match r {
            Some(k) => deciding_document(docs@, name@) == Some(k as int) && k < docs@.len(),
            None => deciding_document(docs@, name@) is None,
        },
{
    let ghost p = decides_for(docs@, name@);
    let mut k: usize = 0;
    while k < docs.len()
        invariant
            k <= docs.len(),
            p == decides_for(docs@, name@),
            forall|j: int| 0 <= j < k ==> !#[trigger] p(j),
        decreases docs.len() - k,
    {
        let decides = match &docs[k] {
            Err(_) => true,
            Ok(d) => match &d.user_name {
                Err(_) => true,
                Ok(n) => text_equal(n.as_str(), name.as_str()),
            },
        };
        if decides {
            proof {
                lemma_first_index_is(docs@.len() as int, p, k as int);
            }
            return Some(k);
        }
        k = k + 1;
    }
    proof {
        lemma_first_index(docs@.len() as int, p);
    }
    None
}

/// The error of a deciding document, if it ends the scan with one.
fn document_read_error(doc: &Result<UserDocument, String>) -> (r: Option<String>)
    ensures
        match read_error(*doc) {
            Some(e) => r matches Some(s) && s@ == e,
            None => r is None,
        },
{
    match doc {
        Err(e) => Some(e.clone()),
        Ok(d) => match &d.user_name {
            Err(e) => Some(e.clone()),
            Ok(_) => None,
        },
    }
}

/// The error text for documents that were found but were not the user's.
fn found_entries(n: usize) -> (r: String)
    ensures
        r@ == found_entries_message(n as nat),
{
    let count = u64_decimal(n as u64);
    concat3("found ", count.as_str(), " entries")
}

/// Whether the user exists, from the documents a query by user name
/// returned: the first document that could not be read decides with its
/// error, the user's document with `true`; documents that are not the
/// user's are an error, no documents at all mean `false`.
pub open spec fn user_exists_outcome(
    docs: Seq<Result<UserDocument, String>>,
    name: Seq<char>,
    r: Result<bool, String>,
) -> bool {
    match deciding_document(docs, name) {
        Some(k) => match read_error(docs[k]) {
            Some(e) => fails_with(r, e),
            None => r == Ok::<bool, String>(true),
        },
        None => if docs.len() > 0 {
            fails_with(r, found_entries_message(docs.len()))
        } else {
            r == Ok::<bool, String>(false)
        },
    }
}

/// Decides whether the user exists from the documents of a query by name.
pub fn user_exists_in_documents(user_name: &String, docs: &Vec<Result<UserDocument, String>>) -> (r: Result<bool, String>)
    ensures
        user_exists_outcome(docs@, user_name@, r),
{
    match find_deciding_document(user_name, docs) {
        Some(k) => match document_read_error(&docs[k]) {
            Some(e) => Err(e),
            None => Ok(true),
        },
        None => if docs.len() > 0 {
            Err(found_entries(docs.len()))
        } else {
            Ok(false)
        },
    }
}

/// The state of the e-mail validation the user's document records: no
/// address (or an empty one) means not given; otherwise the validation
/// flag decides. Unreadable fields are errors.
pub open spec fn document_email_status(d: UserDocument) -> Result<EmailVerificationStatus, Seq<char>> {
    match d.user_email {
        None => Ok(EmailVerificationStatus::NotGiven),
        Some(Err(e)) => Err(e@),
        Some(Ok(m)) => if m@.len() == 0 {
            Ok(EmailVerificationStatus::NotGiven)
        } else {
            match d.mail_validated {
                Err(e) => Err(e@),
                Ok(true) => Ok(EmailVerificationStatus::Verified),
                Ok(false) => Ok(EmailVerificationStatus::NotVerified),
            }
        },
    }
}

/// Whether a status result matches its description.
pub open spec fn status_result_is(
    r: Result<EmailVerificationStatus, String>,
    s: Result<EmailVerificationStatus, Seq<char>>,
) -> bool {
    match s {
        Ok(v) => r == Ok::<EmailVerificationStatus, String>(v),
        Err(e) => fails_with(r, e),
    }
}

/// The e-mail validation state of the user, from the documents of a query
/// by user name: the first document that could not be read decides with
/// its error, the user's document with its state; documents that are not
/// the user's are an error, no documents mean "not verified".
pub open spec fn email_status_outcome(
    docs: Seq<Result<UserDocument, String>>,
    name: Seq<char>,
    r: Result<EmailVerificationStatus, String>,
) -> bool {
    match deciding_document(docs, name) {
        Some(k) => match read_error(docs[k]) {
            Some(e) => fails_with(r, e),
            None => status_result_is(r, document_email_status(docs[k]->Ok_0)),
        },
        None => if docs.len() > 0 {
            fails_with(r, found_entries_message(docs.len()))
        } else {
            r == Ok::<EmailVerificationStatus, String>(EmailVerificationStatus::NotVerified)
        },
    }
}

/// The e-mail validation state a user document records.
fn email_status_of(d: &UserDocument) -> (r: Result<EmailVerificationStatus, String>)
    ensures
        status_result_is(r, document_email_status(*d)),
{
    match &d.user_email {
        None => Ok(EmailVerificationStatus::NotGiven),
        Some(Err(e)) => Err(e.clone()),
        Some(Ok(m)) => {
            if m.unicode_len() == 0 {
                Ok(EmailVerificationStatus::NotGiven)
            } else {
                match &d.mail_validated {
                    Err(e) => Err(e.clone()),
                    Ok(true) => Ok(EmailVerificationStatus::Verified),
                    Ok(false) => Ok(EmailVerificationStatus::NotVerified),
                }
            }
        },
    }
}

/// Decides the user's e-mail validation state from the documents of a
/// query by name.
pub fn email_status_in_documents(user_name: &String, docs: &Vec<Result<UserDocument, String>>) -> (r: Result<
    EmailVerificationStatus,
    String,
>)
    ensures
        email_status_outcome(docs@, user_name@, r),
{
    match find_deciding_document(user_name, docs) {
        Some(k) => match document_read_error(&docs[k]) {
            Some(e) => Err(e),
            None => match &docs[k] {
                Ok(d) => email_status_of(d),
                Err(e) => Err(e.clone()),
            },
        },
        None => if docs.len() > 0 {
            Err(found_entries(docs.len()))
        } else {
            Ok(EmailVerificationStatus::NotVerified)
        },
    }
}

/// The next step of an e-mail validation: it is finished with a result,
/// or the user's address is to be marked as validated.
#[derive(Debug)]
pub enum EmailVerifyStep {
    Finished(Result<EmailVerificationStatus, String>),
    MarkValidated(u128),
}

/// The step an e-mail validation takes with the user's document and the
/// token the user sent: a document without address is refused, unreadable
/// fields are errors; an address already validated is verified; a matching
/// token marks the address as validated, any other token is refused.
pub open spec fn document_verify_step(d: UserDocument, token: Seq<char>) -> Result<Option<u128>, Seq<char>> {
    match d.user_email {
        None => Err("no E-Mail given"@),
        Some(Err(e)) => Err(e@),
        Some(Ok(_)) => match d.mail_validated {
            Err(e) => Err(e@),
            Ok(validated) => match d.mail_validation_token {
                Err(e) => Err(e@),
                Ok(stored) => match d.user_id {
                    Err(e) => Err(e@),
                    Ok(id) => if validated {
                        Ok(None)
                    } else if stored@ == token {
                        Ok(Some(id))
                    } else {
                        Err("provided E-Mail Validation token not matching stored token"@)
                    },
                },
            },
        },
    }
}

/// Whether a step matches the description of a document's step: `Ok(None)`
/// is "verified", `Ok(Some(id))` marks the address of `id`.
pub open spec fn verify_step_is(r: EmailVerifyStep, s: Result<Option<u128>, Seq<char>>) -> bool {
    match s {
        Err(e) => r matches EmailVerifyStep::Finished(res) && fails_with(res, e),
        Ok(None) => r matches EmailVerifyStep::Finished(res) && res == Ok::<EmailVerificationStatus, String>(
            EmailVerificationStatus::Verified,
        ),
        Ok(Some(id)) => r matches EmailVerifyStep::MarkValidated(v) && v == id,
    }
}

/// The step an e-mail validation takes with the documents of a query by
/// user name: the first document that could not be read decides with its
/// error, the user's document by its step; documents that are not the
/// user's are an error, no documents mean "not verified".
pub open spec fn email_verify_outcome(
    docs: Seq<Result<UserDocument, String>>,
    name: Seq<char>,
    token: Seq<char>,
    r: EmailVerifyStep,
) -> bool {
    match deciding_document(docs, name) {
        Some(k) => match read_error(docs[k]) {
            Some(e) => r matches EmailVerifyStep::Finished(res) && fails_with(res, e),
            None => verify_step_is(r, document_verify_step(docs[k]->Ok_0, token)),
        },
        None => if docs.len() > 0 {
            r matches EmailVerifyStep::Finished(res) && fails_with(res, found_entries_message(docs.len()))
        } else {
            r matches EmailVerifyStep::Finished(res) && res == Ok::<EmailVerificationStatus, String>(
                EmailVerificationStatus::NotVerified,
            )
        },
    }
}

fn verify_step_of(d: &UserDocument, token: &String) -> (r: EmailVerifyStep)
    ensures
        verify_step_is(r, document_verify_step(*d, token@)),
{
    match &d.user_email {
        None => EmailVerifyStep::Finished(Err(String::from_str("no E-Mail given"))),
        Some(Err(e)) => EmailVerifyStep::Finished(Err(e.clone())),
        Some(Ok(_)) => match &d.mail_validated {
            Err(e) => EmailVerifyStep::Finished(Err(e.clone())),
            Ok(validated) => match &d.mail_validation_token {
                Err(e) => EmailVerifyStep::Finished(Err(e.clone())),
                Ok(stored) => match &d.user_id {
                    Err(e) => EmailVerifyStep::Finished(Err(e.clone())),
                    Ok(id) => {
                        if *validated {
                            EmailVerifyStep::Finished(Ok(EmailVerificationStatus::Verified))
                        } else if text_equal(stored.as_str(), token.as_str()) {
                            EmailVerifyStep::MarkValidated(*id)
                        } else {
                            EmailVerifyStep::Finished(
                                Err(String::from_str("provided E-Mail Validation token not matching stored token")),
                            )
                        }
                    },
                },
            },
        },
    }
}

/// Decides the step of an e-mail validation from the documents of a query
/// by user name.
pub fn email_verify_step(
    user_name: &String,
    email_validation_string: &String,
    docs: &Vec<Result<UserDocument, String>>,
) -> (r: EmailVerifyStep)
    ensures
        email_verify_outcome(docs@, user_name@, email_validation_string@, r),
{
    match find_deciding_document(user_name, docs) {
        Some(k) => match document_read_error(&docs[k]) {
            Some(e) => EmailVerifyStep::Finished(Err(e)),
            None => match &docs[k] {
                Ok(d) => verify_step_of(d, email_validation_string),
                Err(e) => EmailVerifyStep::Finished(Err(e.clone())),
            },
        },
        None => if docs.len() > 0 {
            EmailVerifyStep::Finished(Err(found_entries(docs.len())))
        } else {
            EmailVerifyStep::Finished(Ok(EmailVerificationStatus::NotVerified))
        },
    }
}

/// The result of marking an address as validated, from the number of
/// documents the update changed: exactly one means verified.
pub fn email_validated_update_result(update: &Result<u64, String>) -> (r: Result<EmailVerificationStatus, String>)
    ensures
        match update {
            Err(e) => fails_with(r, "Error updating email validated token: "@ + e@),
            Ok(n) => if *n == 1 {
                r == Ok::<EmailVerificationStatus, String>(EmailVerificationStatus::Verified)
            } else {
                fails_with(r, "number of updated monrecord not 1"@)
            },
        },
{
    match update {
        Err(e) => Err(crate::text::concat2("Error updating email validated token: ", e.as_str())),
        Ok(n) => if *n == 1 {
            Ok(EmailVerificationStatus::Verified)
        } else {
            Err(String::from_str("number of updated monrecord not 1"))
        },
    }
}

/// Whether document `k` could not be read (or its user name could not).
pub open spec fn unreadable(docs: Seq<Result<UserDocument, String>>) -> spec_fn(int) -> bool {
    |k: int| read_error(docs[k]) is Some
}

/// The stored credentials of the user, from the documents of a query by
/// user name: the first document that could not be read decides with its
/// error; there must be exactly one document, and it must be the user's
/// (else its password hash is missing); its password hash and id must be
/// readable.
pub open spec fn credentials_outcome(
    docs: Seq<Result<UserDocument, String>>,
    name: Seq<char>,
    r: Result<StoredCredentials, String>,
) -> bool {
    match first_index(docs.len() as int, unreadable(docs)) {
        Some(k) => fails_with(r, read_error(docs[k])->0),
        None => if docs.len() != 1 {
            fails_with(r, found_entries_message(docs.len()))
        } else {
            let d = docs[0]->Ok_0;
            if d.user_name->Ok_0@ != name {
                fails_with(r, field_missing_message())
            } else {
                match d.password_hash {
                    Err(e) => fails_with(r, e@),
                    Ok(h) => match d.user_id {
                        Err(_) => fails_with(r, "Could not parse UUID"@),
                        Ok(id) => r matches Ok(c) && c.user_id == id && c.password_hash@ == h@,
                    },
                }
            }
        },
    }
}

/// Reads the stored credentials of the user from the documents of a query
/// by user name.
pub fn stored_credentials_from_documents(
    user_name: &String,
    docs: &Vec<Result<UserDocument, String>>,
) -> (r: Result<StoredCredentials, String>)
    ensures
        credentials_outcome(docs@, user_name@, r),
{
    let ghost p = unreadable(docs@);
    let mut k: usize = 0;
    while k < docs.len()
        invariant
            k <= docs.len(),
            p == unreadable(docs@),
            forall|j: int| 0 <= j < k ==> !#[trigger] p(j),
        decreases docs.len() - k,
    {
        match document_read_error(&docs[k]) {
            Some(e) => {
                proof {
                    lemma_first_index_is(docs@.len() as int, p, k as int);
                }
                return Err(e);
            },
            None => {},
        }
        k = k + 1;
    }
    proof {
        lemma_first_index_none(docs@.len() as int, p);
    }
    if docs.len() != 1 {
        return Err(found_entries(docs.len()));
    }
    proof {
        assert(!p(0));
    }
    match &docs[0] {
        Err(e) => Err(e.clone()),
        Ok(d) => {
            let matches = match &d.user_name {
                Ok(n) => text_equal(n.as_str(), user_name.as_str()),
                Err(_) => false,
            };
            if !matches {
                return Err(String::from_str("field is not present"));
            }
            match &d.password_hash {
                Err(e) => Err(e.clone()),
                Ok(h) => match &d.user_id {
                    Err(_) => Err(String::from_str("Could not parse UUID")),
                    Ok(id) => Ok(StoredCredentials { user_id: *id, password_hash: h.clone() }),
                },
            }
        },
    }
}

/// The profile data of the user, from the documents of a query by user
/// name: the first document that could not be read decides with its error;
/// the user's document gives the names (empty where unreadable); without
/// it the number of documents found is reported.
pub open spec fn general_data_outcome(
    docs: Seq<Result<UserDocument, String>>,
    name: Seq<char>,
    r: Result<GenerallUserData, String>,
) -> bool {
    match deciding_document(docs, name) {
        Some(k) => match read_error(docs[k]) {
            Some(e) => fails_with(r, e),
            None => r matches Ok(g) && g.first_name@ == match docs[k]->Ok_0.first_name {
                Ok(f) => f@,
                Err(_) => Seq::empty(),
            } && g.last_name@ == match docs[k]->Ok_0.last_name {
                Ok(l) => l@,
                Err(_) => Seq::empty(),
            },
        },
        None => fails_with(r, found_entries_message(docs.len())),
    }
}

/// Reads the profile data of the user from the documents of a query by
/// user name.
pub fn general_user_data_from_documents(
    user_name: &String,
    docs: &Vec<Result<UserDocument, String>>,
) -> (r: Result<GenerallUserData, String>)
    ensures
        general_data_outcome(docs@, user_name@, r),
{
    match find_deciding_document(user_name, docs) {
        Some(k) => match document_read_error(&docs[k]) {
            Some(e) => Err(e),
            None => match &docs[k] {
                Ok(d) => Ok(
                    GenerallUserData {
                        first_name: match &d.first_name {
                            Ok(f) => f.clone(),
                            Err(_) => String::new(),
                        },
                        last_name: match &d.last_name {
                            Ok(l) => l.clone(),
                            Err(_) => String::new(),
                        },
                    },
                ),
                Err(e) => Err(e.clone()),
            },
        },
        None => Err(found_entries(docs.len())),
    }
}

/// The next step of a password change with a reset token: refused with a
/// reason, or the password is to be updated.
#[derive(Debug)]
pub enum TokenResetStep {
    Refused(String),
    Update,
}

/// The step a password change with a reset token takes with the first
/// document of a query by user name, at `now_seconds`: no document, an
/// unreadable one, one of another user, missing reset data, a different
/// token, and an expired token are refused, each with its text.
pub open spec fn token_reset_outcome(
    docs: Seq<Result<UserDocument, String>>,
    name: Seq<char>,
    token: Seq<char>,
    now_seconds: i64,
    r: TokenResetStep,
) -> bool {
    let refused = |m: Seq<char>| r matches TokenResetStep::Refused(t) && t@ == m;
    if docs.len() == 0 {
        refused("unable to reset value"@)
    } else {
        match docs[0] {
            Err(e) => refused(e@),
            Ok(d) => match d.user_name {
                Err(e) => refused(e@),
                Ok(n) => if n@ != name {
                    refused("can not  value"@)
                } else {
                    match d.password_reset_token_value {
                        Err(_) => refused("unable to retrive reset settings"@),
                        Ok(v) => match d.password_reset_token_timestamp {
                            Err(_) => refused("unable to retrive reset settings"@),
                            Ok(ts) => if v@ != token {
                                refused("token missmatch"@)
                            } else if now_seconds > ts {
                                refused("token expired"@)
                            } else {
                                r is Update
                            },
                        },
                    }
                },
            },
        }
    }
}

/// Decides the step of a password change with a reset token at
/// `now_seconds`.
pub fn token_reset_step(
    user_name: &String,
    reset_token: &String,
    docs: &Vec<Result<UserDocument, String>>,
    now_seconds: i64,
) -> (r: TokenResetStep)
    ensures
        token_reset_outcome(docs@, user_name@, reset_token@, now_seconds, r),
{
    if docs.len() == 0 {
        return TokenResetStep::Refused(String::from_str("unable to reset value"));
    }
    match &docs[0] {
        Err(e) => TokenResetStep::Refused(e.clone()),
        Ok(d) => match &d.user_name {
            Err(e) => TokenResetStep::Refused(e.clone()),
            Ok(n) => {
                if !text_equal(n.as_str(), user_name.as_str()) {
                    return TokenResetStep::Refused(String::from_str("can not  value"));
                }
                match (&d.password_reset_token_value, &d.password_reset_token_timestamp) {
                    (Ok(v), Ok(ts)) => {
                        if !text_equal(v.as_str(), reset_token.as_str()) {
                            TokenResetStep::Refused(String::from_str("token missmatch"))
                        } else if now_seconds > *ts {
                            TokenResetStep::Refused(String::from_str("token expired"))
                        } else {
                            TokenResetStep::Update
                        }
                    },
                    _ => TokenResetStep::Refused(String::from_str("unable to retrive reset settings")),
                }
            },
        },
    }
}

/// The result of storing the new password after a valid reset token.
pub fn token_reset_update_result(update: &Result<u64, String>) -> (r: Result<bool, String>)
    ensures
        match update {
            Err(_) => fails_with(r, "Error resetting value"@),
            Ok(_) => r == Ok::<bool, String>(true),
        },
{
    match update {
        Err(_) => Err(String::from_str("Error resetting value")),
        Ok(_) => Ok(true),
    }
}

/// The check of the counter update that draws a new running number: exactly
/// one counter document must have changed.
pub fn max_number_update_check(modified_count: u64) -> (r: Result<(), String>)
    ensures
        modified_count == 1 ==> r is Ok,
        modified_count != 1 ==> fails_with(
            r,
            "could not update max number record, upated record: "@ + nat_digits(modified_count as nat),
        ),
{
    if modified_count == 1 {
        Ok(())
    } else {
        let count = u64_decimal(modified_count);
        Err(crate::text::concat2("could not update max number record, upated record: ", count.as_str()))
    }
}

/// What to do after an attempt to write or commit a booking's transaction
/// failed: try again, give up with the reason, or return the booking's
/// result as it stands.
#[derive(Debug)]
pub enum TransactionStep {
    Retry,
    Fail(String),
    Finish,
}

/// The step after a failed attempt to write a booking's transaction: a
/// failure the store marks as transient is retried; any other ends the
/// booking with "Problem closing transaction: " and the reason.
pub fn transaction_failure_step(retryable: bool, reason: &String) -> (r: TransactionStep)
    ensures
        retryable ==> r is Retry,
        !retryable ==> (r matches TransactionStep::Fail(m) && m@ == "Problem closing transaction: "@ + reason@),
{
    if retryable {
        TransactionStep::Retry
    } else {
        TransactionStep::Fail(crate::text::concat2("Problem closing transaction: ", reason.as_str()))
    }
}

/// The step after a failed commit of a booking's written transaction: a
/// commit whose result the store reports as unknown is tried again; after
/// any other failure the booking's result is returned as it stands.
pub fn commit_failure_step(unknown_result: bool) -> (r: TransactionStep)
    ensures
        unknown_result ==> r is Retry,
        !unknown_result ==> r is Finish,
{
    if unknown_result {
        TransactionStep::Retry
    } else {
        TransactionStep::Finish
    }
}

/// The check of an upsert by id: it may match and change at most one
/// document.
pub fn upsert_count_check(matched_count: u64, modified_count: u64) -> (r: Result<(), String>)
    ensures
        matched_count <= 1 && modified_count <= 1 ==> r is Ok,
        !(matched_count <= 1 && modified_count <= 1) ==> fails_with(
            r,
            "Error upserting element, matched count was "@ + nat_digits(matched_count as nat)
                + ", changed count was "@ + nat_digits(modified_count as nat),
        ),
{
    if matched_count <= 1 && modified_count <= 1 {
        Ok(())
    } else {
        let matched = u64_decimal(matched_count);
        let modified = u64_decimal(modified_count);
        let head = concat3("Error upserting element, matched count was ", matched.as_str(), ", changed count was ");
        Err(crate::text::concat2(head.as_str(), modified.as_str()))
    }
}

/// The next step of a password reset token request: refused with a reason,
/// or a token is to be generated and sent to the user's address.
#[derive(Debug)]
pub enum ResetTokenStep {
    Refused(String),
    Generate(String),
}

/// The step a reset token request takes with the first document of a query
/// by user name, the reset secret the user gave, and the e-mail rule: no
/// document, an unreadable one, one of another user, a missing or
/// non-matching reset secret, and an address that is not valid are
/// refused, each with its text; otherwise a token is generated for the
/// stored address.
pub open spec fn reset_token_outcome(
    docs: Seq<Result<UserDocument, String>>,
    name: Seq<char>,
    reset_secret: Seq<char>,
    email_rule: Seq<char>,
    r: ResetTokenStep,
) -> bool {
    let refused = |m: Seq<char>| r matches ResetTokenStep::Refused(t) && t@ == m;
    if docs.len() == 0 {
        refused("unable to generate token"@)
    } else {
        match docs[0] {
            Err(e) => refused(e@),
            Ok(d) => match d.user_name {
                Err(e) => refused(e@),
                Ok(n) => match d.user_email {
                    None => refused(field_missing_message()),
                    Some(Err(e)) => refused(e@),
                    Some(Ok(m)) => if n@ != name {
                        refused("can not generate token"@)
                    } else {
                        match d.reset_secret_hash {
                            Err(_) => refused("error generating token"@),
                            Ok(h) => if !password_matches(h@, reset_secret) {
                                refused("error in token generation"@)
                            } else {
                                match spec_regex_match(email_rule, m@) {
                                    Err(e) => refused("Error parsing regex rule for email validation: "@ + e),
                                    Ok(false) => refused("no valid e-mail address for operation"@),
                                    Ok(true) => r matches ResetTokenStep::Generate(a) && a@ == m@,
                                }
                            },
                        }
                    },
                },
            },
        }
    }
}

/// A reset token works once: the reset writes the empty text over the
/// stored token and over its time. A document whose token reads as the
/// empty text (or cannot be read) refuses every non-empty token, and one
/// whose time cannot be read as a number, as the empty text cannot, refuses
/// every token; so using the same token again is refused.
pub proof fn law_cleared_token_refused(
    docs: Seq<Result<UserDocument, String>>,
    d: UserDocument,
    name: Seq<char>,
    token: Seq<char>,
    now_seconds: i64,
    r: TokenResetStep,
)
    requires
        docs.len() > 0,
        docs[0] == Ok::<UserDocument, String>(d),
        d.password_reset_token_value matches Ok(v) ==> v@ == Seq::<char>::empty(),
        token.len() > 0 || d.password_reset_token_timestamp is Err,
        token_reset_outcome(docs, name, token, now_seconds, r),
    ensures
        r is Refused,
{
}

/// A reset token is accepted until its expiry and refused after it: where
/// the user's first document holds the token and, as its time, the expiry
/// in seconds of a token issued at `issued` with a limit of
/// `time_limit_minutes`, a reset with that token at a second no later than
/// the issuing second plus the limit goes ahead, and one at any later
/// second is refused as expired.
pub proof fn law_reset_token_valid_for_its_limit(
    docs: Seq<Result<UserDocument, String>>,
    d: UserDocument,
    name: Seq<char>,
    token: Seq<char>,
    issued: i64,
    time_limit_minutes: u16,
    expires: i64,
    now_seconds: i64,
    r: TokenResetStep,
)
    requires
        docs.len() > 0,
        docs[0] == Ok::<UserDocument, String>(d),
        d.user_name matches Ok(n) && n@ == name,
        d.password_reset_token_value matches Ok(v) && v@ == token,
        0 <= issued,
        expires == issued + 60_000 * time_limit_minutes,
        d.password_reset_token_timestamp == Ok::<i64, String>((expires / 1000) as i64),
        token_reset_outcome(docs, name, token, now_seconds, r),
    ensures
        now_seconds <= issued / 1000 + 60 * time_limit_minutes ==> r is Update,
        now_seconds > issued / 1000 + 60 * time_limit_minutes ==> (r matches TokenResetStep::Refused(t) && t@
            == "token expired"@),
{
    assert(expires / 1000 == issued / 1000 + 60 * time_limit_minutes) by (nonlinear_arith)
        requires
            expires == issued + 60_000 * time_limit_minutes,
            0 <= issued,
    ;
}

/// A reset secret stored as a hash of itself opens the way to a reset: for
/// the first document of the user, with an address the e-mail rule accepts,
/// the secret that was hashed leads to a token for that address.
pub proof fn law_hashed_reset_secret_opens_reset(
    docs: Seq<Result<UserDocument, String>>,
    d: UserDocument,
    name: Seq<char>,
    email: String,
    secret: Seq<char>,
    rule: Seq<char>,
    r: ResetTokenStep,
)
    requires
        docs.len() > 0,
        docs[0] == Ok::<UserDocument, String>(d),
        d.user_name matches Ok(n) && n@ == name,
        d.user_email == Some(Ok::<String, String>(email)),
        d.reset_secret_hash matches Ok(h) && password_matches(h@, secret),
        spec_regex_match(rule, email@) matches Ok(true),
        reset_token_outcome(docs, name, secret, rule, r),
    ensures
        r matches ResetTokenStep::Generate(a) && a@ == email@,
{
}

/// Decides the step of a reset token request.
pub fn reset_token_step(
    user_name: &String,
    reset_secret: &String,
    email_rule: &String,
    docs: &Vec<Result<UserDocument, String>>,
) -> (r: ResetTokenStep)
    ensures
        reset_token_outcome(docs@, user_name@, reset_secret@, email_rule@, r),
{
    if docs.len() == 0 {
        return ResetTokenStep::Refused(String::from_str("unable to generate token"));
    }
    match &docs[0] {
        Err(e) => ResetTokenStep::Refused(e.clone()),
        Ok(d) => match &d.user_name {
            Err(e) => ResetTokenStep::Refused(e.clone()),
            Ok(n) => match &d.user_email {
                None => ResetTokenStep::Refused(String::from_str("field is not present")),
                Some(Err(e)) => ResetTokenStep::Refused(e.clone()),
                Some(Ok(m)) => {
                    if !text_equal(n.as_str(), user_name.as_str()) {
                        return ResetTokenStep::Refused(String::from_str("can not generate token"));
                    }
                    match &d.reset_secret_hash {
                        Err(_) => ResetTokenStep::Refused(String::from_str("error generating token")),
                        Ok(h) => match verify_password_hash(h, reset_secret) {
                            Err(_) => ResetTokenStep::Refused(String::from_str("error in token generation")),
                            Ok(()) => match validate_email_with_rule(email_rule, m) {
                                Err(e) => ResetTokenStep::Refused(e),
                                Ok(false) => ResetTokenStep::Refused(
                                    String::from_str("no valid e-mail address for operation"),
                                ),
                                Ok(true) => ResetTokenStep::Generate(m.clone()),
                            },
                        },
                    }
                },
            },
        },
    }
}

/// Seconds since the Unix epoch of a time in milliseconds, rounded down.
pub fn timestamp_seconds(millis: i64) -> (r: i64)
    ensures
        r == millis as int / 1000,
{
    if millis >= 0 {
        millis / 1000
    } else {
        let q: i64 = (millis + 1) / 1000;
        proof {
            assert(q == -((-(millis + 1)) / 1000));
        }
        q - 1
    }
}

/// The reset token's expiry: `time_limit_minutes` after `now`.
pub open spec fn reset_token_expiry(now: i64, time_limit_minutes: u16) -> int {
    now + 60_000 * time_limit_minutes
}

/// A fresh reset token (the text of a random id) and its expiry in
/// milliseconds, `time_limit_minutes` from now: the expiry lies exactly the
/// limit after a time the clock reported during the call, not before the
/// Unix epoch and not after chrono's latest time.
pub fn new_reset_token(time_limit_minutes: u16) -> (r: (String, i64))
    ensures
        exists|id: u128| r.0@ == spec_uuid_text(id),
        exists|now: i64| r.1 == reset_token_expiry(now, time_limit_minutes),
        exists|now: i64|
            0 <= now <= LATEST_TIME_MILLIS && #[trigger] (now + 60_000 * time_limit_minutes) == r.1,
{
    let id = new_uuid();
    let token = uuid_to_text(id);
    let now = now_millis();
    let expires_at: i64 = now + 60_000 * (time_limit_minutes as i64);
    assert(expires_at == reset_token_expiry(now, time_limit_minutes));
    assert(token@ == spec_uuid_text(id));
    (token, expires_at)
}

/// The answer to a reset token request once the token was stored: the
/// token, its expiry and the address to send it to, or the failure to store
/// it.
pub fn reset_token_result(
    user_email: &String,
    reset_token: &String,
    expires_at: i64,
    update: &Result<u64, String>,
) -> (r: Result<PasswordResetTokenRequestResult, String>)
    ensures
        match update {
            Err(_) => fails_with(r, "Error validating reset token"@),
            Ok(_) => r matches Ok(t) && t.reset_token@ == reset_token@ && t.expires_at == expires_at
                && t.user_email@ == user_email@,
        },
{
    match update {
        Err(_) => Err(String::from_str("Error validating reset token")),
        Ok(_) => Ok(
            PasswordResetTokenRequestResult {
                reset_token: reset_token.clone(),
                expires_at,
                user_email: user_email.clone(),
            },
        ),
    }
}

} // verus!
