//! The pages of the web front end: the values each page template shows, and
//! the rules that choose them from the session and the stored data. The
//! templates themselves are rendered by the web layer.
use vstd::prelude::*;

use crate::database_handler_mongodb::EmailVerificationStatus;
use crate::datatypes::{FinanceAccount, FinanceAccountType, GenerallUserData};
use crate::lookup::{first_index, lemma_first_index, lemma_first_index_is};
use crate::platform::{spec_uuid_text, uuid_to_text};
use crate::text::{concat2, concat3, i64_decimal, int_decimal, text_equal};

verus! {

/// Where a request stands with its session: the user is not logged in, the
/// session has expired, or the user may act.
#[derive(Debug, Clone, Copy, PartialEq, Eq, Structural)]
pub enum SessionGate {
    NotLoggedIn,
    Expired,
    Active,
}

/// A request whose user is not logged in is turned away first, then one
/// whose session has expired.
pub open spec fn gate_of(logged_in: bool, expired: bool) -> SessionGate {
    if !logged_in {
        SessionGate::NotLoggedIn
    } else if expired {
        SessionGate::Expired
    } else {
        SessionGate::Active
    }
}

/// Where a request stands with its session.
pub fn session_gate(logged_in: bool, expired: bool) -> (r: SessionGate)
    ensures
        r == gate_of(logged_in, expired),
{
    if !logged_in {
        SessionGate::NotLoggedIn
    } else if expired {
        SessionGate::Expired
    } else {
        SessionGate::Active
    }
}

/// The welcome page.
pub struct MainPageTemplate {
    pub web_running_port: u16,
    pub additional_info: String,
    pub called_times: i32,
}

/// The home page of a user.
#[derive(Debug)]
pub struct UserHomeTemplate {
    pub username: String,
    pub session_expire_timestamp: String,
    pub logged_in: bool,
    pub logout_reason: String,
    pub information_show: bool,
    pub information_text: String,
    pub user_vorname: String,
    pub user_nachname: String,
}

/// A page to be rendered as the response.
pub struct HtmlTemplate<T>(pub T);

/// The page shown when the e-mail address is not validated yet.
pub struct RegistrationIncompleteTemplate {
    pub username: String,
    pub registration_failure: String,
}

/// The page shown for invalid credentials.
pub struct InvalidTemplate {
    pub username: String,
}

/// The page shown after creating a login.
pub struct CreateLoginTemplate {
    pub user_name: String,
    pub create_result: String,
}

/// The registration page (it shows no data).
pub struct RegisterUserTemplate {}

/// The page shown after an e-mail validation.
pub struct EmailValidationResultTemplate {
    pub do_html_redirect: String,
    pub validation_main_result: String,
    pub validation_detail_result: String,
}

/// The page to request a password reset token (it shows no data).
pub struct RequestPasswortResetTokenTemplate {}

/// The page to set a new password with a reset token.
pub struct PasswordResetRequestTemplate {
    pub user_name: String,
    pub reset_token: String,
}

/// The main page of the account configuration.
#[derive(Debug)]
pub struct AccountingMainConfigTemplate {
    pub username: String,
    pub account_types: Vec<AccountTypeTemplate>,
    pub accounts: Vec<AccountTemplate>,
}

/// One account type as the configuration page shows it.
#[derive(Debug)]
pub struct AccountTypeTemplate {
    pub id: String,
    pub name: String,
    pub description: String,
}

impl Clone for AccountTypeTemplate {
    fn clone(&self) -> (r: Self)
        ensures
            r == *self,
    {
        AccountTypeTemplate {
            id: self.id.clone(),
            name: self.name.clone(),
            description: self.description.clone(),
        }
    }
}

/// One account as the configuration page shows it.
#[derive(Debug)]
pub struct AccountTemplate {
    pub id: String,
    pub name: String,
    pub description: String,
    pub type_title: String,
}

impl Clone for AccountTemplate {
    fn clone(&self) -> (r: Self)
        ensures
            r == *self,
    {
        AccountTemplate {
            id: self.id.clone(),
            name: self.name.clone(),
            description: self.description.clone(),
            type_title: self.type_title.clone(),
        }
    }
}

/// One line of an account table: a booking line, or the closing balance
/// line. Amounts are in cents.
#[derive(Debug)]
pub struct AccountTableBookingRow {
    pub booking_time: i64,
    pub is_credit: bool,
    pub is_saldo: bool,
    pub title: String,
    pub amount_cents: u64,
}

/// The table of one account: its booking lines since the latest saldo and
/// the balance.
#[derive(Debug)]
pub struct AccountTableTemplate {
    pub account_name: String,
    pub booking_rows: Vec<AccountTableBookingRow>,
}

/// One journal entry as the review page shows it. Amounts are in cents.
#[derive(Debug)]
pub struct JournalTableRow {
    pub id: String,
    pub booking_time: i64,
    pub is_simple_entry: bool,
    pub is_saldo: bool,
    pub credit_account_name: String,
    pub debit_account_name: String,
    pub title: String,
    pub description: String,
    pub amount_cents: u64,
    pub running_number: i64,
}

/// Whether the home page shows what the session and the user's stored data
/// say: a page without user for a user who is not logged in or whose session
/// expired, an error page when the user's data could not be read, and the
/// user's page otherwise.
pub open spec fn user_home_shows(
    t: UserHomeTemplate,
    gate: SessionGate,
    username: Seq<char>,
    expire: Seq<char>,
    user_data: Option<Result<GenerallUserData, String>>,
) -> bool {
    &&& t.session_expire_timestamp@ == expire
    &&& !t.information_show
    &&& t.information_text@ == Seq::<char>::empty()
    &&& match gate {
        SessionGate::NotLoggedIn => {
            &&& t.logout_reason@ == "not logged in"@
            &&& t.username@ == Seq::<char>::empty()
            &&& !t.logged_in
            &&& t.user_vorname@ == Seq::<char>::empty()
            &&& t.user_nachname@ == Seq::<char>::empty()
        },
        SessionGate::Expired => {
            &&& t.logout_reason@ == "Session expired"@
            &&& t.username@ == Seq::<char>::empty()
            &&& !t.logged_in
            &&& t.user_vorname@ == Seq::<char>::empty()
            &&& t.user_nachname@ == Seq::<char>::empty()
        },
        SessionGate::Active => {
            &&& t.username@ == username
            &&& match user_data {
                Some(Ok(d)) => {
                    &&& t.logged_in
                    &&& t.logout_reason@ == Seq::<char>::empty()
                    &&& t.user_vorname@ == d.first_name@
                    &&& t.user_nachname@ == d.last_name@
                },
                _ => {
                    &&& !t.logged_in
                    &&& t.logout_reason@ == "error calling database"@
                    &&& t.user_vorname@ == Seq::<char>::empty()
                    &&& t.user_nachname@ == Seq::<char>::empty()
                },
            }
        },
    }
}

/// The home page for the session and the user's stored data (`None` where
/// the data was not read).
pub fn user_home_template(
    gate: SessionGate,
    username: &String,
    session_expire_timestamp: &String,
    user_data: &Option<Result<GenerallUserData, String>>,
) -> (r: UserHomeTemplate)
    ensures
        user_home_shows(r, gate, username@, session_expire_timestamp@, *user_data),
{
    let (shown_name, logged_in, reason, first, last) = match gate {
        SessionGate::NotLoggedIn => (String::new(), false, String::from_str("not logged in"), String::new(), String::new()),
        SessionGate::Expired => (String::new(), false, String::from_str("Session expired"), String::new(), String::new()),
        SessionGate::Active => match user_data {
            Some(Ok(d)) => (username.clone(), true, String::new(), d.first_name.clone(), d.last_name.clone()),
            _ => (username.clone(), false, String::from_str("error calling database"), String::new(), String::new()),
        },
    };
    UserHomeTemplate {
        username: shown_name,
        session_expire_timestamp: session_expire_timestamp.clone(),
        logged_in,
        logout_reason: reason,
        information_show: false,
        information_text: String::new(),
        user_vorname: first,
        user_nachname: last,
    }
}

/// The page shown when the e-mail address is not validated yet.
pub fn registration_incomplete_template() -> (r: RegistrationIncompleteTemplate)
    ensures
        r.username@ == "chosen login"@,
        r.registration_failure@ == "missing email validation"@,
{
    RegistrationIncompleteTemplate {
        username: String::from_str("chosen login"),
        registration_failure: String::from_str("missing email validation"),
    }
}

/// The page shown for invalid credentials.
pub fn invalid_template() -> (r: InvalidTemplate)
    ensures
        r.username@ == "chosen login is invalid"@,
{
    InvalidTemplate { username: String::from_str("chosen login is invalid") }
}

/// The page shown after creating a login: the new user's id, or why the
/// login could not be created.
pub fn create_login_template(user_name: &String, create_result: &Result<u128, String>) -> (r: CreateLoginTemplate)
    ensures
        r.user_name@ == user_name@,
        match create_result {
            Ok(id) => r.create_result@ == "your user id is "@ + spec_uuid_text(*id),
            Err(e) => r.create_result@ == e@,
        },
{
    let text = match create_result {
        Ok(id) => {
            let id_text = uuid_to_text(*id);
            concat2("your user id is ", id_text.as_str())
        },
        Err(e) => e.clone(),
    };
    CreateLoginTemplate { user_name: user_name.clone(), create_result: text }
}

/// The detail line of the e-mail validation page.
pub open spec fn email_validation_detail(
    user_name: Seq<char>,
    check: Result<EmailVerificationStatus, String>,
) -> Seq<char> {
    match check {
        Err(e) => e@,
        Ok(EmailVerificationStatus::NotGiven) => "Validation not startet"@,
        Ok(EmailVerificationStatus::NotVerified) => "not verified"@,
        Ok(EmailVerificationStatus::Verified) => "email for "@ + user_name + " validated"@,
    }
}

/// The page shown after an e-mail validation.
pub fn email_validation_template(
    user_name: &String,
    check: &Result<EmailVerificationStatus, String>,
) -> (r: EmailValidationResultTemplate)
    ensures
        r.do_html_redirect@ == "false"@,
        r.validation_main_result@ == "Error during validaiton"@,
        r.validation_detail_result@ == email_validation_detail(user_name@, *check),
{
    let detail = match check {
        Err(e) => e.clone(),
        Ok(EmailVerificationStatus::NotGiven) => String::from_str("Validation not startet"),
        Ok(EmailVerificationStatus::NotVerified) => String::from_str("not verified"),
        Ok(EmailVerificationStatus::Verified) => concat3("email for ", user_name.as_str(), " validated"),
    };
    EmailValidationResultTemplate {
        do_html_redirect: String::from_str("false"),
        validation_main_result: String::from_str("Error during validaiton"),
        validation_detail_result: detail,
    }
}

/// Whether entry `k` of the type list has the id.
pub open spec fn type_with_id(types: Seq<FinanceAccountType>, id: u128) -> spec_fn(int) -> bool {
    |k: int| types[k].id == id
}

/// The title of the first account type with the id, or the fallback text.
pub open spec fn type_title_for(types: Seq<FinanceAccountType>, id: u128, fallback: Seq<char>) -> Seq<char> {
    match first_index(types.len() as int, type_with_id(types, id)) {
        Some(k) => types[k].title@,
        None => fallback,
    }
}

/// Finds the title of the first account type with the id.
pub fn find_type_title(types: &Vec<FinanceAccountType>, id: u128, fallback: &str) -> (r: String)
    ensures
        r@ == type_title_for(types@, id, fallback@),
{
    let ghost p = type_with_id(types@, id);
    let mut k: usize = 0;
    while k < types.len()
        invariant
            k <= types.len(),
            p == type_with_id(types@, id),
            forall|j: int| 0 <= j < k ==> !#[trigger] p(j),
        decreases types.len() - k,
    {
        if types[k].id == id {
            proof {
                lemma_first_index_is(types@.len() as int, p, k as int);
            }
            return types[k].title.clone();
        }
        k = k + 1;
    }
    proof {
        lemma_first_index(types@.len() as int, p);
    }
    String::from_str(fallback)
}

/// How the configuration page shows an account type.
pub open spec fn shows_type(t: AccountTypeTemplate, a: FinanceAccountType) -> bool {
    &&& t.id@ == spec_uuid_text(a.id)
    &&& t.name@ == a.title@
    &&& t.description@ == a.description@
}

/// How the configuration page shows an account, with the title of its type.
pub open spec fn shows_account(
    t: AccountTemplate,
    a: FinanceAccount,
    types: Seq<FinanceAccountType>,
    fallback: Seq<char>,
) -> bool {
    &&& t.id@ == spec_uuid_text(a.id)
    &&& t.name@ == a.title@
    &&& t.description@ == a.description@
    &&& t.type_title@ == type_title_for(types, a.finance_account_type_id, fallback)
}

/// An account type as the configuration page shows it.
pub fn account_type_template(t: &FinanceAccountType) -> (r: AccountTypeTemplate)
    ensures
        shows_type(r, *t),
{
    AccountTypeTemplate { id: uuid_to_text(t.id), name: t.title.clone(), description: t.description.clone() }
}

/// An account as the configuration page shows it; `fallback` stands for
/// the type title when the type is not among the types.
pub fn account_template(a: &FinanceAccount, types: &Vec<FinanceAccountType>, fallback: &str) -> (r: AccountTemplate)
    ensures
        shows_account(r, *a, types@, fallback@),
{
    AccountTemplate {
        id: uuid_to_text(a.id),
        name: a.title.clone(),
        description: a.description.clone(),
        type_title: find_type_title(types, a.finance_account_type_id, fallback),
    }
}

/// The account types as the configuration page shows them.
pub fn account_type_templates(types: &Vec<FinanceAccountType>) -> (r: Vec<AccountTypeTemplate>)
    ensures
        r@.len() == types@.len(),
        forall|k: int| 0 <= k < r@.len() ==> shows_type(#[trigger] r@[k], types@[k]),
{
    let mut r: Vec<AccountTypeTemplate> = Vec::new();
    let mut k: usize = 0;
    while k < types.len()
        invariant
            k <= types.len(),
            r@.len() == k,
            forall|j: int| 0 <= j < k ==> shows_type(#[trigger] r@[j], types@[j]),
        decreases types.len() - k,
    {
        r.push(account_type_template(&types[k]));
        k = k + 1;
    }
    r
}

/// The accounts as the configuration page shows them.
pub fn account_templates(
    accounts: &Vec<FinanceAccount>,
    types: &Vec<FinanceAccountType>,
    fallback: &str,
) -> (r: Vec<AccountTemplate>)
    ensures
        r@.len() == accounts@.len(),
        forall|k: int| 0 <= k < r@.len() ==> shows_account(#[trigger] r@[k], accounts@[k], types@, fallback@),
{
    let mut r: Vec<AccountTemplate> = Vec::new();
    let mut k: usize = 0;
    while k < accounts.len()
        invariant
            k <= accounts.len(),
            r@.len() == k,
            forall|j: int| 0 <= j < k ==> shows_account(#[trigger] r@[j], accounts@[j], types@, fallback@),
        decreases accounts.len() - k,
    {
        r.push(account_template(&accounts[k], types, fallback));
        k = k + 1;
    }
    r
}

/// The title shown for an account whose type is missing on the
/// configuration page.
pub open spec fn config_page_missing_type() -> Seq<char> {
    "no title found"@
}

/// Whether the configuration page shows what the session and the stored
/// data say: a page without lists (titled with the reason) for a user who
/// is not logged in, for an expired session, or when the types or the
/// accounts could not be read; otherwise the user's types and accounts.
pub open spec fn config_page_shows(
    t: AccountingMainConfigTemplate,
    gate: SessionGate,
    username: Seq<char>,
    types: Result<Vec<FinanceAccountType>, String>,
    accounts: Result<Vec<FinanceAccount>, String>,
) -> bool {
    let empty = t.account_types@.len() == 0 && t.accounts@.len() == 0;
    match gate {
        SessionGate::NotLoggedIn => empty && t.username@ == "not logged in"@,
        SessionGate::Expired => empty && t.username@ == "Session expired"@,
        SessionGate::Active => match types {
            Err(_) => empty && t.username@ == "problems while getting account types list"@,
            Ok(ts) => match accounts {
                Err(_) => empty && t.username@ == "problems while getting account list"@,
                Ok(accs) => {
                    &&& t.username@ == username
                    &&& t.account_types@.len() == ts@.len()
                    &&& forall|k: int| 0 <= k < ts@.len() ==> shows_type(#[trigger] t.account_types@[k], ts@[k])
                    &&& t.accounts@.len() == accs@.len()
                    &&& forall|k: int|
                        0 <= k < accs@.len() ==> shows_account(
                            #[trigger] t.accounts@[k],
                            accs@[k],
                            ts@,
                            config_page_missing_type(),
                        )
                },
            },
        },
    }
}

/// The main page of the account configuration. The accounts are read only
/// when the types could be read.
pub fn accounting_config_template(
    gate: SessionGate,
    username: &String,
    types: &Result<Vec<FinanceAccountType>, String>,
    accounts: &Result<Vec<FinanceAccount>, String>,
) -> (r: AccountingMainConfigTemplate)
    ensures
        config_page_shows(r, gate, username@, *types, *accounts),
{
    match gate {
        SessionGate::NotLoggedIn => {
            return AccountingMainConfigTemplate {
                username: String::from_str("not logged in"),
                account_types: Vec::new(),
                accounts: Vec::new(),
            };
        },
        SessionGate::Expired => {
            return AccountingMainConfigTemplate {
                username: String::from_str("Session expired"),
                account_types: Vec::new(),
                accounts: Vec::new(),
            };
        },
        SessionGate::Active => {},
    }
    match types {
        Err(_) => AccountingMainConfigTemplate {
            username: String::from_str("problems while getting account types list"),
            account_types: Vec::new(),
            accounts: Vec::new(),
        },
        Ok(ts) => match accounts {
            Err(_) => AccountingMainConfigTemplate {
                username: String::from_str("problems while getting account list"),
                account_types: Vec::new(),
                accounts: Vec::new(),
            },
            Ok(accs) => AccountingMainConfigTemplate {
                username: username.clone(),
                account_types: account_type_templates(ts),
                accounts: account_templates(accs, ts, "no title found"),
            },
        },
    }
}

/// A record of how often a route was called, as the traffic collection
/// holds it (records without a text route name or a 32-bit count are not
/// counted).
#[derive(Debug)]
pub struct RouteCallRecord {
    pub route_name: String,
    pub calling_amount: i32,
}

/// What the visit counter does with the store after a visit.
#[derive(Debug, Clone, Copy, PartialEq, Eq, Structural)]
pub enum VisitAction {
    Nothing,
    InsertFirst,
    UpdateCount,
}

/// The records of the route among the records.
pub open spec fn route_records(records: Seq<RouteCallRecord>, route: Seq<char>) -> Seq<RouteCallRecord>
    decreases records.len(),
{
    if records.len() == 0 {
        Seq::empty()
    } else {
        let prev = route_records(records.drop_last(), route);
        if records.last().route_name@ == route {
            prev.push(records.last())
        } else {
            prev
        }
    }
}

/// The count after one more call: one more than recorded, wrapping around
/// at the largest 32-bit value.
pub open spec fn next_count(amount: i32) -> i32 {
    if amount == i32::MAX {
        i32::MIN
    } else {
        (amount + 1) as i32
    }
}

/// The visit counter's step for a call of `route`: without the records it
/// reports so; with no record of the route it inserts the first count; with
/// one it counts one more; with several it reports them. The count shown
/// is 1 unless a single record was counted up.
pub open spec fn visit_outcome(
    records: Result<Vec<RouteCallRecord>, String>,
    route: Seq<char>,
    r: (VisitAction, String, i32),
) -> bool {
    match records {
        Err(_) => r.0 == VisitAction::Nothing && r.1@ == "<br> Could not get calling information"@ && r.2 == 1,
        Ok(rs) => {
            let found = route_records(rs@, route);
            if found.len() == 0 {
                r.0 == VisitAction::InsertFirst && r.1@ == "<br> first documented call"@ && r.2 == 1
            } else if found.len() == 1 {
                r.0 == VisitAction::UpdateCount && r.2 == next_count(found[0].calling_amount) && r.1@
                    == "<br> already called "@ + int_decimal(next_count(found[0].calling_amount) as int)
                    + " times"@
            } else {
                r.0 == VisitAction::Nothing && r.1@ == "<br> multiple records found"@ && r.2 == 1
            }
        },
    }
}

/// Decides the visit counter's step for a call of `route`.
pub fn visit_step(route: &str, records: &Result<Vec<RouteCallRecord>, String>) -> (r: (VisitAction, String, i32))
    ensures
        visit_outcome(*records, route@, r),
{
    let rs = match records {
        Err(_) => {
            return (VisitAction::Nothing, String::from_str("<br> Could not get calling information"), 1);
        },
        Ok(v) => v,
    };
    let mut found: usize = 0;
    let mut last_amount: i32 = 0;
    let mut k: usize = 0;
    while k < rs.len()
        invariant
            k <= rs.len(),
            found == route_records(rs@.take(k as int), route@).len(),
            found > 0 ==> last_amount == route_records(rs@.take(k as int), route@).last().calling_amount,
            found <= k,
        decreases rs.len() - k,
    {
        proof {
            assert(rs@.take(k + 1).drop_last() =~= rs@.take(k as int));
        }
        if text_equal(rs[k].route_name.as_str(), route) {
            found = found + 1;
            last_amount = rs[k].calling_amount;
        }
        k = k + 1;
    }
    proof {
        assert(rs@.take(rs@.len() as int) =~= rs@);
    }
    if found == 0 {
        (VisitAction::InsertFirst, String::from_str("<br> first documented call"), 1)
    } else if found == 1 {
        let count: i32 = if last_amount == i32::MAX {
            i32::MIN
        } else {
            last_amount + 1
        };
        let digits = i64_decimal(count as i64);
        (VisitAction::UpdateCount, concat3("<br> already called ", digits.as_str(), " times"), count)
    } else {
        (VisitAction::Nothing, String::from_str("<br> multiple records found"), 1)
    }
}

/// The information line after the store was written: a failed insert or
/// update is added to it.
pub fn visit_info_after_store(action: VisitAction, info: &String, store: &Result<(), String>) -> (r: String)
    ensures
        match (action, store) {
            (VisitAction::InsertFirst, Err(_)) => r@ == info@ + "<br>could not insert into database"@,
            (VisitAction::UpdateCount, Err(_)) => r@ == info@ + "<br>could not update database"@,
            _ => r@ == info@,
        },
{
    match (action, store) {
        (VisitAction::InsertFirst, Err(_)) => concat2(info.as_str(), "<br>could not insert into database"),
        (VisitAction::UpdateCount, Err(_)) => concat2(info.as_str(), "<br>could not update database"),
        _ => info.clone(),
    }
}

/// The welcome page: the https port, the visit information and the count.
pub fn main_page_template(web_running_port: u16, additional_info: String, called_times: i32) -> (r: MainPageTemplate)
    ensures
        r.web_running_port == web_running_port,
        r.additional_info == additional_info,
        r.called_times == called_times,
{
    MainPageTemplate { web_running_port, additional_info, called_times }
}

/// The page to set a new password with the token from the reset e-mail.
pub fn password_reset_request_template(user_name: &String, token: &String) -> (r: PasswordResetRequestTemplate)
    ensures
        r.user_name@ == user_name@,
        r.reset_token@ == token@,
{
    PasswordResetRequestTemplate { user_name: user_name.clone(), reset_token: token.clone() }
}

/// Where a login goes once the credentials were checked and, for valid
/// ones, the e-mail validation state read: invalid credentials and a failed
/// state lookup to the invalid page, an unvalidated address to the
/// registration page, otherwise to the user's home page.
pub fn login_redirect(credentials_valid: bool, mail_status: &Result<EmailVerificationStatus, String>) -> (r: String)
    ensures
        !credentials_valid ==> r@ == "/invalid"@,
        credentials_valid ==> match mail_status {
            Err(_) => r@ == "/invalid"@,
            Ok(EmailVerificationStatus::NotVerified) => r@ == "/registration_incomplete"@,
            Ok(_) => r@ == "/user_home"@,
        },
{
    if !credentials_valid {
        return String::from_str("/invalid");
    }
    match mail_status {
        Err(_) => String::from_str("/invalid"),
        Ok(EmailVerificationStatus::NotVerified) => String::from_str("/registration_incomplete"),
        Ok(_) => String::from_str("/user_home"),
    }
}

} // verus!
