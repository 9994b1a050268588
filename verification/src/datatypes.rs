//! Plain data types shared by the accounting logic.
//!
//! Identifiers are 128-bit UUID values held as `u128`; points in time are
//! milliseconds since the Unix epoch (UTC) held as `i64`; amounts are in the
//! smallest currency unit (cents).
use vstd::prelude::*;

use crate::text::{concat2, i64_decimal, int_decimal};

verus! {

/// First and last name a user stored in the profile.
#[derive(Debug)]
pub struct GenerallUserData {
    pub first_name: String,
    pub last_name: String,
}

/// The kind of a single booking line on an account.
#[derive(Debug, Clone, Copy, PartialEq, Eq, Structural)]
pub enum BookingEntryType {
    Credit,
    Debit,
    SaldoCredit,
    SaldoDebit,
}

/// The stored integer code of a booking entry type.
pub open spec fn booking_type_code(t: BookingEntryType) -> int {
    match t {
        BookingEntryType::Credit => 0,
        BookingEntryType::Debit => 1,
        BookingEntryType::SaldoCredit => 2,
        BookingEntryType::SaldoDebit => 3,
    }
}

/// Whether a booking entry type counts on the credit side of an account.
pub open spec fn is_credit_side(t: BookingEntryType) -> bool {
    t == BookingEntryType::Credit || t == BookingEntryType::SaldoCredit
}

/// Whether a booking entry type marks a saldo (balance carry-over) entry.
pub open spec fn is_saldo_type(t: BookingEntryType) -> bool {
    t == BookingEntryType::SaldoCredit || t == BookingEntryType::SaldoDebit
}

impl BookingEntryType {
    /// Decodes the stored integer code; codes outside 0..=3 are rejected.
    pub fn get_from_int(type_value: i32) -> (r: Result<BookingEntryType, String>)
        ensures
            0 <= type_value <= 3 <==> r is Ok,
            r matches Ok(t) ==> booking_type_code(t) == type_value,
            r matches Err(m) ==> m@ == "value not supported: "@ + int_decimal(type_value as int),
    {
        match type_value {
            0 => Ok(BookingEntryType::Credit),
            1 => Ok(BookingEntryType::Debit),
            2 => Ok(BookingEntryType::SaldoCredit),
            3 => Ok(BookingEntryType::SaldoDebit),
            _ => Err(unsupported_type_message(type_value)),
        }
    }

    /// The integer code under which the type is stored.
    pub fn to_int(&self) -> (r: i32)
        ensures
            r == booking_type_code(*self),
    {
        match self {
            BookingEntryType::Credit => 0,
            BookingEntryType::Debit => 1,
            BookingEntryType::SaldoCredit => 2,
            BookingEntryType::SaldoDebit => 3,
        }
    }

    /// Whether this type counts on the credit side.
    pub fn is_credit(&self) -> (r: bool)
        ensures
            r == is_credit_side(*self),
    {
        match self {
            BookingEntryType::Credit | BookingEntryType::SaldoCredit => true,
            _ => false,
        }
    }

    /// Whether this type is a saldo entry.
    pub fn is_saldo(&self) -> (r: bool)
        ensures
            r == is_saldo_type(*self),
    {
        match self {
            BookingEntryType::SaldoCredit | BookingEntryType::SaldoDebit => true,
            _ => false,
        }
    }
}

/// Each booking entry type has its own code in 0..=3, so decoding the code
/// of a type with `get_from_int` gives the type back.
pub proof fn law_booking_type_code_roundtrip(t: BookingEntryType)
    ensures
        0 <= booking_type_code(t) <= 3,
        forall|s: BookingEntryType| #[trigger] booking_type_code(s) == booking_type_code(t) ==> s == t,
{
}

/// Message for an unknown booking type code.
fn unsupported_type_message(type_value: i32) -> (m: String)
    ensures
        m@ == "value not supported: "@ + int_decimal(type_value as int),
{
    let digits = i64_decimal(type_value as i64);
    concat2("value not supported: ", digits.as_str())
}

/// A user-defined category of finance accounts.
#[derive(Debug, PartialEq, Eq)]
pub struct FinanceAccountType {
    pub id: u128,
    pub title: String,
    pub description: String,
}

impl Clone for FinanceAccountType {
    fn clone(&self) -> (r: Self)
        ensures
            r == *self,
    {
        FinanceAccountType {
            id: self.id,
            title: self.title.clone(),
            description: self.description.clone(),
        }
    }
}

/// A finance account of a user, belonging to one account type.
#[derive(Debug, PartialEq, Eq)]
pub struct FinanceAccount {
    pub id: u128,
    pub finance_account_type_id: u128,
    pub title: String,
    pub description: String,
}

impl Clone for FinanceAccount {
    fn clone(&self) -> (r: Self)
        ensures
            r == *self,
    {
        FinanceAccount {
            id: self.id,
            finance_account_type_id: self.finance_account_type_id,
            title: self.title.clone(),
            description: self.description.clone(),
        }
    }
}

/// One entry of the booking journal: a transfer of `amount` from the credit
/// account to the debit account at `booking_time`.
#[derive(Debug, PartialEq, Eq)]
pub struct FinanceJournalEntry {
    pub id: u128,
    pub is_simple_entry: bool,
    pub is_saldo: bool,
    pub debit_finance_account_id: u128,
    pub credit_finance_account_id: u128,
    pub running_number: u64,
    pub booking_time: i64,
    pub amount: u64,
    pub title: String,
    pub description: String,
}

impl Clone for FinanceJournalEntry {
    fn clone(&self) -> (r: Self)
        ensures
            r == *self,
    {
        FinanceJournalEntry {
            id: self.id,
            is_simple_entry: self.is_simple_entry,
            is_saldo: self.is_saldo,
            debit_finance_account_id: self.debit_finance_account_id,
            credit_finance_account_id: self.credit_finance_account_id,
            running_number: self.running_number,
            booking_time: self.booking_time,
            amount: self.amount,
            title: self.title.clone(),
            description: self.description.clone(),
        }
    }
}

/// One booking line on a single account, created together with a journal
/// entry.
#[derive(Debug, PartialEq, Eq)]
pub struct FinanceAccountBookingEntry {
    pub id: u128,
    pub finance_account_id: u128,
    pub finance_journal_diary_id: u128,
    pub booking_type: BookingEntryType,
    pub booking_time: i64,
    pub amount: u64,
    pub title: String,
    pub description: String,
}

impl Clone for FinanceAccountBookingEntry {
    fn clone(&self) -> (r: Self)
        ensures
            r == *self,
    {
        FinanceAccountBookingEntry {
            id: self.id,
            finance_account_id: self.finance_account_id,
            finance_journal_diary_id: self.finance_journal_diary_id,
            booking_type: self.booking_type,
            booking_time: self.booking_time,
            amount: self.amount,
            title: self.title.clone(),
            description: self.description.clone(),
        }
    }
}

/// A request to book `amount` from the credit account to the debit account.
#[derive(Debug, PartialEq, Eq)]
pub struct FinanceBookingRequest {
    pub is_simple_entry: bool,
    pub is_saldo: bool,
    pub debit_finance_account_id: u128,
    pub credit_finance_account_id: u128,
    pub booking_time: i64,
    pub amount: u64,
    pub title: String,
    pub description: String,
}

impl Clone for FinanceBookingRequest {
    fn clone(&self) -> (r: Self)
        ensures
            r == *self,
    {
        FinanceBookingRequest {
            is_simple_entry: self.is_simple_entry,
            is_saldo: self.is_saldo,
            debit_finance_account_id: self.debit_finance_account_id,
            credit_finance_account_id: self.credit_finance_account_id,
            booking_time: self.booking_time,
            amount: self.amount,
            title: self.title.clone(),
            description: self.description.clone(),
        }
    }
}

/// What a successful booking created: the journal entry and its two lines.
#[derive(Debug, PartialEq, Eq)]
pub struct FinanceBookingResult {
    pub journal_entry: FinanceJournalEntry,
    pub debit_account_entry: FinanceAccountBookingEntry,
    pub credit_account_entry: FinanceAccountBookingEntry,
}

/// The side on which an account's balance stands.
#[derive(Debug, Clone, Copy, PartialEq, Eq, Structural)]
pub enum AccountBalanceType {
    Credit,
    Debit,
}

impl AccountBalanceType {
    /// The text shown for the balance side ("credit balance" or "debit balance").
    pub fn to_display_text(&self) -> (r: String)
        ensures
            *self == AccountBalanceType::Credit ==> r@ == "credit balance"@,
            *self == AccountBalanceType::Debit ==> r@ == "debit balance"@,
    {
        match self {
            AccountBalanceType::Credit => String::from_str("credit balance"),
            AccountBalanceType::Debit => String::from_str("debit balance"),
        }
    }
}

/// The balance of one account: the side and the absolute amount.
#[derive(Debug, PartialEq, Eq)]
pub struct AccountBalanceInfo {
    pub account_id: u128,
    pub balance_type: AccountBalanceType,
    pub amount: u64,
}

/// A request for a password reset token, authorised by the reset secret.
#[derive(Debug)]
pub struct PasswordResetTokenRequest {
    pub user_name: String,
    pub reset_secret: String,
}

/// A generated password reset token with its expiry time and the address it
/// is sent to.
#[derive(Debug)]
pub struct PasswordResetTokenRequestResult {
    pub reset_token: String,
    pub expires_at: i64,
    pub user_email: String,
}

/// A request to set a new password with a reset token.
#[derive(Debug)]
pub struct PasswordResetRequest {
    pub username: String,
    pub reset_token: String,
    pub new_password: String,
}

} // verus!
