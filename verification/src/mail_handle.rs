//! E-mail: the format check of addresses against the configured rule, and
//! the data of an outgoing mail.
use vstd::prelude::*;

use crate::text::{concat2, fails_with};

verus! {

/// An e-mail to send.
#[derive(Debug)]
pub struct SimpleMailData {
    pub receiver: String,
    pub sender: String,
    pub subject: String,
    pub body: String,
}

/// The mail server to send through.
#[derive(Debug)]
pub struct SmtpMailSetting {
    pub host: String,
    pub client_name: String,
    pub client_password: String,
}

/// Whether a text matches a rule, or why the rule could not be built.
pub type RuleMatch = Result<bool, String>;

/// What `regex_automata`'s meta regex makes of a rule and a text: whether
/// the text matches, or the text of the error building the rule.
pub uninterp spec fn spec_regex_match(rule: Seq<char>, text: Seq<char>) -> Result<bool, Seq<char>>;

/// Calls `regex_automata::meta::Regex::new(rule)` and, where that succeeds,
/// `is_match(text)`: a function of the rule and the text, named
/// `spec_regex_match`.
#[verifier::external_body]
fn regex_is_match(rule: &str, text: &str) -> (r: RuleMatch)
    ensures
        r matches Ok(b) ==> (spec_regex_match(rule@, text@) matches Ok(v) && v == b),
        r matches Err(e) ==> (spec_regex_match(rule@, text@) matches Err(m) && m == e@),
{
    match regex_automata::meta::Regex::new(rule) {
        Ok(re) => Ok(re.is_match(text.as_bytes())),
        Err(e) => Err(e.to_string()),
    }
}

/// Whether an e-mail address has the format the rule describes; a rule
/// that cannot be built is reported.
pub fn validate_email_with_rule(email_rule: &String, email_address_to_check: &String) -> (r: Result<bool, String>)
    ensures
        match spec_regex_match(email_rule@, email_address_to_check@) {
            Ok(b) => r == Ok::<bool, String>(b),
            Err(e) => fails_with(r, "Error parsing regex rule for email validation: "@ + e),
        },
{
    match regex_is_match(email_rule.as_str(), email_address_to_check.as_str()) {
        Ok(b) => Ok(b),
        Err(e) => Err(concat2("Error parsing regex rule for email validation: ", e.as_str())),
    }
}

} // verus!
