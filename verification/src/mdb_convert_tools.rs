//! Conversions from stored accounts to what the account hierarchy pages
//! show.
use vstd::prelude::*;

use crate::datatypes::FinanceAccount;
use crate::lookup::{first_index, lemma_first_index, lemma_first_index_is};
use crate::platform::{spec_uuid_text, uuid_to_text};

verus! {

/// What the pages show for an account without a parent.
pub const PARENT_ACCOUNT_ID_EMPTY_WEB_STRING: &'static str = "";

/// An account offered as a parent in the hierarchy form.
pub struct ParentAccountOption {
    pub id: u128,
    pub name: String,
}

/// Holder of the conversion functions.
pub struct MdbConvertTools {}

/// Whether entry `k` of the account list has the id.
pub open spec fn account_at_with_id(accounts: Seq<FinanceAccount>, id: u128) -> spec_fn(int) -> bool {
    |k: int| accounts[k].id == id
}

impl MdbConvertTools {
    /// The parent account id as the pages show it: its text, or the empty
    /// marker without a parent.
    pub fn get_clean_parent_account_id_for_web(parent_account_id: &Option<u128>) -> (r: String)
        ensures
            match parent_account_id {
                None => r@ == PARENT_ACCOUNT_ID_EMPTY_WEB_STRING@,
                Some(id) => r@ == spec_uuid_text(*id),
            },
    {
        match parent_account_id {
            None => String::from_str(PARENT_ACCOUNT_ID_EMPTY_WEB_STRING),
            Some(id) => uuid_to_text(*id),
        }
    }

    /// The title of the first account with the id: the empty marker without
    /// an id, "not found" when no account has it.
    pub fn get_account_name_from_account_list_via_account_id(
        account_list: &Vec<FinanceAccount>,
        account_id: &Option<u128>,
    ) -> (r: String)
        ensures
            match account_id {
                None => r@ == PARENT_ACCOUNT_ID_EMPTY_WEB_STRING@,
                Some(id) => match first_index(account_list@.len() as int, account_at_with_id(account_list@, *id)) {
                    Some(k) => r@ == account_list@[k].title@,
                    None => r@ == "not found"@,
                },
            },
    {
        let id = match account_id {
            None => {
                return String::from_str(PARENT_ACCOUNT_ID_EMPTY_WEB_STRING);
            },
            Some(id) => *id,
        };
        let ghost p = account_at_with_id(account_list@, id);
        let mut k: usize = 0;
        while k < account_list.len()
            invariant
                k <= account_list.len(),
                p == account_at_with_id(account_list@, id),
                *account_id == Some(id),
                forall|j: int| 0 <= j < k ==> !#[trigger] p(j),
            decreases account_list.len() - k,
        {
            if account_list[k].id == id {
                proof {
                    lemma_first_index_is(account_list@.len() as int, p, k as int);
                }
                return account_list[k].title.clone();
            }
            k = k + 1;
        }
        proof {
            lemma_first_index(account_list@.len() as int, p);
        }
        String::from_str("not found")
    }

    /// Every account as an option for a parent: its id and title, in order.
    pub fn get_parent_option_list_from_account_list(account_list: &Vec<FinanceAccount>) -> (r: Vec<ParentAccountOption>)
        ensures
            r@.len() == account_list@.len(),
            forall|k: int|
                0 <= k < r@.len() ==> #[trigger] r@[k].id == account_list@[k].id && r@[k].name@
                    == account_list@[k].title@,
    {
        let mut r: Vec<ParentAccountOption> = Vec::new();
        let mut k: usize = 0;
        while k < account_list.len()
            invariant
                k <= account_list.len(),
                r@.len() == k,
                forall|j: int|
                    0 <= j < k ==> #[trigger] r@[j].id == account_list@[j].id && r@[j].name@ == account_list@[j].title@,
            decreases account_list.len() - k,
        {
            r.push(ParentAccountOption { id: account_list[k].id, name: account_list[k].title.clone() });
            k = k + 1;
        }
        r
    }
}

} // verus!
