//! Allocation of account identifiers and confirmation codes.
use crate::config::AppConfig;
use crate::error::Error;
use crate::model::{code_in_use, has_account, StoreView};
use crate::random::{drawn_from, random_string_over, ALPHANUMERIC, DIGITS};
use crate::store::AccountStore;
use vstd::prelude::*;

verus! {

/// The table whose keys an identifier must avoid.
#[derive(Debug, Clone, Copy, PartialEq, Eq, Structural)]
pub enum IdTable {
    Accounts,
    AccountChanges,
}

/// `id` is already a key of `table`.
pub open spec fn id_taken(v: StoreView, table: IdTable, id: Seq<char>) -> bool {
    match table {
        IdTable::Accounts => has_account(v.accounts, id),
        IdTable::AccountChanges => code_in_use(v.changes, id),
    }
}

/// Every string of `length` characters over `alphabet` is a key of `table`.
pub open spec fn id_space_full(v: StoreView, table: IdTable, alphabet: Seq<char>, length: nat) -> bool {
    forall|s: Seq<char>| s.len() == length && drawn_from(s, alphabet) ==> #[trigger] id_taken(v, table, s)
}

/// No string of `length` characters over `alphabet` is a key of `table`.
pub open spec fn id_space_free(v: StoreView, table: IdTable, alphabet: Seq<char>, length: nat) -> bool {
    forall|s: Seq<char>| s.len() == length && drawn_from(s, alphabet) ==> !#[trigger] id_taken(v, table, s)
}

/// Is `id` already a key of `table`?
pub fn is_id_taken(store: &AccountStore, table: IdTable, id: &String) -> (r: bool)
    ensures
        r == id_taken(store@, table, id@),
{
    match table {
        IdTable::Accounts => store.find_account(id).is_some(),
        IdTable::AccountChanges => store.find_code(id).is_some(),
    }
}

/// Draws random strings of `length` characters over `alphabet` until one is
/// not a key of `table`, with at most `retry_limit` retries after the first
/// draw. The caller holds the store for the whole allocation and the insert
/// that follows, so the identifier is still free when it is stored.
pub fn allocate_id(store: &AccountStore, table: IdTable, alphabet: &str, length: usize, retry_limit: usize) -> (r: Result<String, Error>)
    requires
        alphabet@.len() > 0,
    ensures
        match r {
            Ok(id) => id@.len() == length && drawn_from(id@, alphabet@) && !id_taken(store@, table, id@),
            Err(e) => e == Error::CreateIdRetryLimitExceeded,
        },
        id_space_full(store@, table, alphabet@, length as nat) ==> r is Err,
        id_space_free(store@, table, alphabet@, length as nat) ==> r is Ok,
{
    let mut retries_left = retry_limit;
    loop
        invariant
            alphabet@.len() > 0,
        decreases retries_left,
    {
        let candidate = random_string_over(alphabet, length);
        if !is_id_taken(store, table, &candidate) {
            return Ok(candidate);
        }
        assert(id_taken(store@, table, candidate@));
        if retries_left == 0 {
            return Err(Error::CreateIdRetryLimitExceeded);
        }
        retries_left = retries_left - 1;
    }
}

/// A fresh account identifier: letters and digits, of the configured length.
pub fn create_account_id(store: &AccountStore, config: &AppConfig) -> (r: Result<String, Error>)
    ensures
        match r {
            Ok(id) => id@.len() == config.account_ids_length && drawn_from(id@, ALPHANUMERIC@)
                && !has_account(store@.accounts, id@),
            Err(e) => e == Error::CreateIdRetryLimitExceeded,
        },
        id_space_full(store@, IdTable::Accounts, ALPHANUMERIC@, config.account_ids_length as nat) ==> r is Err,
        id_space_free(store@, IdTable::Accounts, ALPHANUMERIC@, config.account_ids_length as nat) ==> r is Ok,
{
    proof {
        reveal_strlit("abcdefghijklmnopqrstuvwxyzABCDEFGHIJKLMNOPQRSTUVWXYZ0123456789");
    }
    allocate_id(store, IdTable::Accounts, ALPHANUMERIC, config.account_ids_length, config.create_id_retry_limit)
}

/// A fresh confirmation code: digits, of the configured length.
pub fn create_account_change_id(store: &AccountStore, config: &AppConfig) -> (r: Result<String, Error>)
    ensures
        match r {
            Ok(id) => id@.len() == config.account_info_change_ids_length && drawn_from(id@, DIGITS@)
                && !code_in_use(store@.changes, id@),
            Err(e) => e == Error::CreateIdRetryLimitExceeded,
        },
        id_space_full(store@, IdTable::AccountChanges, DIGITS@, config.account_info_change_ids_length as nat) ==> r is Err,
        id_space_free(store@, IdTable::AccountChanges, DIGITS@, config.account_info_change_ids_length as nat) ==> r is Ok,
{
    proof {
        reveal_strlit("0123456789");
    }
    allocate_id(store, IdTable::AccountChanges, DIGITS, config.account_info_change_ids_length, config.create_id_retry_limit)
}

} // verus!
