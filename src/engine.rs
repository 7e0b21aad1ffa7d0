//! The confirmation engine: proposing changes, looking them up, and the
//! two-phase email change.
use crate::config::AppConfig;
use crate::error::Error;
use crate::ids::{create_account_change_id, create_account_id, id_space_free, id_space_full, IdTable};
use crate::model::{
    account_index, change_index, code_in_use, confirm_outcome, has_account, has_change,
    insert_account_outcome, insert_change_outcome, name_or_email_in_use, Account, AccountChange,
    AccountRow, AccountsTable, ChangeFields, ChangeRow, StoreView,
};
use crate::password::{bcrypt_verdict, compare_plain_to_encrypted_string, encrypt_string, password_check};
use crate::random::{drawn_from, ALPHANUMERIC, DIGITS};
use crate::store::{lemma_account_index, lemma_change_index, AccountStore};
use vstd::prelude::*;

verus! {

/// `stored` is `proposed` with its plain password, if any, replaced by a
/// hash that verifies against it.
pub open spec fn hashed_change(proposed: ChangeFields, stored: ChangeFields) -> bool {
    &&& stored.username == proposed.username
    &&& stored.email == proposed.email
    &&& stored.verified == proposed.verified
    &&& stored.step == proposed.step
    &&& match proposed.password {
        None => stored.password is None,
        Some(p) => stored.password matches Some(h) && bcrypt_verdict(p, h) == Some(true),
    }
}

/// Creates an unverified account from `account` at `now`: refuses a taken
/// username or email, allocates a fresh identifier, hashes the password and
/// stores the row. Returns the identifier. Nothing changes on an error.
pub fn create_account(store: &mut AccountStore, account: &Account, now: u64, config: &AppConfig) -> (r: Result<String, Error>)
    requires
        old(store).wf(),
    ensures
        final(store).wf(),
        match r {
            Ok(id) => id@.len() == config.account_ids_length && drawn_from(id@, ALPHANUMERIC@)
                && exists|h: Seq<char>|
                    bcrypt_verdict(account.password@, h) == Some(true)
                    && #[trigger] insert_account_outcome(old(store)@, id@, account.username@, account.email@, h, now) == Ok::<StoreView, Error>(final(store)@),
            Err(e) => final(store)@ == old(store)@ && (e == Error::CreateIdRetryLimitExceeded
                || e == Error::CryptoFailure || e == Error::DuplicateKey),
        },
        name_or_email_in_use(old(store)@.accounts, account.username@, account.email@)
            <==> r == Err::<String, Error>(Error::DuplicateKey),
        id_space_free(old(store)@, IdTable::Accounts, ALPHANUMERIC@, config.account_ids_length as nat)
            ==> r != Err::<String, Error>(Error::CreateIdRetryLimitExceeded),
        !name_or_email_in_use(old(store)@.accounts, account.username@, account.email@)
            && id_space_full(old(store)@, IdTable::Accounts, ALPHANUMERIC@, config.account_ids_length as nat)
            ==> r == Err::<String, Error>(Error::CreateIdRetryLimitExceeded),
{
    if store.name_or_email_taken(&account.username, &account.email) {
        return Err(Error::DuplicateKey);
    }
    let account_id = match create_account_id(store, config) {
        Ok(id) => id,
        Err(e) => return Err(e),
    };
    let hash = match encrypt_string(account.password.as_str(), config.string_encryption_processing_cost) {
        Ok(h) => h,
        Err(e) => return Err(e),
    };
    let ghost h = hash@;
    match store.insert_account(account_id.clone(), &account.username, &account.email, hash, now) {
        Ok(()) => {
            assert(insert_account_outcome(old(store)@, account_id@, account.username@, account.email@, h, now) == Ok::<StoreView, Error>(store@));
            Ok(account_id)
        }
        Err(e) => Err(e),
    }
}

/// Proposes `change` for the account `account_id` at `now`: checks that the
/// account exists, allocates a fresh code, hashes a plain password, and
/// stores the pending change. Returns the code. Nothing changes on an error.
pub fn create_account_change(store: &mut AccountStore, account_id: &String, change: &AccountChange, now: u64, config: &AppConfig) -> (r: Result<String, Error>)
    requires
        old(store).wf(),
    ensures
        final(store).wf(),
        !has_account(old(store)@.accounts, account_id@) <==> r == Err::<String, Error>(Error::AccountNotFound),
        id_space_free(old(store)@, IdTable::AccountChanges, DIGITS@, config.account_info_change_ids_length as nat)
            ==> r != Err::<String, Error>(Error::CreateIdRetryLimitExceeded),
        has_account(old(store)@.accounts, account_id@) && change@.password is None
            && id_space_free(old(store)@, IdTable::AccountChanges, DIGITS@, config.account_info_change_ids_length as nat)
            ==> r is Ok,
        has_account(old(store)@.accounts, account_id@)
            && id_space_full(old(store)@, IdTable::AccountChanges, DIGITS@, config.account_info_change_ids_length as nat)
            ==> r == Err::<String, Error>(Error::CreateIdRetryLimitExceeded),
        match r {
            Ok(code) => code@.len() == config.account_info_change_ids_length && drawn_from(code@, DIGITS@)
                && !code_in_use(old(store)@.changes, code@)
                && exists|f: ChangeFields|
                    hashed_change(change@, f)
                    && #[trigger] insert_change_outcome(old(store)@, code@, account_id@, f, now) == Ok::<StoreView, Error>(final(store)@),
            Err(e) => final(store)@ == old(store)@ && (e == Error::AccountNotFound
                || e == Error::CreateIdRetryLimitExceeded || (e == Error::CryptoFailure && change@.password is Some)),
        },
{
    if store.find_account(account_id).is_none() {
        return Err(Error::AccountNotFound);
    }
    let code = match create_account_change_id(store, config) {
        Ok(c) => c,
        Err(e) => return Err(e),
    };
    let password = match &change.password {
        Some(p) => match encrypt_string(p.as_str(), config.string_encryption_processing_cost) {
            Ok(h) => Some(h),
            Err(e) => return Err(e),
        },
        None => None,
    };
    let stored = AccountChange {
        username: crate::model::clone_opt(&change.username),
        email: crate::model::clone_opt(&change.email),
        password,
        verified: change.verified,
        step: change.step,
    };
    let ghost f = stored@;
    assert(hashed_change(change@, f));
    match store.insert_account_change(code.clone(), account_id, stored, now) {
        Ok(()) => {
            assert(insert_change_outcome(old(store)@, code@, account_id@, f, now) == Ok::<StoreView, Error>(store@));
            Ok(code)
        }
        Err(e) => Err(e),
    }
}

/// The mutation of the pending change `change_id` of `account_id`.
pub fn get_account_change(store: &AccountStore, account_id: &String, change_id: &String) -> (r: Result<AccountChange, Error>)
    requires
        store.wf(),
    ensures
        match r {
            Ok(c) => has_change(store@.changes, account_id@, change_id@)
                && c@ == store@.changes[change_index(store@.changes, account_id@, change_id@)].fields,
            Err(e) => !has_change(store@.changes, account_id@, change_id@) && e == Error::AccountChangeNotFound,
        },
{
    match store.find_change(account_id, change_id) {
        Some(i) => {
            proof {
                lemma_change_index(store@, account_id@, change_id@, i as int);
            }
            Ok(store.change_row(i).to_change())
        }
        None => Err(Error::AccountChangeNotFound),
    }
}

/// The row of the account `account_id`.
pub fn get_account_from_id(store: &AccountStore, account_id: &String) -> (r: Result<AccountsTable, Error>)
    requires
        store.wf(),
    ensures
        match r {
            Ok(a) => has_account(store@.accounts, account_id@)
                && a@ == store@.accounts[account_index(store@.accounts, account_id@)],
            Err(e) => !has_account(store@.accounts, account_id@) && e == Error::AccountNotFound,
        },
{
    match store.find_account(account_id) {
        Some(i) => {
            proof {
                lemma_account_index(store@, account_id@, i as int);
            }
            Ok(store.account_row(i).duplicate())
        }
        None => Err(Error::AccountNotFound),
    }
}

/// The account at `i` has the email `email`.
pub open spec fn email_at(accounts: Seq<AccountRow>, email: Seq<char>, i: int) -> bool {
    0 <= i < accounts.len() && accounts[i].email == email
}

/// Some account has the email `email`.
pub open spec fn email_in_use(accounts: Seq<AccountRow>, email: Seq<char>) -> bool {
    exists|i: int| #[trigger] email_at(accounts, email, i)
}

/// Logs in with `email` and `password`: the account with that email (emails
/// are unique), if its stored hash accepts the password.
pub fn get_account_from_credentials(store: &AccountStore, email: &String, password: &String) -> (r: Result<AccountsTable, Error>)
    requires
        store.wf(),
    ensures
        !email_in_use(store@.accounts, email@) ==> r == Err::<AccountsTable, Error>(Error::AccountNotFound),
        forall|i: int| #[trigger] email_at(store@.accounts, email@, i) ==> match password_check(password@, store@.accounts[i].password) {
            Ok(_) => r matches Ok(a) && a@ == store@.accounts[i],
            Err(e) => r == Err::<AccountsTable, Error>(e),
        },
{
    let mut i: usize = 0;
    let n = store.account_count();
    while i < n
        invariant
            i <= n,
            n == store@.accounts.len(),
            store.wf(),
            forall|j: int| 0 <= j < i ==> !#[trigger] email_at(store@.accounts, email@, j),
        decreases n - i,
    {
        let a = store.account_row(i);
        if a.email == *email {
            proof {
                assert(email_at(store@.accounts, email@, i as int));
                assert forall|k: int| #[trigger] email_at(store@.accounts, email@, k) implies k == i by {
                    if k != i {
                        assert(store@.accounts[k].email != store@.accounts[i as int].email);
                    }
                }
            }
            return match compare_plain_to_encrypted_string(password.as_str(), a.password.as_str()) {
                Ok(()) => Ok(a.duplicate()),
                Err(e) => Err(e),
            };
        }
        assert(!email_at(store@.accounts, email@, i as int));
        i = i + 1;
    }
    Err(Error::AccountNotFound)
}

/// The email that the pending change `change_id` of `account_id` proposes,
/// provided that it is the change of phase `step` of an email change.
pub open spec fn email_step_check(v: StoreView, account_id: Seq<char>, change_id: Seq<char>, step: i16) -> Result<Seq<char>, Error> {
    if !has_change(v.changes, account_id, change_id) {
        Err(Error::AccountChangeNotFound)
    } else {
        let f = v.changes[change_index(v.changes, account_id, change_id)].fields;
        if f.step == Some(step) && f.email is Some {
            Ok(f.email->0)
        } else {
            Err(Error::StepMismatch)
        }
    }
}

/// The second-phase change that proposes `email`.
pub open spec fn email_step_two_fields(email: Seq<char>) -> ChangeFields {
    ChangeFields { username: None, email: Some(email), password: None, verified: None, step: Some(2) }
}

/// What confirming the first phase `change_id` of an email change does,
/// where `new_code` is the code of the second phase: the first-phase change
/// is replaced by a second-phase change of the same email.
pub open spec fn email_step_one_outcome(v: StoreView, account_id: Seq<char>, change_id: Seq<char>, new_code: Seq<char>, now: u64) -> Result<StoreView, Error> {
    match email_step_check(v, account_id, change_id, 1) {
        Err(e) => Err(e),
        Ok(email) => if !has_account(v.accounts, account_id) {
            Err(Error::AccountNotFound)
        } else {
            Ok(StoreView {
                accounts: v.accounts,
                changes: v.changes.remove(change_index(v.changes, account_id, change_id)).push(ChangeRow {
                    account_change_id: new_code,
                    account_id,
                    fields: email_step_two_fields(email),
                    creation_timestamp: now,
                }),
            })
        },
    }
}

/// What confirming the second phase `change_id` of an email change does.
pub open spec fn email_step_two_outcome(v: StoreView, account_id: Seq<char>, change_id: Seq<char>, now: u64) -> Result<StoreView, Error> {
    match email_step_check(v, account_id, change_id, 2) {
        Err(e) => Err(e),
        Ok(_) => confirm_outcome(v, account_id, change_id, now),
    }
}

/// The first-phase change that proposes `email`.
pub open spec fn email_step_one_fields(email: Seq<char>) -> ChangeFields {
    ChangeFields { username: None, email: Some(email), password: None, verified: None, step: Some(1) }
}

/// Starts an email change of `account_id` to `new_email`: proposes the
/// first phase, whose code goes to the current address.
pub fn begin_email_change(store: &mut AccountStore, account_id: &String, new_email: &String, now: u64, config: &AppConfig) -> (r: Result<String, Error>)
    requires
        old(store).wf(),
    ensures
        final(store).wf(),
        !has_account(old(store)@.accounts, account_id@) <==> r == Err::<String, Error>(Error::AccountNotFound),
        has_account(old(store)@.accounts, account_id@)
            && id_space_free(old(store)@, IdTable::AccountChanges, DIGITS@, config.account_info_change_ids_length as nat)
            ==> r is Ok,
        has_account(old(store)@.accounts, account_id@)
            && id_space_full(old(store)@, IdTable::AccountChanges, DIGITS@, config.account_info_change_ids_length as nat)
            ==> r == Err::<String, Error>(Error::CreateIdRetryLimitExceeded),
        match r {
            Ok(code) => code@.len() == config.account_info_change_ids_length && drawn_from(code@, DIGITS@)
                && !code_in_use(old(store)@.changes, code@)
                && insert_change_outcome(old(store)@, code@, account_id@, email_step_one_fields(new_email@), now) == Ok::<StoreView, Error>(final(store)@),
            Err(e) => final(store)@ == old(store)@ && (e == Error::AccountNotFound || e == Error::CreateIdRetryLimitExceeded),
        },
{
    let change = AccountChange { username: None, email: Some(new_email.clone()), password: None, verified: None, step: Some(1) };
    let r = create_account_change(store, account_id, &change, now, config);
    proof {
        if r is Ok {
            let code = r->Ok_0;
            let f = choose|f: ChangeFields| hashed_change(change@, f)
                && #[trigger] insert_change_outcome(old(store)@, code@, account_id@, f, now) == Ok::<StoreView, Error>(store@);
            assert(f == email_step_one_fields(new_email@));
        }
    }
    r
}

/// Confirms the first phase `change_id` of an email change of `account_id`
/// at `now`: the change must be of phase 1 (else `StepMismatch`); it is
/// replaced by a second-phase change of the same email under a fresh code.
/// Returns that code and the new address, which it goes to. Nothing changes
/// on an error.
pub fn confirm_email_change_step_one(store: &mut AccountStore, account_id: &String, change_id: &String, now: u64, config: &AppConfig) -> (r: Result<(String, String), Error>)
    requires
        old(store).wf(),
    ensures
        final(store).wf(),
        match email_step_one_outcome(old(store)@, account_id@, change_id@, Seq::empty(), now) {
            Err(e) => r == Err::<(String, String), Error>(e),
            Ok(_) => r is Ok || r == Err::<(String, String), Error>(Error::CreateIdRetryLimitExceeded),
        },
        match r {
            Ok((code, email)) => code@.len() == config.account_info_change_ids_length && drawn_from(code@, DIGITS@)
                && !code_in_use(old(store)@.changes, code@)
                && email_step_check(old(store)@, account_id@, change_id@, 1) == Ok::<Seq<char>, Error>(email@)
                && email_step_one_outcome(old(store)@, account_id@, change_id@, code@, now) == Ok::<StoreView, Error>(final(store)@),
            Err(_) => final(store)@ == old(store)@,
        },
{
    let ci = match store.find_change(account_id, change_id) {
        Some(i) => i,
        None => return Err(Error::AccountChangeNotFound),
    };
    proof {
        lemma_change_index(store@, account_id@, change_id@, ci as int);
    }
    let row = store.change_row(ci);
    let email = match &row.email {
        Some(e) => e.clone(),
        None => return Err(Error::StepMismatch),
    };
    match row.step {
        Some(s) => if s != 1 {
            return Err(Error::StepMismatch);
        },
        None => return Err(Error::StepMismatch),
    }
    if store.find_account(account_id).is_none() {
        return Err(Error::AccountNotFound);
    }
    let code = match create_account_change_id(store, config) {
        Ok(c) => c,
        Err(e) => return Err(e),
    };
    let ghost v = store@;
    let change = AccountChange { username: None, email: Some(email.clone()), password: None, verified: None, step: Some(2) };
    let ghost new_row = ChangeRow { account_change_id: code@, account_id: account_id@, fields: email_step_two_fields(email@), creation_timestamp: now };
    let inserted = store.insert_account_change(code.clone(), account_id, change, now);
    assert(inserted is Ok);
    assert(store@.changes == v.changes.push(new_row));
    proof {
        assert(code_in_use(store@.changes, change_id@)) by {
            assert(store@.changes[ci as int].account_change_id == change_id@);
        }
        let j = choose|j: int| 0 <= j < store@.changes.len() && #[trigger] store@.changes[j].account_change_id == change_id@;
        if j != ci {
            assert(store@.changes[j].account_change_id == store@.changes[ci as int].account_change_id);
        }
    }
    store.delete_account_change(change_id);
    proof {
        assert(store@.changes =~= v.changes.remove(ci as int).push(new_row));
    }
    Ok((code, email))
}

/// Confirms the second phase `change_id` of an email change of `account_id`
/// at `now`: the change must be of phase 2 (else `StepMismatch`); it is then
/// confirmed like any other change, which sets the new email.
pub fn confirm_email_change_step_two(store: &mut AccountStore, account_id: &String, change_id: &String, now: u64) -> (r: Result<(), Error>)
    requires
        old(store).wf(),
    ensures
        final(store).wf(),
        match email_step_two_outcome(old(store)@, account_id@, change_id@, now) {
            Ok(v) => r is Ok && final(store)@ == v,
            Err(e) => r == Err::<(), Error>(e) && final(store)@ == old(store)@,
        },
{
    let ci = match store.find_change(account_id, change_id) {
        Some(i) => i,
        None => return Err(Error::AccountChangeNotFound),
    };
    proof {
        lemma_change_index(store@, account_id@, change_id@, ci as int);
    }
    let row = store.change_row(ci);
    if row.email.is_none() {
        return Err(Error::StepMismatch);
    }
    match row.step {
        Some(s) => if s != 2 {
            return Err(Error::StepMismatch);
        },
        None => return Err(Error::StepMismatch),
    }
    store.confirm_account_change(account_id, change_id, now)
}

} // verus!
