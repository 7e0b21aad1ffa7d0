//! The account store: the accounts table and the pending-change ledger, with
//! lookups and the atomic confirmation of a pending change.
use crate::error::Error;
use crate::model::{
    account_at, account_index, deletion_fields, deletion_outcome, apply_change, code_in_use, insert_account_outcome,
    insert_change_outcome, live_changes, live_accounts, abandoned_emails, abandoned, expired_change_owners, expired, name_or_email_in_use, holds_name_or_email, without_code, AccountChange, change_at, change_index, clashes, clashes_with,
    confirm_outcome,
    has_account, has_change, ids_unique, next_stamp, names_unique, owners_exist, owned_changes,
    stamp_exhausted, store_wf, AccountChangesTable, AccountRow,
    AccountsTable, ChangeRow, StoreView,
};
use vstd::prelude::*;

verus! {

/// Both tables of the service. Every operation takes the store as a whole
/// (`&mut self`), so each one is a single atomic unit: no other operation can
/// observe it half done.
pub struct AccountStore {
    accounts: Vec<AccountsTable>,
    changes: Vec<AccountChangesTable>,
}

impl View for AccountStore {
    type V = StoreView;

    closed spec fn view(&self) -> StoreView {
        StoreView {
            accounts: self.accounts@.map_values(|a: AccountsTable| a@),
            changes: self.changes@.map_values(|c: AccountChangesTable| c@),
        }
    }
}

/// Under unique identifiers the account found at `i` is the one that
/// `account_index` names.
pub proof fn lemma_account_index(v: StoreView, id: Seq<char>, i: int)
    requires
        ids_unique(v),
        account_at(v.accounts, id, i),
    ensures
        account_index(v.accounts, id) == i,
{
    let j = account_index(v.accounts, id);
    assert(account_at(v.accounts, id, j));
    assert(v.accounts[i].account_id == v.accounts[j].account_id);
}

/// Under unique codes the change found at `i` is the one that
/// `change_index` names.
pub proof fn lemma_change_index(v: StoreView, account_id: Seq<char>, change_id: Seq<char>, i: int)
    requires
        ids_unique(v),
        change_at(v.changes, account_id, change_id, i),
    ensures
        change_index(v.changes, account_id, change_id) == i,
{
    let j = change_index(v.changes, account_id, change_id);
    assert(change_at(v.changes, account_id, change_id, j));
    assert(v.changes[i].account_change_id == v.changes[j].account_change_id);
}

/// Removing a row keeps codes unique; replacing an account by one with the
/// same identifier keeps identifiers unique.
pub proof fn lemma_confirm_keeps_unique(v: StoreView, ai: int, a: AccountRow, ci: int)
    requires
        ids_unique(v),
        0 <= ai < v.accounts.len(),
        0 <= ci < v.changes.len(),
        a.account_id == v.accounts[ai].account_id,
    ensures
        ids_unique(StoreView { accounts: v.accounts.update(ai, a), changes: v.changes.remove(ci) }),
{
    let w = StoreView { accounts: v.accounts.update(ai, a), changes: v.changes.remove(ci) };
    assert forall|i: int, j: int|
        0 <= i < w.accounts.len() && 0 <= j < w.accounts.len() && i != j
            implies #[trigger] w.accounts[i].account_id != #[trigger] w.accounts[j].account_id by {
        assert(w.accounts[i].account_id == v.accounts[i].account_id);
        assert(w.accounts[j].account_id == v.accounts[j].account_id);
    }
    assert forall|i: int, j: int|
        0 <= i < w.changes.len() && 0 <= j < w.changes.len() && i != j
            implies #[trigger] w.changes[i].account_change_id != #[trigger] w.changes[j].account_change_id by {
        let oi = if i < ci { i } else { i + 1 };
        let oj = if j < ci { j } else { j + 1 };
        assert(w.changes[i] == v.changes[oi]);
        assert(w.changes[j] == v.changes[oj]);
    }
}

/// Applying a change that clashes with no other account keeps usernames and
/// emails unique.
pub proof fn lemma_confirm_keeps_names(v: StoreView, ai: int, f: crate::model::ChangeFields, a: AccountRow)
    requires
        names_unique(v.accounts),
        0 <= ai < v.accounts.len(),
        !clashes(v.accounts, ai, f),
        a.username == crate::model::pick(f.username, v.accounts[ai].username),
        a.email == crate::model::pick(f.email, v.accounts[ai].email),
    ensures
        names_unique(v.accounts.update(ai, a)),
{
    let w = v.accounts.update(ai, a);
    assert forall|k: int| #![trigger w[k]] 0 <= k < v.accounts.len() && k != ai implies
        w[k].username != a.username && w[k].email != a.email by {
        assert(w[k] == v.accounts[k]);
        assert(!clashes_with(v.accounts[k], f));
    }
    assert forall|i: int, j: int|
        0 <= i < w.len() && 0 <= j < w.len() && i != j
            implies #[trigger] w[i].username != #[trigger] w[j].username by {
        if i != ai && j != ai {
            assert(w[i] == v.accounts[i] && w[j] == v.accounts[j]);
        } else if i == ai {
            assert(w[j].username != a.username);
        } else {
            assert(w[i].username != a.username);
        }
    }
    assert forall|i: int, j: int|
        0 <= i < w.len() && 0 <= j < w.len() && i != j
            implies #[trigger] w[i].email != #[trigger] w[j].email by {
        if i != ai && j != ai {
            assert(w[i] == v.accounts[i] && w[j] == v.accounts[j]);
        } else if i == ai {
            assert(w[j].email != a.email);
        } else {
            assert(w[i].email != a.email);
        }
    }
}

/// Accounts taken from `s`, with distinct identifiers, have distinct
/// usernames and emails when those of `s` are.
pub proof fn lemma_names_of_subset(s: Seq<AccountRow>, t: Seq<AccountRow>)
    requires
        names_unique(s),
        forall|m: int| 0 <= m < t.len() ==> s.contains(#[trigger] t[m]),
        forall|i: int, j: int|
            0 <= i < t.len() && 0 <= j < t.len() && i != j ==> #[trigger] t[i].account_id != #[trigger] t[j].account_id,
    ensures
        names_unique(t),
{
    assert forall|i: int, j: int| 0 <= i < t.len() && 0 <= j < t.len() && i != j implies
        #[trigger] t[i].username != #[trigger] t[j].username by {
        assert(s.contains(t[i]) && s.contains(t[j]));
        let ki = choose|k: int| 0 <= k < s.len() && s[k] == t[i];
        let kj = choose|k: int| 0 <= k < s.len() && s[k] == t[j];
        assert(t[i].account_id != t[j].account_id);
    }
    assert forall|i: int, j: int| 0 <= i < t.len() && 0 <= j < t.len() && i != j implies
        #[trigger] t[i].email != #[trigger] t[j].email by {
        assert(s.contains(t[i]) && s.contains(t[j]));
        let ki = choose|k: int| 0 <= k < s.len() && s[k] == t[i];
        let kj = choose|k: int| 0 <= k < s.len() && s[k] == t[j];
        assert(t[i].account_id != t[j].account_id);
    }
}

/// Removing an account keeps identifiers, usernames and emails unique.
pub proof fn lemma_remove_account_keeps_unique(v: StoreView, ai: int)
    requires
        ids_unique(v),
        names_unique(v.accounts),
        0 <= ai < v.accounts.len(),
    ensures
        ids_unique(StoreView { accounts: v.accounts.remove(ai), changes: v.changes }),
        names_unique(v.accounts.remove(ai)),
{
    let w = v.accounts.remove(ai);
    assert forall|i: int, j: int|
        0 <= i < w.len() && 0 <= j < w.len() && i != j
            implies #[trigger] w[i].account_id != #[trigger] w[j].account_id by {
        let oi = if i < ai { i } else { i + 1 };
        let oj = if j < ai { j } else { j + 1 };
        assert(w[i] == v.accounts[oi]);
        assert(w[j] == v.accounts[oj]);
    }
    assert forall|m: int| 0 <= m < w.len() implies v.accounts.contains(#[trigger] w[m]) by {
        let om = if m < ai { m } else { m + 1 };
        assert(v.accounts[om] == w[m]);
    }
    lemma_names_of_subset(v.accounts, w);
}

/// Pending changes keep their owners when the accounts are replaced by
/// accounts with the same identifiers at the same positions.
pub proof fn lemma_owners_same_ids(v: StoreView, accounts: Seq<AccountRow>)
    requires
        owners_exist(v),
        accounts.len() == v.accounts.len(),
        forall|i: int| 0 <= i < accounts.len() ==> #[trigger] accounts[i].account_id == v.accounts[i].account_id,
    ensures
        owners_exist(StoreView { accounts, changes: v.changes }),
{
    assert forall|i: int| 0 <= i < v.changes.len() implies has_account(accounts, #[trigger] v.changes[i].account_id) by {
        assert(has_account(v.accounts, v.changes[i].account_id));
        let j = choose|j: int| account_at(v.accounts, v.changes[i].account_id, j);
        assert(account_at(accounts, v.changes[i].account_id, j));
    }
}

/// Pending changes keep their owners when accounts are added at the end.
pub proof fn lemma_owners_push(v: StoreView, a: AccountRow)
    requires
        owners_exist(v),
    ensures
        owners_exist(StoreView { accounts: v.accounts.push(a), changes: v.changes }),
{
    let accounts = v.accounts.push(a);
    assert forall|i: int| 0 <= i < v.changes.len() implies has_account(accounts, #[trigger] v.changes[i].account_id) by {
        assert(has_account(v.accounts, v.changes[i].account_id));
        let j = choose|j: int| account_at(v.accounts, v.changes[i].account_id, j);
        assert(account_at(accounts, v.changes[i].account_id, j));
    }
}

/// Removing pending changes, keeping only rows it had, keeps their owners.
pub proof fn lemma_owners_of_kept(v: StoreView, changes: Seq<ChangeRow>)
    requires
        owners_exist(v),
        forall|m: int| 0 <= m < changes.len() ==> v.changes.contains(#[trigger] changes[m]),
    ensures
        owners_exist(StoreView { accounts: v.accounts, changes }),
{
    assert forall|m: int| 0 <= m < changes.len() implies has_account(v.accounts, #[trigger] changes[m].account_id) by {
        assert(v.changes.contains(changes[m]));
        let k = choose|k: int| 0 <= k < v.changes.len() && v.changes[k] == changes[m];
        assert(has_account(v.accounts, v.changes[k].account_id));
    }
}

/// Removing a pending change keeps codes unique.
pub proof fn lemma_remove_keeps_unique(v: StoreView, ci: int)
    requires
        ids_unique(v),
        0 <= ci < v.changes.len(),
    ensures
        ids_unique(StoreView { accounts: v.accounts, changes: v.changes.remove(ci) }),
{
    let w = StoreView { accounts: v.accounts, changes: v.changes.remove(ci) };
    assert forall|i: int, j: int|
        0 <= i < w.changes.len() && 0 <= j < w.changes.len() && i != j
            implies #[trigger] w.changes[i].account_change_id != #[trigger] w.changes[j].account_change_id by {
        let oi = if i < ci { i } else { i + 1 };
        let oj = if j < ci { j } else { j + 1 };
        assert(w.changes[i] == v.changes[oi]);
        assert(w.changes[j] == v.changes[oj]);
    }
}

/// Keeping the changes whose owner is stored keeps only rows it was given,
/// so codes stay unique.
pub proof fn lemma_owned_changes_unique(s: Seq<ChangeRow>, accounts: Seq<AccountRow>)
    requires
        forall|i: int, j: int|
            0 <= i < s.len() && 0 <= j < s.len() && i != j
                ==> #[trigger] s[i].account_change_id != #[trigger] s[j].account_change_id,
    ensures
        forall|m: int| 0 <= m < owned_changes(s, accounts).len() ==> s.contains(#[trigger] owned_changes(s, accounts)[m])
            && has_account(accounts, owned_changes(s, accounts)[m].account_id),
        forall|i: int, j: int|
            0 <= i < owned_changes(s, accounts).len() && 0 <= j < owned_changes(s, accounts).len() && i != j
                ==> #[trigger] owned_changes(s, accounts)[i].account_change_id
                    != #[trigger] owned_changes(s, accounts)[j].account_change_id,
    decreases s.len(),
{
    if s.len() > 0 {
        let d = s.drop_last();
        assert forall|i: int, j: int|
            0 <= i < d.len() && 0 <= j < d.len() && i != j
                implies #[trigger] d[i].account_change_id != #[trigger] d[j].account_change_id by {
            assert(d[i] == s[i] && d[j] == s[j]);
        }
        lemma_owned_changes_unique(d, accounts);
        let rest = owned_changes(d, accounts);
        let live = owned_changes(s, accounts);
        assert forall|m: int| 0 <= m < live.len() implies s.contains(#[trigger] live[m]) by {
            if m < rest.len() {
                assert(d.contains(rest[m]));
                let k = choose|k: int| 0 <= k < d.len() && d[k] == rest[m];
                assert(s[k] == rest[m]);
            } else {
                assert(s[s.len() - 1] == live[m]);
            }
        }
        if has_account(accounts, s.last().account_id) {
            assert forall|i: int, j: int|
                0 <= i < live.len() && 0 <= j < live.len() && i != j
                    implies #[trigger] live[i].account_change_id != #[trigger] live[j].account_change_id by {
                if i == rest.len() && j < rest.len() {
                    assert(d.contains(rest[j]));
                    let k = choose|k: int| 0 <= k < d.len() && d[k] == rest[j];
                    assert(s[k] == rest[j]);
                } else if j == rest.len() && i < rest.len() {
                    assert(d.contains(rest[i]));
                    let k = choose|k: int| 0 <= k < d.len() && d[k] == rest[i];
                    assert(s[k] == rest[i]);
                }
            }
        }
    }
}

/// A sweep keeps only rows it was given, so codes stay unique.
pub proof fn lemma_live_changes_unique(s: Seq<ChangeRow>, ttl: u64, now: u64)
    requires
        forall|i: int, j: int|
            0 <= i < s.len() && 0 <= j < s.len() && i != j
                ==> #[trigger] s[i].account_change_id != #[trigger] s[j].account_change_id,
    ensures
        forall|m: int| 0 <= m < live_changes(s, ttl, now).len() ==> s.contains(#[trigger] live_changes(s, ttl, now)[m])
            && !expired(live_changes(s, ttl, now)[m].creation_timestamp, ttl, now),
        forall|i: int, j: int|
            0 <= i < live_changes(s, ttl, now).len() && 0 <= j < live_changes(s, ttl, now).len() && i != j
                ==> #[trigger] live_changes(s, ttl, now)[i].account_change_id
                    != #[trigger] live_changes(s, ttl, now)[j].account_change_id,
    decreases s.len(),
{
    if s.len() > 0 {
        let d = s.drop_last();
        assert forall|i: int, j: int|
            0 <= i < d.len() && 0 <= j < d.len() && i != j
                implies #[trigger] d[i].account_change_id != #[trigger] d[j].account_change_id by {
            assert(d[i] == s[i] && d[j] == s[j]);
        }
        lemma_live_changes_unique(d, ttl, now);
        let rest = live_changes(d, ttl, now);
        let live = live_changes(s, ttl, now);
        assert forall|m: int| 0 <= m < live.len() implies s.contains(#[trigger] live[m]) by {
            if m < rest.len() {
                assert(d.contains(rest[m]));
                let k = choose|k: int| 0 <= k < d.len() && d[k] == rest[m];
                assert(s[k] == rest[m]);
            } else {
                assert(s[s.len() - 1] == live[m]);
            }
        }
        if !expired(s.last().creation_timestamp, ttl, now) {
            assert forall|i: int, j: int|
                0 <= i < live.len() && 0 <= j < live.len() && i != j
                    implies #[trigger] live[i].account_change_id != #[trigger] live[j].account_change_id by {
                if i == rest.len() && j < rest.len() {
                    assert(d.contains(rest[j]));
                    let k = choose|k: int| 0 <= k < d.len() && d[k] == rest[j];
                    assert(s[k] == rest[j]);
                } else if j == rest.len() && i < rest.len() {
                    assert(d.contains(rest[i]));
                    let k = choose|k: int| 0 <= k < d.len() && d[k] == rest[i];
                    assert(s[k] == rest[i]);
                }
            }
        }
    }
}

/// A sweep keeps only rows it was given, so account identifiers stay unique.
pub proof fn lemma_live_accounts_unique(s: Seq<AccountRow>, ttl: u64, now: u64)
    requires
        forall|i: int, j: int|
            0 <= i < s.len() && 0 <= j < s.len() && i != j
                ==> #[trigger] s[i].account_id != #[trigger] s[j].account_id,
    ensures
        forall|m: int| 0 <= m < live_accounts(s, ttl, now).len() ==> s.contains(#[trigger] live_accounts(s, ttl, now)[m])
            && !abandoned(live_accounts(s, ttl, now)[m], ttl, now),
        forall|i: int, j: int|
            0 <= i < live_accounts(s, ttl, now).len() && 0 <= j < live_accounts(s, ttl, now).len() && i != j
                ==> #[trigger] live_accounts(s, ttl, now)[i].account_id
                    != #[trigger] live_accounts(s, ttl, now)[j].account_id,
    decreases s.len(),
{
    if s.len() > 0 {
        let d = s.drop_last();
        assert forall|i: int, j: int|
            0 <= i < d.len() && 0 <= j < d.len() && i != j
                implies #[trigger] d[i].account_id != #[trigger] d[j].account_id by {
            assert(d[i] == s[i] && d[j] == s[j]);
        }
        lemma_live_accounts_unique(d, ttl, now);
        let rest = live_accounts(d, ttl, now);
        let live = live_accounts(s, ttl, now);
        assert forall|m: int| 0 <= m < live.len() implies s.contains(#[trigger] live[m]) by {
            if m < rest.len() {
                assert(d.contains(rest[m]));
                let k = choose|k: int| 0 <= k < d.len() && d[k] == rest[m];
                assert(s[k] == rest[m]);
            } else {
                assert(s[s.len() - 1] == live[m]);
            }
        }
        if !abandoned(s.last(), ttl, now) {
            assert forall|i: int, j: int|
                0 <= i < live.len() && 0 <= j < live.len() && i != j
                    implies #[trigger] live[i].account_id != #[trigger] live[j].account_id by {
                if i == rest.len() && j < rest.len() {
                    assert(d.contains(rest[j]));
                    let k = choose|k: int| 0 <= k < d.len() && d[k] == rest[j];
                    assert(s[k] == rest[j]);
                } else if j == rest.len() && i < rest.len() {
                    assert(d.contains(rest[i]));
                    let k = choose|k: int| 0 <= k < d.len() && d[k] == rest[i];
                    assert(s[k] == rest[i]);
                }
            }
        }
    }
}

/// The stamp that a confirmed change at time `now` moves to.
pub fn next_change_stamp(old: u64, now: u64) -> (r: u64)
    requires
        !stamp_exhausted(old, now),
    ensures
        r == next_stamp(old, now),
{
    if now > old {
        now
    } else {
        old + 1
    }
}

impl AccountStore {
    /// The store's invariant: identifiers, codes, usernames and emails are
    /// unique, and every pending change belongs to a stored account.
    pub open spec fn wf(&self) -> bool {
        store_wf(self@)
    }

    /// An empty store.
    pub fn new() -> (r: AccountStore)
        ensures
            r.wf(),
            r@.accounts.len() == 0,
            r@.changes.len() == 0,
    {
        let r = AccountStore { accounts: Vec::new(), changes: Vec::new() };
        assert(r@.accounts =~= Seq::<AccountRow>::empty());
        assert(r@.changes =~= Seq::<ChangeRow>::empty());
        r
    }

    /// The account row at position `i`.
    pub fn account_row(&self, i: usize) -> (r: &AccountsTable)
        requires
            i < self@.accounts.len(),
        ensures
            r@ == self@.accounts[i as int],
    {
        &self.accounts[i]
    }

    /// The pending change row at position `i`.
    pub fn change_row(&self, i: usize) -> (r: &AccountChangesTable)
        requires
            i < self@.changes.len(),
        ensures
            r@ == self@.changes[i as int],
    {
        &self.changes[i]
    }

    /// The number of accounts.
    pub fn account_count(&self) -> (r: usize)
        ensures
            r == self@.accounts.len(),
    {
        self.accounts.len()
    }

    /// The number of pending changes.
    pub fn change_count(&self) -> (r: usize)
        ensures
            r == self@.changes.len(),
    {
        self.changes.len()
    }

    /// Would applying the change at `ci` give the account at `ai` a username
    /// or an email that another account has?
    fn change_clashes(&self, ai: usize, ci: usize) -> (r: bool)
        requires
            ai < self@.accounts.len(),
            ci < self@.changes.len(),
        ensures
            r == clashes(self@.accounts, ai as int, self@.changes[ci as int].fields),
    {
        let c = &self.changes[ci];
        let ghost f = self@.changes[ci as int].fields;
        assert(f == c@.fields);
        let mut k: usize = 0;
        while k < self.accounts.len()
            invariant
                k <= self.accounts.len(),
                ai < self.accounts.len(),
                f == c@.fields,
                f == self@.changes[ci as int].fields,
                forall|j: int| 0 <= j < k && j != ai ==> !clashes_with(#[trigger] self@.accounts[j], f),
            decreases self.accounts.len() - k,
        {
            if k != ai {
                let a = &self.accounts[k];
                let same_username = match &c.username {
                    Some(u) => *u == a.username,
                    None => false,
                };
                let same_email = match &c.email {
                    Some(e) => *e == a.email,
                    None => false,
                };
                assert(self@.accounts[k as int] == a@);
                if same_username || same_email {
                    assert(clashes_with(self@.accounts[k as int], f));
                    return true;
                }
            }
            k = k + 1;
        }
        false
    }

    /// Confirms the pending change `change_id` of `account_id` at time `now`:
    /// the change is consumed and its set fields are applied to the account,
    /// whose stamp moves on, all in one step. Nothing changes on an error.
    pub fn confirm_account_change(&mut self, account_id: &String, change_id: &String, now: u64) -> (r: Result<(), Error>)
        requires
            old(self).wf(),
        ensures
            final(self).wf(),
            match confirm_outcome(old(self)@, account_id@, change_id@, now) {
                Ok(v) => r is Ok && final(self)@ == v,
                Err(e) => r == Err::<(), Error>(e) && final(self)@ == old(self)@,
            },
    {
        let ci = match self.find_change(account_id, change_id) {
            Some(i) => i,
            None => return Err(Error::AccountChangeNotFound),
        };
        let ai = match self.find_account(account_id) {
            Some(i) => i,
            None => return Err(Error::AccountChangeNotFound),
        };
        proof {
            lemma_change_index(self@, account_id@, change_id@, ci as int);
            lemma_account_index(self@, account_id@, ai as int);
        }
        if self.change_clashes(ai, ci) {
            return Err(Error::DuplicateKey);
        }
        if now <= self.accounts[ai].last_change_timestamp && self.accounts[ai].last_change_timestamp == u64::MAX {
            assert(self@.accounts[ai as int] == self.accounts@[ai as int]@);
            return Err(Error::StampExhausted);
        }
        let ghost v = self@;
        assert(v.accounts[ai as int] == self.accounts@[ai as int]@);
        let c = self.changes.remove(ci);
        let a = &self.accounts[ai];
        let stamp = next_change_stamp(a.last_change_timestamp, now);
        let row = AccountsTable {
            account_id: a.account_id.clone(),
            username: match c.username {
                Some(u) => u,
                None => a.username.clone(),
            },
            email: match c.email {
                Some(e) => e,
                None => a.email.clone(),
            },
            password: match c.password {
                Some(p) => p,
                None => a.password.clone(),
            },
            verified: match c.verified {
                Some(b) => b,
                None => a.verified,
            },
            last_change_timestamp: stamp,
            creation_timestamp: a.creation_timestamp,
        };
        let ghost new_row = row@;
        self.accounts.set(ai, row);
        proof {
            assert(c@ == v.changes[ci as int]);
            assert(new_row == apply_change(v.accounts[ai as int], v.changes[ci as int].fields, stamp));
            assert(self@.accounts =~= v.accounts.update(ai as int, new_row));
            assert(self@.changes =~= v.changes.remove(ci as int));
            lemma_confirm_keeps_unique(v, ai as int, new_row, ci as int);
            lemma_confirm_keeps_names(v, ai as int, v.changes[ci as int].fields, new_row);
            lemma_owners_same_ids(v, self@.accounts);
            let w = StoreView { accounts: self@.accounts, changes: v.changes };
            assert forall|m: int| 0 <= m < self@.changes.len() implies w.changes.contains(#[trigger] self@.changes[m]) by {
                let k = if m < ci { m } else { m + 1 };
                assert(w.changes[k] == self@.changes[m]);
            }
            lemma_owners_of_kept(w, self@.changes);
        }
        Ok(())
    }

    /// Stores a new unverified account under `account_id`, created at `now`.
    /// The identifier, the username and the email must all be unused.
    pub fn insert_account(&mut self, account_id: String, username: &String, email: &String, password_hash: String, now: u64) -> (r: Result<(), Error>)
        requires
            old(self).wf(),
        ensures
            final(self).wf(),
            match insert_account_outcome(old(self)@, account_id@, username@, email@, password_hash@, now) {
                Ok(v) => r is Ok && final(self)@ == v,
                Err(e) => r == Err::<(), Error>(e) && final(self)@ == old(self)@,
            },
    {
        if self.find_account(&account_id).is_some() {
            return Err(Error::DuplicateKey);
        }
        if self.name_or_email_taken(username, email) {
            return Err(Error::DuplicateKey);
        }
        let row = AccountsTable {
            account_id,
            username: username.clone(),
            email: email.clone(),
            password: password_hash,
            verified: false,
            last_change_timestamp: now,
            creation_timestamp: now,
        };
        let ghost v = self@;
        let ghost new_row = row@;
        self.accounts.push(row);
        proof {
            assert(self@.accounts =~= v.accounts.push(new_row));
            assert(self@.changes =~= v.changes);
            assert forall|i: int, j: int|
                0 <= i < self@.accounts.len() && 0 <= j < self@.accounts.len() && i != j
                    implies #[trigger] self@.accounts[i].account_id != #[trigger] self@.accounts[j].account_id by {
                if i == v.accounts.len() {
                    assert(!account_at(v.accounts, new_row.account_id, j));
                } else if j == v.accounts.len() {
                    assert(!account_at(v.accounts, new_row.account_id, i));
                }
            }
            assert forall|k: int| #![trigger v.accounts[k]] 0 <= k < v.accounts.len() implies
                v.accounts[k].username != new_row.username && v.accounts[k].email != new_row.email by {
                assert(!holds_name_or_email(v.accounts[k], username@, email@));
            }
            assert forall|i: int, j: int|
                0 <= i < self@.accounts.len() && 0 <= j < self@.accounts.len() && i != j
                    implies #[trigger] self@.accounts[i].username != #[trigger] self@.accounts[j].username by {
                if i < v.accounts.len() && j < v.accounts.len() {
                    assert(self@.accounts[i] == v.accounts[i] && self@.accounts[j] == v.accounts[j]);
                } else if i < v.accounts.len() {
                    assert(self@.accounts[i] == v.accounts[i]);
                } else {
                    assert(self@.accounts[j] == v.accounts[j]);
                }
            }
            assert forall|i: int, j: int|
                0 <= i < self@.accounts.len() && 0 <= j < self@.accounts.len() && i != j
                    implies #[trigger] self@.accounts[i].email != #[trigger] self@.accounts[j].email by {
                if i < v.accounts.len() && j < v.accounts.len() {
                    assert(self@.accounts[i] == v.accounts[i] && self@.accounts[j] == v.accounts[j]);
                } else if i < v.accounts.len() {
                    assert(self@.accounts[i] == v.accounts[i]);
                } else {
                    assert(self@.accounts[j] == v.accounts[j]);
                }
            }
            lemma_owners_push(v, new_row);
        }
        Ok(())
    }

    /// Does some account have the username `username` or the email `email`?
    pub fn name_or_email_taken(&self, username: &String, email: &String) -> (r: bool)
        ensures
            r == name_or_email_in_use(self@.accounts, username@, email@),
    {
        let mut k: usize = 0;
        while k < self.accounts.len()
            invariant
                k <= self.accounts.len(),
                forall|j: int| 0 <= j < k ==> !holds_name_or_email(#[trigger] self@.accounts[j], username@, email@),
            decreases self.accounts.len() - k,
        {
            let a = &self.accounts[k];
            assert(self@.accounts[k as int] == a@);
            if a.username == *username || a.email == *email {
                assert(holds_name_or_email(self@.accounts[k as int], username@, email@));
                return true;
            }
            k = k + 1;
        }
        false
    }

    /// The position of the pending change with code `change_id`, whoever owns it.
    pub fn find_code(&self, change_id: &String) -> (r: Option<usize>)
        ensures
            match r {
                Some(i) => i < self@.changes.len() && self@.changes[i as int].account_change_id == change_id@,
                None => !code_in_use(self@.changes, change_id@),
            },
    {
        let mut i: usize = 0;
        while i < self.changes.len()
            invariant
                i <= self.changes.len(),
                forall|j: int| 0 <= j < i ==> #[trigger] self@.changes[j].account_change_id != change_id@,
            decreases self.changes.len() - i,
        {
            if self.changes[i].account_change_id == *change_id {
                return Some(i);
            }
            i = i + 1;
        }
        None
    }

    /// Stores the pending change `change` of `account_id` under the code
    /// `change_id`, created at `now`. The account must exist and the code
    /// must be unused.
    pub fn insert_account_change(&mut self, change_id: String, account_id: &String, change: AccountChange, now: u64) -> (r: Result<(), Error>)
        requires
            old(self).wf(),
        ensures
            final(self).wf(),
            match insert_change_outcome(old(self)@, change_id@, account_id@, change@, now) {
                Ok(v) => r is Ok && final(self)@ == v,
                Err(e) => r == Err::<(), Error>(e) && final(self)@ == old(self)@,
            },
    {
        if self.find_account(account_id).is_none() {
            return Err(Error::AccountNotFound);
        }
        if self.find_code(&change_id).is_some() {
            return Err(Error::DuplicateKey);
        }
        let row = AccountChangesTable {
            account_change_id: change_id,
            account_id: account_id.clone(),
            username: change.username,
            email: change.email,
            password: change.password,
            verified: change.verified,
            step: change.step,
            creation_timestamp: now,
        };
        let ghost v = self@;
        let ghost new_row = row@;
        self.changes.push(row);
        proof {
            assert(self@.changes =~= v.changes.push(new_row));
            assert(self@.accounts =~= v.accounts);
            assert forall|i: int, j: int|
                0 <= i < self@.changes.len() && 0 <= j < self@.changes.len() && i != j
                    implies #[trigger] self@.changes[i].account_change_id != #[trigger] self@.changes[j].account_change_id by {
                if i == v.changes.len() {
                    assert(v.changes[j].account_change_id == self@.changes[j].account_change_id);
                } else if j == v.changes.len() {
                    assert(v.changes[i].account_change_id == self@.changes[i].account_change_id);
                }
            }
        }
        Ok(())
    }

    /// Discards the pending change with code `change_id`, if there is one.
    pub fn delete_account_change(&mut self, change_id: &String)
        requires
            old(self).wf(),
        ensures
            final(self).wf(),
            final(self)@.accounts == old(self)@.accounts,
            final(self)@.changes == without_code(old(self)@.changes, change_id@),
    {
        let ghost v = self@;
        match self.find_code(change_id) {
            Some(i) => {
                proof {
                    let j = choose|j: int| 0 <= j < v.changes.len() && #[trigger] v.changes[j].account_change_id == change_id@;
                    assert(v.changes[i as int].account_change_id == v.changes[j].account_change_id);
                }
                self.changes.remove(i);
                proof {
                    assert(self@.changes =~= v.changes.remove(i as int));
                    assert(self@.accounts =~= v.accounts);
                    lemma_remove_keeps_unique(v, i as int);
                }
            }
            None => {}
        }
    }

    /// Removes every pending change older than `expiration` at `now`, and
    /// returns the owners of the removed changes, in order.
    pub fn delete_expired_account_changes(&mut self, expiration: u64, now: u64) -> (r: Vec<String>)
        requires
            old(self).wf(),
        ensures
            final(self).wf(),
            final(self)@.accounts == old(self)@.accounts,
            final(self)@.changes == live_changes(old(self)@.changes, expiration, now),
            r@.map_values(|o: String| o@) == expired_change_owners(old(self)@.changes, expiration, now),
    {
        let ghost s = self@.changes;
        let mut kept: Vec<AccountChangesTable> = Vec::new();
        let mut removed: Vec<String> = Vec::new();
        let mut i: usize = 0;
        while i < self.changes.len()
            invariant
                i <= self.changes.len(),
                s == self@.changes,
                kept@.map_values(|c: AccountChangesTable| c@) == live_changes(s.take(i as int), expiration, now),
                removed@.map_values(|o: String| o@) == expired_change_owners(s.take(i as int), expiration, now),
            decreases self.changes.len() - i,
        {
            let c = &self.changes[i];
            let ghost t = s.take(i as int + 1);
            proof {
                assert(t.drop_last() =~= s.take(i as int));
                assert(t.last() == c@);
            }
            let ghost kept_before = kept@.map_values(|c: AccountChangesTable| c@);
            let ghost removed_before = removed@.map_values(|o: String| o@);
            if c.creation_timestamp as u128 + expiration as u128 >= now as u128 {
                kept.push(c.duplicate());
                assert(kept@.map_values(|c: AccountChangesTable| c@) =~= kept_before.push(c@));
                assert(removed@.map_values(|o: String| o@) =~= removed_before);
            } else {
                removed.push(c.account_id.clone());
                assert(removed@.map_values(|o: String| o@) =~= removed_before.push(c@.account_id));
                assert(kept@.map_values(|c: AccountChangesTable| c@) =~= kept_before);
            }
            i = i + 1;
        }
        proof {
            assert(s.take(s.len() as int) =~= s);
            lemma_live_changes_unique(s, expiration, now);
        }
        let ghost accounts = self@.accounts;
        self.changes = kept;
        assert(self@.accounts =~= accounts);
        removed
    }

    /// Removes every unverified account older than `expiration` at `now`,
    /// together with its pending changes, and returns the emails of the
    /// removed accounts, in order.
    pub fn delete_expired_unverified_accounts(&mut self, expiration: u64, now: u64) -> (r: Vec<String>)
        requires
            old(self).wf(),
        ensures
            final(self).wf(),
            final(self)@.accounts == live_accounts(old(self)@.accounts, expiration, now),
            final(self)@.changes == owned_changes(old(self)@.changes, live_accounts(old(self)@.accounts, expiration, now)),
            r@.map_values(|o: String| o@) == abandoned_emails(old(self)@.accounts, expiration, now),
    {
        let ghost s = self@.accounts;
        let mut kept: Vec<AccountsTable> = Vec::new();
        let mut removed: Vec<String> = Vec::new();
        let mut i: usize = 0;
        while i < self.accounts.len()
            invariant
                i <= self.accounts.len(),
                s == self@.accounts,
                kept@.map_values(|c: AccountsTable| c@) == live_accounts(s.take(i as int), expiration, now),
                removed@.map_values(|o: String| o@) == abandoned_emails(s.take(i as int), expiration, now),
            decreases self.accounts.len() - i,
        {
            let c = &self.accounts[i];
            let ghost t = s.take(i as int + 1);
            proof {
                assert(t.drop_last() =~= s.take(i as int));
                assert(t.last() == c@);
            }
            let ghost kept_before = kept@.map_values(|c: AccountsTable| c@);
            let ghost removed_before = removed@.map_values(|o: String| o@);
            if c.verified || c.creation_timestamp as u128 + expiration as u128 >= now as u128 {
                kept.push(c.duplicate());
                assert(kept@.map_values(|c: AccountsTable| c@) =~= kept_before.push(c@));
                assert(removed@.map_values(|o: String| o@) =~= removed_before);
            } else {
                removed.push(c.email.clone());
                assert(removed@.map_values(|o: String| o@) =~= removed_before.push(c@.email));
                assert(kept@.map_values(|c: AccountsTable| c@) =~= kept_before);
            }
            i = i + 1;
        }
        proof {
            assert(s.take(s.len() as int) =~= s);
            lemma_live_accounts_unique(s, expiration, now);
        }
        let ghost changes = self@.changes;
        self.accounts = kept;
        assert(self@.changes =~= changes);
        proof {
            lemma_names_of_subset(s, self@.accounts);
        }
        self.drop_orphan_changes();
        removed
    }

    /// Removes every pending change whose owner is no longer stored.
    fn drop_orphan_changes(&mut self)
        requires
            ids_unique(old(self)@),
        ensures
            final(self)@.accounts == old(self)@.accounts,
            final(self)@.changes == owned_changes(old(self)@.changes, old(self)@.accounts),
            ids_unique(final(self)@),
            owners_exist(final(self)@),
    {
        let ghost s = self@.changes;
        let ghost accounts = self@.accounts;
        let mut kept: Vec<AccountChangesTable> = Vec::new();
        let mut i: usize = 0;
        while i < self.changes.len()
            invariant
                i <= self.changes.len(),
                s == self@.changes,
                accounts == self@.accounts,
                kept@.map_values(|c: AccountChangesTable| c@) == owned_changes(s.take(i as int), accounts),
            decreases self.changes.len() - i,
        {
            let c = &self.changes[i];
            let ghost t = s.take(i as int + 1);
            proof {
                assert(t.drop_last() =~= s.take(i as int));
                assert(t.last() == c@);
            }
            let ghost kept_before = kept@.map_values(|c: AccountChangesTable| c@);
            if self.find_account(&c.account_id).is_some() {
                kept.push(c.duplicate());
                assert(kept@.map_values(|c: AccountChangesTable| c@) =~= kept_before.push(c@));
            }
            i = i + 1;
        }
        proof {
            assert(s.take(s.len() as int) =~= s);
            lemma_owned_changes_unique(s, accounts);
        }
        self.changes = kept;
        assert(self@.accounts =~= accounts);
    }

    /// Confirms the deletion `change_id` of `account_id`: the pending change
    /// must set nothing (else `StepMismatch`); the account is removed with all
    /// of its pending changes, this one included, in one step. Nothing changes
    /// on an error.
    pub fn confirm_account_deletion(&mut self, account_id: &String, change_id: &String) -> (r: Result<(), Error>)
        requires
            old(self).wf(),
        ensures
            final(self).wf(),
            match deletion_outcome(old(self)@, account_id@, change_id@) {
                Ok(v) => r is Ok && final(self)@ == v,
                Err(e) => r == Err::<(), Error>(e) && final(self)@ == old(self)@,
            },
    {
        let ci = match self.find_change(account_id, change_id) {
            Some(i) => i,
            None => return Err(Error::AccountChangeNotFound),
        };
        proof {
            lemma_change_index(self@, account_id@, change_id@, ci as int);
        }
        let c = &self.changes[ci];
        if c.username.is_some() || c.email.is_some() || c.password.is_some() || c.verified.is_some() || c.step.is_some() {
            return Err(Error::StepMismatch);
        }
        assert(self@.changes[ci as int].fields =~= deletion_fields());
        let ai = match self.find_account(account_id) {
            Some(i) => i,
            None => return Err(Error::AccountNotFound),
        };
        proof {
            lemma_account_index(self@, account_id@, ai as int);
        }
        let ghost v = self@;
        self.accounts.remove(ai);
        proof {
            assert(self@.accounts =~= v.accounts.remove(ai as int));
            assert(self@.changes =~= v.changes);
            lemma_remove_account_keeps_unique(v, ai as int);
        }
        self.drop_orphan_changes();
        Ok(())
    }

    /// The position of the account `account_id`, if there is one.
    pub fn find_account(&self, account_id: &String) -> (r: Option<usize>)
        ensures
            match r {
                Some(i) => account_at(self@.accounts, account_id@, i as int),
                None => !has_account(self@.accounts, account_id@),
            },
    {
        let mut i: usize = 0;
        while i < self.accounts.len()
            invariant
                i <= self.accounts.len(),
                forall|j: int| 0 <= j < i ==> !account_at(self@.accounts, account_id@, j),
            decreases self.accounts.len() - i,
        {
            if self.accounts[i].account_id == *account_id {
                return Some(i);
            }
            i = i + 1;
        }
        None
    }

    /// The position of the pending change `change_id` owned by `account_id`.
    pub fn find_change(&self, account_id: &String, change_id: &String) -> (r: Option<usize>)
        ensures
            match r {
                Some(i) => change_at(self@.changes, account_id@, change_id@, i as int),
                None => !has_change(self@.changes, account_id@, change_id@),
            },
    {
        let mut i: usize = 0;
        while i < self.changes.len()
            invariant
                i <= self.changes.len(),
                forall|j: int| 0 <= j < i ==> !change_at(self@.changes, account_id@, change_id@, j),
            decreases self.changes.len() - i,
        {
            let c = &self.changes[i];
            if c.account_change_id == *change_id && c.account_id == *account_id {
                return Some(i);
            }
            i = i + 1;
        }
        None
    }
}

} // verus!
