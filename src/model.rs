//! Rows of the account store and their mathematical views.
use vstd::prelude::*;

verus! {

/// An account row: identity, credentials and the change stamp.
pub struct AccountsTable {
    pub account_id: String,
    pub username: String,
    pub email: String,
    /// The password hash, never the plain password.
    pub password: String,
    pub verified: bool,
    /// The change stamp: replaced by a larger value on every confirmed change.
    pub last_change_timestamp: u64,
    pub creation_timestamp: u64,
}

/// The view of an account row.
pub ghost struct AccountRow {
    pub account_id: Seq<char>,
    pub username: Seq<char>,
    pub email: Seq<char>,
    pub password: Seq<char>,
    pub verified: bool,
    pub last_change_timestamp: u64,
    pub creation_timestamp: u64,
}

impl View for AccountsTable {
    type V = AccountRow;

    open spec fn view(&self) -> AccountRow {
        AccountRow {
            account_id: self.account_id@,
            username: self.username@,
            email: self.email@,
            password: self.password@,
            verified: self.verified,
            last_change_timestamp: self.last_change_timestamp,
            creation_timestamp: self.creation_timestamp,
        }
    }
}

impl AccountsTable {
    /// A copy of the row.
    pub fn duplicate(&self) -> (r: AccountsTable)
        ensures
            r@ == self@,
    {
        AccountsTable {
            account_id: self.account_id.clone(),
            username: self.username.clone(),
            email: self.email.clone(),
            password: self.password.clone(),
            verified: self.verified,
            last_change_timestamp: self.last_change_timestamp,
            creation_timestamp: self.creation_timestamp,
        }
    }
}

/// The data of a new account, with the password in plain text.
pub struct Account {
    pub username: String,
    pub email: String,
    pub password: String,
}

/// A proposed mutation: each field that is set replaces the account's value.
/// `step` marks the phase of a multi-phase protocol.
pub struct AccountChange {
    pub username: Option<String>,
    pub email: Option<String>,
    pub password: Option<String>,
    pub verified: Option<bool>,
    pub step: Option<i16>,
}

/// The view of a proposed mutation.
pub ghost struct ChangeFields {
    pub username: Option<Seq<char>>,
    pub email: Option<Seq<char>>,
    pub password: Option<Seq<char>>,
    pub verified: Option<bool>,
    pub step: Option<i16>,
}

pub open spec fn opt_view(o: Option<String>) -> Option<Seq<char>> {
    match o {
        Some(s) => Some(s@),
        None => None,
    }
}

impl View for AccountChange {
    type V = ChangeFields;

    open spec fn view(&self) -> ChangeFields {
        ChangeFields {
            username: opt_view(self.username),
            email: opt_view(self.email),
            password: opt_view(self.password),
            verified: self.verified,
            step: self.step,
        }
    }
}

pub fn clone_opt(o: &Option<String>) -> (r: Option<String>)
    ensures
        opt_view(r) == opt_view(*o),
{
    match o {
        Some(s) => Some(s.clone()),
        None => None,
    }
}

impl AccountChange {
    /// A copy of the mutation.
    pub fn duplicate(&self) -> (r: AccountChange)
        ensures
            r@ == self@,
    {
        AccountChange {
            username: clone_opt(&self.username),
            email: clone_opt(&self.email),
            password: clone_opt(&self.password),
            verified: self.verified,
            step: self.step,
        }
    }
}

/// A pending change row: a mutation, its single-use code and its owner.
pub struct AccountChangesTable {
    pub account_change_id: String,
    pub account_id: String,
    pub username: Option<String>,
    pub email: Option<String>,
    pub password: Option<String>,
    pub verified: Option<bool>,
    pub step: Option<i16>,
    pub creation_timestamp: u64,
}

/// The view of a pending change row.
pub ghost struct ChangeRow {
    pub account_change_id: Seq<char>,
    pub account_id: Seq<char>,
    pub fields: ChangeFields,
    pub creation_timestamp: u64,
}

impl View for AccountChangesTable {
    type V = ChangeRow;

    open spec fn view(&self) -> ChangeRow {
        ChangeRow {
            account_change_id: self.account_change_id@,
            account_id: self.account_id@,
            fields: ChangeFields {
                username: opt_view(self.username),
                email: opt_view(self.email),
                password: opt_view(self.password),
                verified: self.verified,
                step: self.step,
            },
            creation_timestamp: self.creation_timestamp,
        }
    }
}

impl AccountChangesTable {
    /// A copy of the row.
    pub fn duplicate(&self) -> (r: AccountChangesTable)
        ensures
            r@ == self@,
    {
        AccountChangesTable {
            account_change_id: self.account_change_id.clone(),
            account_id: self.account_id.clone(),
            username: clone_opt(&self.username),
            email: clone_opt(&self.email),
            password: clone_opt(&self.password),
            verified: self.verified,
            step: self.step,
            creation_timestamp: self.creation_timestamp,
        }
    }

    /// The mutation that the row carries.
    pub fn to_change(&self) -> (r: AccountChange)
        ensures
            r@ == self@.fields,
    {
        AccountChange {
            username: clone_opt(&self.username),
            email: clone_opt(&self.email),
            password: clone_opt(&self.password),
            verified: self.verified,
            step: self.step,
        }
    }
}

/// The view of the whole store: both tables, in row order.
pub ghost struct StoreView {
    pub accounts: Seq<AccountRow>,
    pub changes: Seq<ChangeRow>,
}

/// Account identifiers are pairwise distinct, and so are change codes.
pub open spec fn ids_unique(v: StoreView) -> bool {
    &&& forall|i: int, j: int|
        0 <= i < v.accounts.len() && 0 <= j < v.accounts.len() && i != j
            ==> #[trigger] v.accounts[i].account_id != #[trigger] v.accounts[j].account_id
    &&& forall|i: int, j: int|
        0 <= i < v.changes.len() && 0 <= j < v.changes.len() && i != j
            ==> #[trigger] v.changes[i].account_change_id != #[trigger] v.changes[j].account_change_id
}

/// No two accounts share a username, and no two share an email.
pub open spec fn names_unique(accounts: Seq<AccountRow>) -> bool {
    &&& forall|i: int, j: int|
        0 <= i < accounts.len() && 0 <= j < accounts.len() && i != j
            ==> #[trigger] accounts[i].username != #[trigger] accounts[j].username
    &&& forall|i: int, j: int|
        0 <= i < accounts.len() && 0 <= j < accounts.len() && i != j
            ==> #[trigger] accounts[i].email != #[trigger] accounts[j].email
}

/// Every pending change belongs to a stored account.
pub open spec fn owners_exist(v: StoreView) -> bool {
    forall|i: int| 0 <= i < v.changes.len() ==> has_account(v.accounts, #[trigger] v.changes[i].account_id)
}

/// The store's invariant: identifiers, codes, usernames and emails are
/// unique, and no pending change outlives its account.
pub open spec fn store_wf(v: StoreView) -> bool {
    ids_unique(v) && names_unique(v.accounts) && owners_exist(v)
}

/// The changes whose owner is one of `accounts`, in order.
pub open spec fn owned_changes(s: Seq<ChangeRow>, accounts: Seq<AccountRow>) -> Seq<ChangeRow>
    decreases s.len(),
{
    if s.len() == 0 {
        s
    } else {
        let rest = owned_changes(s.drop_last(), accounts);
        if has_account(accounts, s.last().account_id) {
            rest.push(s.last())
        } else {
            rest
        }
    }
}

pub open spec fn account_at(accounts: Seq<AccountRow>, id: Seq<char>, i: int) -> bool {
    0 <= i < accounts.len() && accounts[i].account_id == id
}

pub open spec fn has_account(accounts: Seq<AccountRow>, id: Seq<char>) -> bool {
    exists|i: int| account_at(accounts, id, i)
}

pub open spec fn account_index(accounts: Seq<AccountRow>, id: Seq<char>) -> int {
    choose|i: int| account_at(accounts, id, i)
}

/// The change stamp of the account `id`.
pub open spec fn stamp_of(accounts: Seq<AccountRow>, id: Seq<char>) -> u64 {
    accounts[account_index(accounts, id)].last_change_timestamp
}

pub open spec fn change_at(changes: Seq<ChangeRow>, account_id: Seq<char>, change_id: Seq<char>, i: int) -> bool {
    0 <= i < changes.len() && changes[i].account_change_id == change_id
        && changes[i].account_id == account_id
}

/// A pending change with code `change_id` is owned by `account_id`.
pub open spec fn has_change(changes: Seq<ChangeRow>, account_id: Seq<char>, change_id: Seq<char>) -> bool {
    exists|i: int| change_at(changes, account_id, change_id, i)
}

pub open spec fn change_index(changes: Seq<ChangeRow>, account_id: Seq<char>, change_id: Seq<char>) -> int {
    choose|i: int| change_at(changes, account_id, change_id, i)
}

/// Some pending change, of any owner, has the code `change_id`.
pub open spec fn code_in_use(changes: Seq<ChangeRow>, change_id: Seq<char>) -> bool {
    exists|i: int| 0 <= i < changes.len() && #[trigger] changes[i].account_change_id == change_id
}

/// The stamp cannot move past `old` at time `now`: the clock has not passed
/// it and it is already the largest value.
pub open spec fn stamp_exhausted(old: u64, now: u64) -> bool {
    now <= old && old == u64::MAX
}

/// The stamp after a confirmed change at time `now`: the clock if it moved
/// past the old stamp, else one more than the old stamp.
pub open spec fn next_stamp(old: u64, now: u64) -> u64 {
    if now > old {
        now
    } else {
        (old + 1) as u64
    }
}

pub open spec fn pick<T>(new: Option<T>, keep: T) -> T {
    match new {
        Some(v) => v,
        None => keep,
    }
}

/// The account after applying `f` and moving the stamp to `stamp`.
pub open spec fn apply_change(a: AccountRow, f: ChangeFields, stamp: u64) -> AccountRow {
    AccountRow {
        account_id: a.account_id,
        username: pick(f.username, a.username),
        email: pick(f.email, a.email),
        password: pick(f.password, a.password),
        verified: pick(f.verified, a.verified),
        last_change_timestamp: stamp,
        creation_timestamp: a.creation_timestamp,
    }
}

/// Applying `f` to the account at `ai` would give it a username or an email
/// that another account has.
pub open spec fn clashes(accounts: Seq<AccountRow>, ai: int, f: ChangeFields) -> bool {
    exists|k: int| 0 <= k < accounts.len() && k != ai && #[trigger] clashes_with(accounts[k], f)
}

/// `f` would set a username or an email that the account `a` has.
pub open spec fn clashes_with(a: AccountRow, f: ChangeFields) -> bool {
    f.username == Some(a.username) || f.email == Some(a.email)
}

/// What confirming the change `change_id` of `account_id` at time `now` does.
pub open spec fn confirm_outcome(v: StoreView, account_id: Seq<char>, change_id: Seq<char>, now: u64) -> Result<StoreView, crate::error::Error> {
    if !has_change(v.changes, account_id, change_id) || !has_account(v.accounts, account_id) {
        Err(crate::error::Error::AccountChangeNotFound)
    } else {
        let ci = change_index(v.changes, account_id, change_id);
        let ai = account_index(v.accounts, account_id);
        let f = v.changes[ci].fields;
        if clashes(v.accounts, ai, f) {
            Err(crate::error::Error::DuplicateKey)
        } else if stamp_exhausted(v.accounts[ai].last_change_timestamp, now) {
            Err(crate::error::Error::StampExhausted)
        } else {
            Ok(StoreView {
                accounts: v.accounts.update(ai, apply_change(v.accounts[ai], f, next_stamp(v.accounts[ai].last_change_timestamp, now))),
                changes: v.changes.remove(ci),
            })
        }
    }
}

} // verus!

verus! {

/// The mutation that sets nothing: the pending change of an account deletion.
pub open spec fn deletion_fields() -> ChangeFields {
    ChangeFields { username: None, email: None, password: None, verified: None, step: None }
}

/// What confirming the deletion `change_id` of `account_id` does: the
/// change must set nothing (else `StepMismatch`); the account is removed
/// together with every pending change of it, this one included.
pub open spec fn deletion_outcome(v: StoreView, account_id: Seq<char>, change_id: Seq<char>) -> Result<StoreView, crate::error::Error> {
    if !has_change(v.changes, account_id, change_id) {
        Err(crate::error::Error::AccountChangeNotFound)
    } else if v.changes[change_index(v.changes, account_id, change_id)].fields != deletion_fields() {
        Err(crate::error::Error::StepMismatch)
    } else if !has_account(v.accounts, account_id) {
        Err(crate::error::Error::AccountNotFound)
    } else {
        Ok(StoreView {
            accounts: v.accounts.remove(account_index(v.accounts, account_id)),
            changes: owned_changes(v.changes, v.accounts.remove(account_index(v.accounts, account_id))),
        })
    }
}

/// Some account has the username `username` or the email `email`.
pub open spec fn name_or_email_in_use(accounts: Seq<AccountRow>, username: Seq<char>, email: Seq<char>) -> bool {
    exists|k: int| 0 <= k < accounts.len() && #[trigger] holds_name_or_email(accounts[k], username, email)
}

/// The account `a` has the username `username` or the email `email`.
pub open spec fn holds_name_or_email(a: AccountRow, username: Seq<char>, email: Seq<char>) -> bool {
    a.username == username || a.email == email
}

/// The row of a new, unverified account created at `now`.
pub open spec fn new_account_row(id: Seq<char>, username: Seq<char>, email: Seq<char>, password: Seq<char>, now: u64) -> AccountRow {
    AccountRow {
        account_id: id,
        username,
        email,
        password,
        verified: false,
        last_change_timestamp: now,
        creation_timestamp: now,
    }
}

/// What storing a new account under `id` does.
pub open spec fn insert_account_outcome(v: StoreView, id: Seq<char>, username: Seq<char>, email: Seq<char>, password: Seq<char>, now: u64) -> Result<StoreView, crate::error::Error> {
    if has_account(v.accounts, id) || name_or_email_in_use(v.accounts, username, email) {
        Err(crate::error::Error::DuplicateKey)
    } else {
        Ok(StoreView { accounts: v.accounts.push(new_account_row(id, username, email, password, now)), changes: v.changes })
    }
}

/// What storing a pending change under the code `change_id` does.
pub open spec fn insert_change_outcome(v: StoreView, change_id: Seq<char>, account_id: Seq<char>, f: ChangeFields, now: u64) -> Result<StoreView, crate::error::Error> {
    if !has_account(v.accounts, account_id) {
        Err(crate::error::Error::AccountNotFound)
    } else if code_in_use(v.changes, change_id) {
        Err(crate::error::Error::DuplicateKey)
    } else {
        Ok(StoreView {
            accounts: v.accounts,
            changes: v.changes.push(ChangeRow { account_change_id: change_id, account_id, fields: f, creation_timestamp: now }),
        })
    }
}

/// The changes that remain after removing the one with code `change_id`.
pub open spec fn without_code(changes: Seq<ChangeRow>, change_id: Seq<char>) -> Seq<ChangeRow> {
    if code_in_use(changes, change_id) {
        changes.remove(choose|i: int| 0 <= i < changes.len() && #[trigger] changes[i].account_change_id == change_id)
    } else {
        changes
    }
}

/// A row created at `created` has outlived `ttl` at `now`.
pub open spec fn expired(created: u64, ttl: u64, now: u64) -> bool {
    created + ttl < now
}

/// An account that the sweep removes: unverified and past its time to live.
pub open spec fn abandoned(a: AccountRow, ttl: u64, now: u64) -> bool {
    !a.verified && expired(a.creation_timestamp, ttl, now)
}

/// The changes that a sweep keeps, in order.
pub open spec fn live_changes(s: Seq<ChangeRow>, ttl: u64, now: u64) -> Seq<ChangeRow>
    decreases s.len(),
{
    if s.len() == 0 {
        s
    } else {
        let rest = live_changes(s.drop_last(), ttl, now);
        if expired(s.last().creation_timestamp, ttl, now) {
            rest
        } else {
            rest.push(s.last())
        }
    }
}

/// The owners of the changes that a sweep removes, in order.
pub open spec fn expired_change_owners(s: Seq<ChangeRow>, ttl: u64, now: u64) -> Seq<Seq<char>>
    decreases s.len(),
{
    if s.len() == 0 {
        Seq::empty()
    } else {
        let rest = expired_change_owners(s.drop_last(), ttl, now);
        if expired(s.last().creation_timestamp, ttl, now) {
            rest.push(s.last().account_id)
        } else {
            rest
        }
    }
}

/// The accounts that a sweep keeps, in order.
pub open spec fn live_accounts(s: Seq<AccountRow>, ttl: u64, now: u64) -> Seq<AccountRow>
    decreases s.len(),
{
    if s.len() == 0 {
        s
    } else {
        let rest = live_accounts(s.drop_last(), ttl, now);
        if abandoned(s.last(), ttl, now) {
            rest
        } else {
            rest.push(s.last())
        }
    }
}

/// The emails of the accounts that a sweep removes, in order.
pub open spec fn abandoned_emails(s: Seq<AccountRow>, ttl: u64, now: u64) -> Seq<Seq<char>>
    decreases s.len(),
{
    if s.len() == 0 {
        Seq::empty()
    } else {
        let rest = abandoned_emails(s.drop_last(), ttl, now);
        if abandoned(s.last(), ttl, now) {
            rest.push(s.last().email)
        } else {
            rest
        }
    }
}

} // verus!
