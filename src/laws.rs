//! Laws of the account service, stated over the outcomes that the
//! operations' contracts use, and proved.
use crate::engine::{email_step_one_fields, email_step_one_outcome, email_step_two_outcome};
use crate::error::Error;
use crate::model::{
    abandoned, account_index, change_index, code_in_use, confirm_outcome, expired, has_account,
    has_change, ids_unique, insert_account_outcome, insert_change_outcome, live_accounts, live_changes, stamp_exhausted, stamp_of,
    ChangeFields, StoreView,
};
use crate::password::{bcrypt_verdict, password_check};
use crate::store::{
    lemma_account_index, lemma_change_index, lemma_confirm_keeps_unique, lemma_live_accounts_unique,
    lemma_live_changes_unique,
};
use crate::engine::{email_at, email_in_use};
use crate::model::{owned_changes, store_wf};
use crate::store::lemma_owned_changes_unique;
use crate::token::holds_stamp;
use vstd::prelude::*;

verus! {

/// A stored change gets a code that differs from every code already
/// stored, so the codes of any number of proposals are pairwise distinct.
pub proof fn lemma_proposed_codes_distinct(v: StoreView, code: Seq<char>, account_id: Seq<char>, f: ChangeFields, now: u64)
    requires
        ids_unique(v),
        insert_change_outcome(v, code, account_id, f, now) is Ok,
    ensures
        ids_unique(insert_change_outcome(v, code, account_id, f, now)->Ok_0),
        forall|i: int| 0 <= i < v.changes.len() ==> #[trigger] v.changes[i].account_change_id != code,
{
    let w = insert_change_outcome(v, code, account_id, f, now)->Ok_0;
    assert forall|i: int| 0 <= i < v.changes.len() implies #[trigger] v.changes[i].account_change_id != code by {
        assert(!code_in_use(v.changes, code));
    }
    assert forall|i: int, j: int|
        0 <= i < w.changes.len() && 0 <= j < w.changes.len() && i != j
            implies #[trigger] w.changes[i].account_change_id != #[trigger] w.changes[j].account_change_id by {
        if i < v.changes.len() && j < v.changes.len() {
            assert(w.changes[i] == v.changes[i] && w.changes[j] == v.changes[j]);
        } else if i < v.changes.len() {
            assert(w.changes[i] == v.changes[i]);
        } else {
            assert(w.changes[j] == v.changes[j]);
        }
    }
}

/// A confirmed change cannot be confirmed again: the second confirmation
/// finds nothing, and the change was applied exactly once.
pub proof fn lemma_confirm_single_use(v: StoreView, account_id: Seq<char>, change_id: Seq<char>, now: u64, later: u64)
    requires
        ids_unique(v),
        confirm_outcome(v, account_id, change_id, now) is Ok,
    ensures
        ids_unique(confirm_outcome(v, account_id, change_id, now)->Ok_0),
        confirm_outcome(confirm_outcome(v, account_id, change_id, now)->Ok_0, account_id, change_id, later)
            == Err::<StoreView, Error>(Error::AccountChangeNotFound),
{
    let w = confirm_outcome(v, account_id, change_id, now)->Ok_0;
    let ci = change_index(v.changes, account_id, change_id);
    let ai = account_index(v.accounts, account_id);
    assert(has_change(v.changes, account_id, change_id));
    assert(has_account(v.accounts, account_id));
    lemma_confirm_keeps_unique(v, ai, w.accounts[ai], ci);
    assert(w.changes =~= v.changes.remove(ci));
    if has_change(w.changes, account_id, change_id) {
        let k = choose|k: int| crate::model::change_at(w.changes, account_id, change_id, k);
        let ok = if k < ci { k } else { k + 1 };
        assert(w.changes[k] == v.changes[ok]);
        assert(v.changes[ok].account_change_id == v.changes[ci].account_change_id);
    }
}

/// A code confirmed on behalf of an account other than its owner is not
/// found.
pub proof fn lemma_confirm_owner_only(v: StoreView, owner: Seq<char>, other: Seq<char>, change_id: Seq<char>, now: u64)
    requires
        ids_unique(v),
        has_change(v.changes, owner, change_id),
        other != owner,
    ensures
        confirm_outcome(v, other, change_id, now) == Err::<StoreView, Error>(Error::AccountChangeNotFound),
{
    let i = change_index(v.changes, owner, change_id);
    if has_change(v.changes, other, change_id) {
        let j = change_index(v.changes, other, change_id);
        assert(v.changes[i].account_change_id == v.changes[j].account_change_id);
    }
}

/// A second-phase confirmation of a code that no change of the account
/// has is not found.
pub proof fn lemma_step_two_needs_change(v: StoreView, account_id: Seq<char>, change_id: Seq<char>, now: u64)
    requires
        !has_change(v.changes, account_id, change_id),
    ensures
        email_step_two_outcome(v, account_id, change_id, now) == Err::<StoreView, Error>(Error::AccountChangeNotFound),
{
}

/// A second-phase confirmation of a code that is no second-phase change of
/// the account fails, and so applies nothing: not found where the account has
/// no change of that code, a step mismatch where it has one of another phase.
pub proof fn lemma_step_two_needs_step_two_change(v: StoreView, account_id: Seq<char>, change_id: Seq<char>, now: u64)
    requires
        ids_unique(v),
        forall|i: int| #[trigger] crate::model::change_at(v.changes, account_id, change_id, i)
            ==> v.changes[i].fields.step != Some(2i16),
    ensures
        email_step_two_outcome(v, account_id, change_id, now) == (if has_change(v.changes, account_id, change_id) {
            Err::<StoreView, Error>(Error::StepMismatch)
        } else {
            Err::<StoreView, Error>(Error::AccountChangeNotFound)
        }),
{
    if has_change(v.changes, account_id, change_id) {
        let i = change_index(v.changes, account_id, change_id);
        assert(crate::model::change_at(v.changes, account_id, change_id, i));
    }
}

/// A first-phase code presented at the second phase is refused as a step
/// mismatch, and applies nothing.
pub proof fn lemma_step_one_code_refused_at_step_two(v: StoreView, account_id: Seq<char>, code: Seq<char>, email: Seq<char>, now: u64, later: u64)
    requires
        ids_unique(v),
        insert_change_outcome(v, code, account_id, email_step_one_fields(email), now) is Ok,
    ensures
        email_step_two_outcome(insert_change_outcome(v, code, account_id, email_step_one_fields(email), now)->Ok_0, account_id, code, later)
            == Err::<StoreView, Error>(Error::StepMismatch),
{
    let w = insert_change_outcome(v, code, account_id, email_step_one_fields(email), now)->Ok_0;
    lemma_proposed_codes_distinct(v, code, account_id, email_step_one_fields(email), now);
    let n = v.changes.len() as int;
    assert(crate::model::change_at(w.changes, account_id, code, n));
    lemma_change_index(w, account_id, code, n);
}

/// No pending change of `account_id` is stored.
pub open spec fn no_changes_of(changes: Seq<crate::model::ChangeRow>, account_id: Seq<char>) -> bool {
    forall|i: int| 0 <= i < changes.len() ==> #[trigger] changes[i].account_id != account_id
}

/// No account but the one at `ai` has the email `email`.
pub open spec fn email_free_for(v: StoreView, ai: int, email: Seq<char>) -> bool {
    forall|k: int| 0 <= k < v.accounts.len() && k != ai ==> #[trigger] v.accounts[k].email != email
}

/// The whole email change: proposing the first phase, confirming it (which
/// proposes the second phase under a fresh code), and confirming the second
/// phase sets the new email and leaves no pending change of the account.
pub proof fn lemma_email_change_happy_path(
    v: StoreView,
    account_id: Seq<char>,
    email: Seq<char>,
    code1: Seq<char>,
    code2: Seq<char>,
    t1: u64,
    t2: u64,
    t3: u64,
)
    requires
        ids_unique(v),
        has_account(v.accounts, account_id),
        no_changes_of(v.changes, account_id),
        email_free_for(v, account_index(v.accounts, account_id), email),
        insert_change_outcome(v, code1, account_id, email_step_one_fields(email), t1) is Ok,
        !code_in_use(insert_change_outcome(v, code1, account_id, email_step_one_fields(email), t1)->Ok_0.changes, code2),
        !stamp_exhausted(stamp_of(v.accounts, account_id), t3),
    ensures
        ({
            let v1 = insert_change_outcome(v, code1, account_id, email_step_one_fields(email), t1)->Ok_0;
            let s2 = email_step_one_outcome(v1, account_id, code1, code2, t2);
            &&& s2 is Ok
            &&& email_step_two_outcome(s2->Ok_0, account_id, code2, t3) is Ok
            &&& ({
                let v3 = email_step_two_outcome(s2->Ok_0, account_id, code2, t3)->Ok_0;
                &&& has_account(v3.accounts, account_id)
                &&& v3.accounts[account_index(v3.accounts, account_id)].email == email
                &&& no_changes_of(v3.changes, account_id)
            })
        }),
{
    let v1 = insert_change_outcome(v, code1, account_id, email_step_one_fields(email), t1)->Ok_0;
    lemma_proposed_codes_distinct(v, code1, account_id, email_step_one_fields(email), t1);
    let n = v.changes.len() as int;
    assert(crate::model::change_at(v1.changes, account_id, code1, n));
    lemma_change_index(v1, account_id, code1, n);
    let ai = account_index(v.accounts, account_id);
    assert(crate::model::account_at(v.accounts, account_id, ai));
    let s2 = email_step_one_outcome(v1, account_id, code1, code2, t2);
    assert(s2 is Ok);
    let v2 = s2->Ok_0;
    assert(v2.changes =~= v1.changes.remove(n).push(v2.changes.last()));
    assert(v1.changes.remove(n) =~= v.changes);
    // The second state has the same accounts and the starting changes plus
    // the second-phase change; its codes are unique.
    assert(ids_unique(v2)) by {
        assert forall|i: int, j: int|
            0 <= i < v2.changes.len() && 0 <= j < v2.changes.len() && i != j
                implies #[trigger] v2.changes[i].account_change_id != #[trigger] v2.changes[j].account_change_id by {
            if i < n && j < n {
                assert(v2.changes[i] == v.changes[i] && v2.changes[j] == v.changes[j]);
            } else if i < n {
                assert(v2.changes[i] == v1.changes[i]);
            } else {
                assert(v2.changes[j] == v1.changes[j]);
            }
        }
    }
    assert(crate::model::change_at(v2.changes, account_id, code2, n));
    lemma_change_index(v2, account_id, code2, n);
    lemma_account_index(v2, account_id, ai);
    assert(!crate::model::clashes(v2.accounts, ai, v2.changes[n].fields)) by {
        if crate::model::clashes(v2.accounts, ai, v2.changes[n].fields) {
            let k = choose|k: int| 0 <= k < v2.accounts.len() && k != ai
                && #[trigger] crate::model::clashes_with(v2.accounts[k], v2.changes[n].fields);
            assert(v.accounts[k].email != email);
        }
    }
    assert(v2.accounts == v.accounts);
    assert(!stamp_exhausted(v2.accounts[ai].last_change_timestamp, t3));
    let v3 = email_step_two_outcome(v2, account_id, code2, t3)->Ok_0;
    assert(v3.changes =~= v.changes);
    lemma_confirm_keeps_unique(v2, ai, v3.accounts[ai], n);
    assert(crate::model::account_at(v3.accounts, account_id, ai));
    lemma_account_index(v3, account_id, ai);
}

/// Confirming a change of an account revokes every token that carries its
/// old stamp, while a token issued afterwards carries the stamp it now has.
pub proof fn lemma_confirm_revokes_tokens(v: StoreView, account_id: Seq<char>, change_id: Seq<char>, now: u64)
    requires
        ids_unique(v),
        confirm_outcome(v, account_id, change_id, now) is Ok,
    ensures
        !holds_stamp(confirm_outcome(v, account_id, change_id, now)->Ok_0.accounts, account_id, stamp_of(v.accounts, account_id)),
        holds_stamp(
            confirm_outcome(v, account_id, change_id, now)->Ok_0.accounts,
            account_id,
            stamp_of(confirm_outcome(v, account_id, change_id, now)->Ok_0.accounts, account_id),
        ),
{
    let w = confirm_outcome(v, account_id, change_id, now)->Ok_0;
    let ai = account_index(v.accounts, account_id);
    let ci = change_index(v.changes, account_id, change_id);
    assert(has_account(v.accounts, account_id));
    assert(crate::model::account_at(v.accounts, account_id, ai));
    lemma_confirm_keeps_unique(v, ai, w.accounts[ai], ci);
    assert(crate::model::account_at(w.accounts, account_id, ai));
    lemma_account_index(w, account_id, ai);
}

/// A sweep removes every pending change past its time to live, so its code
/// can no longer be confirmed.
pub proof fn lemma_sweep_removes_expired_change(v: StoreView, account_id: Seq<char>, change_id: Seq<char>, ttl: u64, now: u64, later: u64)
    requires
        ids_unique(v),
        has_change(v.changes, account_id, change_id),
        expired(v.changes[change_index(v.changes, account_id, change_id)].creation_timestamp, ttl, now),
    ensures
        !has_change(live_changes(v.changes, ttl, now), account_id, change_id),
        confirm_outcome(StoreView { accounts: v.accounts, changes: live_changes(v.changes, ttl, now) }, account_id, change_id, later)
            == Err::<StoreView, Error>(Error::AccountChangeNotFound),
{
    let ci = change_index(v.changes, account_id, change_id);
    lemma_live_changes_unique(v.changes, ttl, now);
    let live = live_changes(v.changes, ttl, now);
    if has_change(live, account_id, change_id) {
        let m = choose|m: int| crate::model::change_at(live, account_id, change_id, m);
        assert(v.changes.contains(live[m]));
        let k = choose|k: int| 0 <= k < v.changes.len() && v.changes[k] == live[m];
        assert(v.changes[k].account_change_id == v.changes[ci].account_change_id);
    }
}

/// A sweep removes an unverified account past its time to live together
/// with its pending changes; no account keeps its email, so it can no longer
/// log in.
pub proof fn lemma_sweep_blocks_abandoned_account(v: StoreView, account_id: Seq<char>, change_id: Seq<char>, ttl: u64, now: u64)
    requires
        store_wf(v),
        has_account(v.accounts, account_id),
        abandoned(v.accounts[account_index(v.accounts, account_id)], ttl, now),
    ensures
        !email_in_use(live_accounts(v.accounts, ttl, now), v.accounts[account_index(v.accounts, account_id)].email),
        !has_change(owned_changes(v.changes, live_accounts(v.accounts, ttl, now)), account_id, change_id),
{
    let ai = account_index(v.accounts, account_id);
    lemma_sweep_removes_abandoned_account(v, account_id, ttl, now);
    lemma_live_accounts_unique(v.accounts, ttl, now);
    let live = live_accounts(v.accounts, ttl, now);
    if email_in_use(live, v.accounts[ai].email) {
        let m = choose|m: int| #[trigger] email_at(live, v.accounts[ai].email, m);
        assert(v.accounts.contains(live[m]));
        let k = choose|k: int| 0 <= k < v.accounts.len() && v.accounts[k] == live[m];
        if k != ai {
            assert(v.accounts[k].email != v.accounts[ai].email);
        }
    }
    lemma_owned_changes_unique(v.changes, live);
    let kept = owned_changes(v.changes, live);
    if has_change(kept, account_id, change_id) {
        let m = choose|m: int| crate::model::change_at(kept, account_id, change_id, m);
        assert(has_account(live, kept[m].account_id));
    }
}

/// A sweep removes every unverified account past its time to live.
pub proof fn lemma_sweep_removes_abandoned_account(v: StoreView, account_id: Seq<char>, ttl: u64, now: u64)
    requires
        ids_unique(v),
        has_account(v.accounts, account_id),
        abandoned(v.accounts[account_index(v.accounts, account_id)], ttl, now),
    ensures
        !has_account(live_accounts(v.accounts, ttl, now), account_id),
{
    let ai = account_index(v.accounts, account_id);
    lemma_live_accounts_unique(v.accounts, ttl, now);
    let live = live_accounts(v.accounts, ttl, now);
    if has_account(live, account_id) {
        let m = choose|m: int| crate::model::account_at(live, account_id, m);
        assert(v.accounts.contains(live[m]));
        let k = choose|k: int| 0 <= k < v.accounts.len() && v.accounts[k] == live[m];
        assert(v.accounts[k].account_id == v.accounts[ai].account_id);
    }
}

/// A hash that the hasher produced for a password accepts that password.
pub proof fn lemma_password_round_trip(plain: Seq<char>, hash: Seq<char>)
    requires
        bcrypt_verdict(plain, hash) == Some(true),
    ensures
        password_check(plain, hash) == Ok::<(), Error>(()),
{
}


/// The changes of state `k` stay, in place, in every later state of a run of
/// proposals.
proof fn lemma_proposals_keep_changes(states: Seq<StoreView>, codes: Seq<Seq<char>>, owners: Seq<Seq<char>>, fields: Seq<ChangeFields>, times: Seq<u64>, k: int, m: int)
    requires
        states.len() == codes.len() + 1,
        owners.len() == codes.len(),
        fields.len() == codes.len(),
        times.len() == codes.len(),
        forall|i: int| 0 <= i < codes.len() ==> #[trigger] insert_change_outcome(states[i], codes[i], owners[i], fields[i], times[i])
            == Ok::<StoreView, Error>(states[i + 1]),
        0 <= k <= m < states.len(),
    ensures
        states[k].changes.len() <= states[m].changes.len(),
        forall|i: int| 0 <= i < states[k].changes.len() ==> #[trigger] states[m].changes[i] == states[k].changes[i],
    decreases m - k,
{
    if k < m {
        lemma_proposals_keep_changes(states, codes, owners, fields, times, k + 1, m);
        assert(insert_change_outcome(states[k], codes[k], owners[k], fields[k], times[k]) == Ok::<StoreView, Error>(states[k + 1]));
        assert forall|i: int| 0 <= i < states[k].changes.len() implies #[trigger] states[m].changes[i] == states[k].changes[i] by {
            assert(states[k + 1].changes[i] == states[k].changes[i]);
        }
    }
}

/// Any number of proposals in a row get codes that are pairwise distinct and
/// that no pending change had before the first of them.
pub proof fn lemma_proposal_codes_distinct(states: Seq<StoreView>, codes: Seq<Seq<char>>, owners: Seq<Seq<char>>, fields: Seq<ChangeFields>, times: Seq<u64>)
    requires
        states.len() == codes.len() + 1,
        owners.len() == codes.len(),
        fields.len() == codes.len(),
        times.len() == codes.len(),
        forall|i: int| 0 <= i < codes.len() ==> #[trigger] insert_change_outcome(states[i], codes[i], owners[i], fields[i], times[i])
            == Ok::<StoreView, Error>(states[i + 1]),
    ensures
        forall|j: int, k: int| 0 <= j < k < codes.len() ==> #[trigger] codes[j] != #[trigger] codes[k],
        forall|k: int| 0 <= k < codes.len() ==> !code_in_use(states[0].changes, #[trigger] codes[k]),
{
    assert forall|j: int, k: int| 0 <= j < k < codes.len() implies #[trigger] codes[j] != #[trigger] codes[k] by {
        assert(insert_change_outcome(states[j], codes[j], owners[j], fields[j], times[j]) == Ok::<StoreView, Error>(states[j + 1]));
        assert(insert_change_outcome(states[k], codes[k], owners[k], fields[k], times[k]) == Ok::<StoreView, Error>(states[k + 1]));
        lemma_proposals_keep_changes(states, codes, owners, fields, times, j + 1, k);
        let l = states[j].changes.len() as int;
        assert(states[j + 1].changes[l].account_change_id == codes[j]);
        assert(states[k].changes[l].account_change_id == codes[j]);
    }
    assert forall|k: int| 0 <= k < codes.len() implies !code_in_use(states[0].changes, #[trigger] codes[k]) by {
        assert(insert_change_outcome(states[k], codes[k], owners[k], fields[k], times[k]) == Ok::<StoreView, Error>(states[k + 1]));
        lemma_proposals_keep_changes(states, codes, owners, fields, times, 0, k);
        if code_in_use(states[0].changes, codes[k]) {
            let i = choose|i: int| 0 <= i < states[0].changes.len() && #[trigger] states[0].changes[i].account_change_id == codes[k];
            assert(states[k].changes[i] == states[0].changes[i]);
        }
    }
}

/// The accounts of state `k` stay, in place, in every later state of a run
/// of account creations.
proof fn lemma_creations_keep_accounts(states: Seq<StoreView>, ids: Seq<Seq<char>>, usernames: Seq<Seq<char>>, emails: Seq<Seq<char>>, passwords: Seq<Seq<char>>, times: Seq<u64>, k: int, m: int)
    requires
        states.len() == ids.len() + 1,
        usernames.len() == ids.len(),
        emails.len() == ids.len(),
        passwords.len() == ids.len(),
        times.len() == ids.len(),
        forall|i: int| 0 <= i < ids.len() ==> #[trigger] insert_account_outcome(states[i], ids[i], usernames[i], emails[i], passwords[i], times[i])
            == Ok::<StoreView, Error>(states[i + 1]),
        0 <= k <= m < states.len(),
    ensures
        states[k].accounts.len() <= states[m].accounts.len(),
        forall|i: int| 0 <= i < states[k].accounts.len() ==> #[trigger] states[m].accounts[i] == states[k].accounts[i],
    decreases m - k,
{
    if k < m {
        lemma_creations_keep_accounts(states, ids, usernames, emails, passwords, times, k + 1, m);
        assert(insert_account_outcome(states[k], ids[k], usernames[k], emails[k], passwords[k], times[k]) == Ok::<StoreView, Error>(states[k + 1]));
        assert forall|i: int| 0 <= i < states[k].accounts.len() implies #[trigger] states[m].accounts[i] == states[k].accounts[i] by {
            assert(states[k + 1].accounts[i] == states[k].accounts[i]);
        }
    }
}

/// Any number of account creations in a row get identifiers that are
/// pairwise distinct and that no account had before the first of them.
pub proof fn lemma_account_ids_distinct(states: Seq<StoreView>, ids: Seq<Seq<char>>, usernames: Seq<Seq<char>>, emails: Seq<Seq<char>>, passwords: Seq<Seq<char>>, times: Seq<u64>)
    requires
        states.len() == ids.len() + 1,
        usernames.len() == ids.len(),
        emails.len() == ids.len(),
        passwords.len() == ids.len(),
        times.len() == ids.len(),
        forall|i: int| 0 <= i < ids.len() ==> #[trigger] insert_account_outcome(states[i], ids[i], usernames[i], emails[i], passwords[i], times[i])
            == Ok::<StoreView, Error>(states[i + 1]),
    ensures
        forall|j: int, k: int| 0 <= j < k < ids.len() ==> #[trigger] ids[j] != #[trigger] ids[k],
        forall|k: int| 0 <= k < ids.len() ==> !has_account(states[0].accounts, #[trigger] ids[k]),
{
    assert forall|j: int, k: int| 0 <= j < k < ids.len() implies #[trigger] ids[j] != #[trigger] ids[k] by {
        assert(insert_account_outcome(states[j], ids[j], usernames[j], emails[j], passwords[j], times[j]) == Ok::<StoreView, Error>(states[j + 1]));
        assert(insert_account_outcome(states[k], ids[k], usernames[k], emails[k], passwords[k], times[k]) == Ok::<StoreView, Error>(states[k + 1]));
        lemma_creations_keep_accounts(states, ids, usernames, emails, passwords, times, j + 1, k);
        let l = states[j].accounts.len() as int;
        assert(states[j + 1].accounts[l].account_id == ids[j]);
        assert(crate::model::account_at(states[k].accounts, ids[j], l));
    }
    assert forall|k: int| 0 <= k < ids.len() implies !has_account(states[0].accounts, #[trigger] ids[k]) by {
        assert(insert_account_outcome(states[k], ids[k], usernames[k], emails[k], passwords[k], times[k]) == Ok::<StoreView, Error>(states[k + 1]));
        lemma_creations_keep_accounts(states, ids, usernames, emails, passwords, times, 0, k);
        if has_account(states[0].accounts, ids[k]) {
            let i = choose|i: int| crate::model::account_at(states[0].accounts, ids[k], i);
            assert(states[k].accounts[i] == states[0].accounts[i]);
            assert(crate::model::account_at(states[k].accounts, ids[k], i));
        }
    }
}

} // verus!
