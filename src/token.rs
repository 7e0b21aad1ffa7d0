//! Bearer tokens: signed claims that stay valid only while the account's
//! change stamp is the one they carry. No token is stored; confirming any
//! change of an account moves its stamp and so revokes all of its tokens.
use crate::error::Error;
use crate::model::{account_index, has_account, stamp_of, AccountRow, AccountsTable};
use crate::store::{lemma_account_index, AccountStore};
use vstd::prelude::*;

verus! {

/// The expiry written into tokens: they never expire by time, only by a
/// change of the account's stamp.
pub const NEVER_EXPIRES: u64 = 0xffff_ffff_ffff_ffff;

/// The claims that a token carries.
pub struct AccountTokenClaims {
    pub account_id: String,
    /// The account's change stamp when the token was issued.
    pub last_change_timestamp: u64,
    pub exp: u64,
}

/// The token that HS256 signing of the claims `account_id`,
/// `last_change_timestamp` and `exp` with the key `secret` gives.
pub uninterp spec fn signed_token(account_id: Seq<char>, change_stamp: u64, exp: u64, secret: Seq<char>) -> Seq<char>;

/// Relies on `jsonwebtoken::encode` with the default header (HS256) over the
/// claims as a JSON object (a sorted map, so the text is a function of the
/// claims): the token depends on the claims and the key alone, and encoding
/// cannot fail (an HMAC key suits HS256, a JSON map always serializes, and
/// HMAC signing does not fail).
#[verifier::external_body]
fn encode_claims(claims: &AccountTokenClaims, secret: &str) -> (r: Option<String>)
    ensures
        r is Some,
        r matches Some(t) ==> t@ == signed_token(claims.account_id@, claims.last_change_timestamp, claims.exp, secret@),
{
    let mut object = serde_json::Map::new();
    object.insert("account_id".to_string(), serde_json::Value::from(claims.account_id.as_str()));
    object.insert("last_change_timestamp".to_string(), serde_json::Value::from(claims.last_change_timestamp));
    object.insert("exp".to_string(), serde_json::Value::from(claims.exp));
    let key = jsonwebtoken::EncodingKey::from_secret(secret.as_bytes());
    jsonwebtoken::encode(&jsonwebtoken::Header::default(), &object, &key).ok()
}

/// `r` is what decoding `token` under `secret` may give: for a token signed
/// with `secret` over claims that never expire, exactly those claims.
pub open spec fn decodes_signed_claims(r: Option<AccountTokenClaims>, token: Seq<char>, secret: Seq<char>) -> bool {
    forall|id: Seq<char>, stamp: u64|
        #[trigger] signed_token(id, stamp, NEVER_EXPIRES, secret) == token
            ==> (r matches Some(c) && c.account_id@ == id && c.last_change_timestamp == stamp)
}

/// Relies on `jsonwebtoken::decode` with the default validation (HS256,
/// `exp` required and not past): a token that `encode` made with the same key
/// from claims whose `exp` never passes decodes back to those claims.
#[verifier::external_body]
fn decode_claims(token: &str, secret: &str) -> (r: Option<AccountTokenClaims>)
    ensures
        decodes_signed_claims(r, token@, secret@),
{
    let key = jsonwebtoken::DecodingKey::from_secret(secret.as_bytes());
    let data = jsonwebtoken::decode::<serde_json::Map<String, serde_json::Value>>(token, &key, &jsonwebtoken::Validation::default()).ok()?;
    Some(AccountTokenClaims {
        account_id: data.claims.get("account_id")?.as_str()?.to_string(),
        last_change_timestamp: data.claims.get("last_change_timestamp")?.as_u64()?,
        exp: data.claims.get("exp")?.as_u64()?,
    })
}

/// The account `account_id` exists and its change stamp is `stamp`.
pub open spec fn holds_stamp(accounts: Seq<AccountRow>, account_id: Seq<char>, stamp: u64) -> bool {
    has_account(accounts, account_id) && stamp_of(accounts, account_id) == stamp
}

/// Issues a token for the account `account_id`, carrying its current stamp.
pub fn get_account_token(store: &AccountStore, account_id: &String, secret: &str) -> (r: Result<String, Error>)
    requires
        store.wf(),
    ensures
        match r {
            Ok(t) => has_account(store@.accounts, account_id@)
                && t@ == signed_token(account_id@, stamp_of(store@.accounts, account_id@), NEVER_EXPIRES, secret@),
            Err(e) => !has_account(store@.accounts, account_id@) && e == Error::AccountNotFound,
        },
{
    let i = match store.find_account(account_id) {
        Some(i) => i,
        None => return Err(Error::AccountNotFound),
    };
    proof {
        lemma_account_index(store@, account_id@, i as int);
    }
    let claims = AccountTokenClaims {
        account_id: account_id.clone(),
        last_change_timestamp: store.account_row(i).last_change_timestamp,
        exp: NEVER_EXPIRES,
    };
    match encode_claims(&claims, secret) {
        Some(t) => Ok(t),
        None => Err(Error::CreateJwt),
    }
}

/// The account that decoded claims stand for: it must exist and still have
/// the stamp that the claims carry, else `InvalidToken`.
pub fn account_from_claims(store: &AccountStore, claims: &AccountTokenClaims) -> (r: Result<AccountsTable, Error>)
    requires
        store.wf(),
    ensures
        match r {
            Ok(a) => holds_stamp(store@.accounts, claims.account_id@, claims.last_change_timestamp)
                && a@ == store@.accounts[account_index(store@.accounts, claims.account_id@)],
            Err(e) => !holds_stamp(store@.accounts, claims.account_id@, claims.last_change_timestamp)
                && e == Error::InvalidToken,
        },
{
    match store.find_account(&claims.account_id) {
        Some(i) => {
            proof {
                lemma_account_index(store@, claims.account_id@, i as int);
            }
            let a = store.account_row(i);
            if a.last_change_timestamp == claims.last_change_timestamp {
                Ok(a.duplicate())
            } else {
                Err(Error::InvalidToken)
            }
        }
        None => Err(Error::InvalidToken),
    }
}

/// Verifies `token`: its signature must hold under `secret`, and the account
/// it names must still have the stamp it carries. Returns that account.
pub fn get_account_from_token(store: &AccountStore, token: &str, secret: &str) -> (r: Result<AccountsTable, Error>)
    requires
        store.wf(),
    ensures
        forall|id: Seq<char>, stamp: u64|
            #[trigger] signed_token(id, stamp, NEVER_EXPIRES, secret@) == token@ ==> {
                &&& (r is Ok <==> holds_stamp(store@.accounts, id, stamp))
                &&& (r matches Ok(a) ==> a@ == store@.accounts[account_index(store@.accounts, id)])
            },
        match r {
            Ok(a) => holds_stamp(store@.accounts, a@.account_id, a@.last_change_timestamp)
                && a@ == store@.accounts[account_index(store@.accounts, a@.account_id)],
            Err(e) => e == Error::InvalidToken,
        },
{
    match decode_claims(token, secret) {
        Some(claims) => account_from_claims(store, &claims),
        None => Err(Error::InvalidToken),
    }
}

} // verus!
