use accounts::config::{parse_decimal, AppConfig};
use accounts::email::{confirmation_email_body, string_to_email_placeholder};
use accounts::engine::{
    begin_email_change, confirm_email_change_step_one, confirm_email_change_step_two,
    create_account, create_account_change, get_account_change, get_account_from_credentials,
    get_account_from_id,
};
use accounts::error::Error;
use accounts::ids::{allocate_id, create_account_change_id, create_account_id, IdTable};
use accounts::model::{Account, AccountChange};
use accounts::password::{check_verdict, compare_plain_to_encrypted_string, encrypt_string};
use accounts::random::{get_random_numbers, get_random_process_id, get_random_string, ALPHANUMERIC, COLOR_RESET, DIGITS};
use accounts::store::{next_change_stamp, AccountStore};
use accounts::token::{account_from_claims, get_account_from_token, get_account_token, AccountTokenClaims, NEVER_EXPIRES};

const SECRET: &str = "test-signing-key";

fn test_config() -> AppConfig {
    AppConfig {
        account_confirmation_lifespan: 600,
        check_timeout: 60,
        account_ids_length: 16,
        account_info_change_ids_length: 6,
        create_id_retry_limit: 10,
        jwt_secret_key: SECRET.to_string(),
        string_encryption_processing_cost: 4,
        email_address: "service@example.com".to_string(),
        email_password: "mail-password".to_string(),
        smtp_relay: "smtp.example.com".to_string(),
        account_creation_confirmation_email_subject: "Confirm your account".to_string(),
        account_creation_confirmation_email_title_message: "Welcome".to_string(),
        account_change_username_confirmation_email_subject: "Username change".to_string(),
        account_change_username_confirmation_email_title_message: "Confirm the username change".to_string(),
        account_change_email_one_confirmation_email_subject: "Email change".to_string(),
        account_change_email_one_confirmation_email_title_message: "Confirm from your current address".to_string(),
        account_change_email_two_confirmation_email_subject: "Email change".to_string(),
        account_change_email_two_confirmation_email_title_message: "Confirm your new address".to_string(),
        account_change_password_confirmation_email_subject: "Password change".to_string(),
        account_change_password_confirmation_email_title_message: "Confirm the password change".to_string(),
        account_email_authentication_confirmation_email_subject: "Login".to_string(),
        account_email_authentication_confirmation_email_title_message: "Your login code".to_string(),
        account_deletion_confirmation_email_subject: "Account deletion".to_string(),
        account_deletion_confirmation_email_title_message: "Confirm the deletion".to_string(),
        email_name_placeholder: "{{name}}".to_string(),
        confirmation_email_title_message_placeholder: "{{title}}".to_string(),
        confirmation_email_confirmation_code_placeholder: "{{code}}".to_string(),
        confirmation_email_body: "<h1>{{title}}</h1><p>{{name}}: {{code}}</p>".to_string(),
        process_id_length: 8,
        name: "Accounts".to_string(),
    }
}

fn new_account(username: &str, email: &str, password: &str) -> Account {
    Account { username: username.to_string(), email: email.to_string(), password: password.to_string() }
}

fn only_change(username: Option<&str>, email: Option<&str>, password: Option<&str>, verified: Option<bool>, step: Option<i16>) -> AccountChange {
    AccountChange {
        username: username.map(|s| s.to_string()),
        email: email.map(|s| s.to_string()),
        password: password.map(|s| s.to_string()),
        verified,
        step,
    }
}

fn store_with_account(config: &AppConfig, now: u64) -> (AccountStore, String) {
    let mut store = AccountStore::new();
    let id = create_account(&mut store, &new_account("afonso", "a@x.pt", "pw123"), now, config).unwrap();
    (store, id)
}

#[test]
fn signup_verification_scenario() {
    let config = test_config();
    let (mut store, id) = store_with_account(&config, 1000);
    let account = get_account_from_id(&store, &id).unwrap();
    assert_eq!(account.username, "afonso");
    assert_eq!(account.email, "a@x.pt");
    assert!(!account.verified);
    assert_ne!(account.password, "pw123");
    let stamp_before = account.last_change_timestamp;

    let code = create_account_change(&mut store, &id, &only_change(None, None, None, Some(true), None), 1001, &config).unwrap();
    assert_eq!(code.len(), 6);
    assert!(code.chars().all(|c| c.is_ascii_digit()));
    store.confirm_account_change(&id, &code, 1002).unwrap();

    let account = get_account_from_id(&store, &id).unwrap();
    assert!(account.verified);
    assert_ne!(account.last_change_timestamp, stamp_before);
    assert_eq!(store.confirm_account_change(&id, &code, 1003), Err(Error::AccountChangeNotFound));
}

#[test]
fn account_ids_are_distinct() {
    let config = test_config();
    let mut store = AccountStore::new();
    let mut ids: Vec<String> = Vec::new();
    for i in 0..20 {
        let account = new_account(&format!("user{i}"), &format!("user{i}@x.pt"), "pw");
        let id = create_account(&mut store, &account, 10, &config).unwrap();
        assert_eq!(id.len(), 16);
        assert!(id.chars().all(|c| c.is_ascii_alphanumeric()));
        ids.push(id);
    }
    for i in 0..ids.len() {
        for j in 0..ids.len() {
            if i != j {
                assert_ne!(ids[i], ids[j]);
            }
        }
    }
}

#[test]
fn change_codes_are_distinct() {
    let config = test_config();
    let (mut store, id) = store_with_account(&config, 10);
    let mut codes: Vec<String> = Vec::new();
    for _ in 0..30 {
        codes.push(create_account_change(&mut store, &id, &only_change(Some("x"), None, None, None, None), 11, &config).unwrap());
    }
    for i in 0..codes.len() {
        for j in (i + 1)..codes.len() {
            assert_ne!(codes[i], codes[j]);
        }
    }
    assert_eq!(store.change_count(), 30);
}

#[test]
fn tiny_code_space_is_exhausted() {
    let mut config = test_config();
    config.account_info_change_ids_length = 1;
    config.create_id_retry_limit = 2000;
    let (mut store, id) = store_with_account(&config, 10);
    for _ in 0..10 {
        create_account_change(&mut store, &id, &only_change(None, None, None, Some(true), None), 11, &config).unwrap();
    }
    let r = create_account_change(&mut store, &id, &only_change(None, None, None, Some(true), None), 11, &config);
    assert_eq!(r, Err(Error::CreateIdRetryLimitExceeded));
    assert_eq!(create_account_change_id(&store, &config), Err(Error::CreateIdRetryLimitExceeded));
    assert_eq!(store.change_count(), 10);
}

#[test]
fn allocation_over_a_full_account_table_fails() {
    let mut config = test_config();
    config.account_ids_length = 0;
    let (store, _id) = store_with_account(&test_config(), 10);
    assert!(create_account_id(&store, &config).is_ok());
    let empty = AccountStore::new();
    assert_eq!(allocate_id(&empty, IdTable::Accounts, DIGITS, 0, 0), Ok(String::new()));
}

#[test]
fn empty_id_is_taken_after_one_account() {
    let mut config = test_config();
    config.account_ids_length = 0;
    let mut store = AccountStore::new();
    let id = create_account(&mut store, &new_account("u", "u@x.pt", "pw"), 1, &config).unwrap();
    assert_eq!(id, "");
    let r = create_account(&mut store, &new_account("v", "v@x.pt", "pw"), 1, &config);
    assert_eq!(r, Err(Error::CreateIdRetryLimitExceeded));
    assert_eq!(store.account_count(), 1);
}

#[test]
fn confirm_is_single_use() {
    let config = test_config();
    let (mut store, id) = store_with_account(&config, 10);
    let code = create_account_change(&mut store, &id, &only_change(Some("renamed"), None, None, None, None), 11, &config).unwrap();
    assert_eq!(store.confirm_account_change(&id, &code, 12), Ok(()));
    assert_eq!(store.confirm_account_change(&id, &code, 13), Err(Error::AccountChangeNotFound));
    let account = get_account_from_id(&store, &id).unwrap();
    assert_eq!(account.username, "renamed");
    assert_eq!(account.email, "a@x.pt");
    assert_eq!(store.change_count(), 0);
}

#[test]
fn confirm_scoped_to_owner() {
    let config = test_config();
    let (mut store, owner) = store_with_account(&config, 10);
    let other = create_account(&mut store, &new_account("bruno", "b@x.pt", "pw"), 10, &config).unwrap();
    let code = create_account_change(&mut store, &owner, &only_change(None, None, None, Some(true), None), 11, &config).unwrap();
    assert_eq!(store.confirm_account_change(&other, &code, 12), Err(Error::AccountChangeNotFound));
    assert_eq!(get_account_change(&store, &other, &code).err(), Some(Error::AccountChangeNotFound));
    assert!(!get_account_from_id(&store, &owner).unwrap().verified);
    assert_eq!(store.confirm_account_change(&owner, &code, 12), Ok(()));
}

#[test]
fn proposing_for_missing_account_fails() {
    let config = test_config();
    let mut store = AccountStore::new();
    let r = create_account_change(&mut store, &"nobody".to_string(), &only_change(None, None, None, Some(true), None), 1, &config);
    assert_eq!(r, Err(Error::AccountNotFound));
    assert_eq!(get_account_from_id(&store, &"nobody".to_string()).err(), Some(Error::AccountNotFound));
}

#[test]
fn duplicate_username_or_email_refused() {
    let config = test_config();
    let (mut store, _id) = store_with_account(&config, 10);
    assert_eq!(create_account(&mut store, &new_account("afonso", "other@x.pt", "pw"), 11, &config), Err(Error::DuplicateKey));
    assert_eq!(create_account(&mut store, &new_account("other", "a@x.pt", "pw"), 11, &config), Err(Error::DuplicateKey));
    assert_eq!(store.account_count(), 1);
}

#[test]
fn confirm_refuses_taken_email() {
    let config = test_config();
    let (mut store, id) = store_with_account(&config, 10);
    create_account(&mut store, &new_account("bruno", "b@x.pt", "pw"), 10, &config).unwrap();
    let code = create_account_change(&mut store, &id, &only_change(None, Some("b@x.pt"), None, None, None), 11, &config).unwrap();
    assert_eq!(store.confirm_account_change(&id, &code, 12), Err(Error::DuplicateKey));
    assert_eq!(get_account_from_id(&store, &id).unwrap().email, "a@x.pt");
    assert_eq!(store.change_count(), 1);
}

#[test]
fn email_change_happy_path() {
    let config = test_config();
    let (mut store, id) = store_with_account(&config, 10);
    let code1 = begin_email_change(&mut store, &id, &"new@x.pt".to_string(), 11, &config).unwrap();
    let step = get_account_change(&store, &id, &code1).unwrap();
    assert_eq!(step.step, Some(1));
    let (code2, address) = confirm_email_change_step_one(&mut store, &id, &code1, 12, &config).unwrap();
    assert_eq!(address, "new@x.pt");
    assert_ne!(code1, code2);
    assert_eq!(get_account_change(&store, &id, &code1).err(), Some(Error::AccountChangeNotFound));
    assert_eq!(get_account_change(&store, &id, &code2).unwrap().step, Some(2));
    assert_eq!(get_account_from_id(&store, &id).unwrap().email, "a@x.pt");
    confirm_email_change_step_two(&mut store, &id, &code2, 13).unwrap();
    assert_eq!(get_account_from_id(&store, &id).unwrap().email, "new@x.pt");
    assert_eq!(store.change_count(), 0);
}

#[test]
fn step_two_before_step_one_not_found() {
    let config = test_config();
    let (mut store, id) = store_with_account(&config, 10);
    assert_eq!(confirm_email_change_step_two(&mut store, &id, &"123456".to_string(), 11), Err(Error::AccountChangeNotFound));
}

#[test]
fn step_one_code_at_step_two_mismatch() {
    let config = test_config();
    let (mut store, id) = store_with_account(&config, 10);
    let code1 = begin_email_change(&mut store, &id, &"new@x.pt".to_string(), 11, &config).unwrap();
    assert_eq!(confirm_email_change_step_two(&mut store, &id, &code1, 12), Err(Error::StepMismatch));
    assert_eq!(get_account_from_id(&store, &id).unwrap().email, "a@x.pt");
    assert_eq!(store.change_count(), 1);
}

#[test]
fn step_two_code_at_step_one_mismatch() {
    let config = test_config();
    let (mut store, id) = store_with_account(&config, 10);
    let code1 = begin_email_change(&mut store, &id, &"new@x.pt".to_string(), 11, &config).unwrap();
    let (code2, _) = confirm_email_change_step_one(&mut store, &id, &code1, 12, &config).unwrap();
    assert_eq!(confirm_email_change_step_one(&mut store, &id, &code2, 13, &config), Err(Error::StepMismatch));
    let plain = create_account_change(&mut store, &id, &only_change(Some("x"), None, None, None, None), 14, &config).unwrap();
    assert_eq!(confirm_email_change_step_one(&mut store, &id, &plain, 15, &config), Err(Error::StepMismatch));
    assert_eq!(confirm_email_change_step_one(&mut store, &id, &"nothing".to_string(), 15, &config), Err(Error::AccountChangeNotFound));
}

#[test]
fn confirm_revokes_tokens() {
    let config = test_config();
    let (mut store, id) = store_with_account(&config, 10);
    let token = get_account_token(&store, &id, SECRET).unwrap();
    assert_eq!(get_account_from_token(&store, &token, SECRET).unwrap().account_id, id);
    let code = create_account_change(&mut store, &id, &only_change(None, None, None, Some(true), None), 11, &config).unwrap();
    store.confirm_account_change(&id, &code, 12).unwrap();
    assert_eq!(get_account_from_token(&store, &token, SECRET).err(), Some(Error::InvalidToken));
    let fresh = get_account_token(&store, &id, SECRET).unwrap();
    assert_ne!(fresh, token);
    assert_eq!(get_account_from_token(&store, &fresh, SECRET).unwrap().account_id, id);
}

#[test]
fn token_checks() {
    let config = test_config();
    let (store, id) = store_with_account(&config, 10);
    let token = get_account_token(&store, &id, SECRET).unwrap();
    assert_ne!(token, id);
    assert_eq!(token.split('.').count(), 3);
    assert_eq!(get_account_from_token(&store, &token, "another-key").err(), Some(Error::InvalidToken));
    assert_eq!(get_account_from_token(&store, "not a token", SECRET).err(), Some(Error::InvalidToken));
    assert_eq!(get_account_token(&store, &"nobody".to_string(), SECRET), Err(Error::AccountNotFound));
    let stale = AccountTokenClaims { account_id: id.clone(), last_change_timestamp: 9, exp: NEVER_EXPIRES };
    assert_eq!(account_from_claims(&store, &stale).err(), Some(Error::InvalidToken));
    let current = AccountTokenClaims { account_id: id.clone(), last_change_timestamp: 10, exp: NEVER_EXPIRES };
    assert_eq!(account_from_claims(&store, &current).unwrap().username, "afonso");
}

#[test]
fn sweep_removes_expired_rows() {
    let config = test_config();
    let mut store = AccountStore::new();
    let old = create_account(&mut store, &new_account("old", "old@x.pt", "pw"), 100, &config).unwrap();
    let kept = create_account(&mut store, &new_account("kept", "kept@x.pt", "pw"), 100, &config).unwrap();
    let verify_kept = create_account_change(&mut store, &kept, &only_change(None, None, None, Some(true), None), 100, &config).unwrap();
    store.confirm_account_change(&kept, &verify_kept, 100).unwrap();
    let code = create_account_change(&mut store, &old, &only_change(None, None, None, Some(true), None), 100, &config).unwrap();
    let fresh = create_account_change(&mut store, &kept, &only_change(Some("k2"), None, None, None, None), 700, &config).unwrap();

    assert_eq!(store.delete_expired_account_changes(600, 700), Vec::<String>::new());
    assert_eq!(store.delete_expired_unverified_accounts(600, 700), Vec::<String>::new());

    let owners = store.delete_expired_account_changes(600, 701);
    assert_eq!(owners, vec![old.clone()]);
    let emails = store.delete_expired_unverified_accounts(600, 701);
    assert_eq!(emails, vec!["old@x.pt".to_string()]);

    assert_eq!(store.confirm_account_change(&old, &code, 702), Err(Error::AccountChangeNotFound));
    assert_eq!(get_account_from_credentials(&store, &"old@x.pt".to_string(), &"pw".to_string()).err(), Some(Error::AccountNotFound));
    assert!(get_account_from_id(&store, &kept).unwrap().verified);
    assert_eq!(store.account_count(), 1);
    assert_eq!(store.change_count(), 1);
    assert!(get_account_change(&store, &kept, &fresh).is_ok());
}

#[test]
fn sweep_on_empty_store() {
    let mut store = AccountStore::new();
    assert!(store.delete_expired_account_changes(0, u64::MAX).is_empty());
    assert!(store.delete_expired_unverified_accounts(0, u64::MAX).is_empty());
}

#[test]
fn password_round_trip() {
    let hash = encrypt_string("pw123", 4).unwrap();
    assert_ne!(hash, "pw123");
    assert_eq!(compare_plain_to_encrypted_string("pw123", &hash), Ok(()));
    assert_eq!(compare_plain_to_encrypted_string("pw124", &hash), Err(Error::PlainNotEqualToEncryptedString));
    assert_eq!(compare_plain_to_encrypted_string("pw123", "not a hash"), Err(Error::CryptoFailure));
    assert_eq!(encrypt_string("pw123", 3), Err(Error::CryptoFailure));
    assert_eq!(encrypt_string("pw123", 32), Err(Error::CryptoFailure));
}

#[test]
fn verdicts_map_to_outcomes() {
    assert_eq!(check_verdict(Some(true)), Ok(()));
    assert_eq!(check_verdict(Some(false)), Err(Error::PlainNotEqualToEncryptedString));
    assert_eq!(check_verdict(None), Err(Error::CryptoFailure));
}

#[test]
fn login_with_credentials() {
    let config = test_config();
    let (store, id) = store_with_account(&config, 10);
    let account = get_account_from_credentials(&store, &"a@x.pt".to_string(), &"pw123".to_string()).unwrap();
    assert_eq!(account.account_id, id);
    assert_eq!(get_account_from_credentials(&store, &"a@x.pt".to_string(), &"wrong".to_string()).err(), Some(Error::PlainNotEqualToEncryptedString));
    assert_eq!(get_account_from_credentials(&store, &"z@x.pt".to_string(), &"pw123".to_string()).err(), Some(Error::AccountNotFound));
}

#[test]
fn password_change_is_hashed() {
    let config = test_config();
    let (mut store, id) = store_with_account(&config, 10);
    let code = create_account_change(&mut store, &id, &only_change(None, None, Some("newpw"), None, None), 11, &config).unwrap();
    let pending = get_account_change(&store, &id, &code).unwrap();
    assert_ne!(pending.password, Some("newpw".to_string()));
    store.confirm_account_change(&id, &code, 12).unwrap();
    assert!(get_account_from_credentials(&store, &"a@x.pt".to_string(), &"newpw".to_string()).is_ok());
    assert_eq!(get_account_from_credentials(&store, &"a@x.pt".to_string(), &"pw123".to_string()).err(), Some(Error::PlainNotEqualToEncryptedString));
}

#[test]
fn cancel_discards_change() {
    let config = test_config();
    let (mut store, id) = store_with_account(&config, 10);
    let code = create_account_change(&mut store, &id, &only_change(None, None, None, Some(true), None), 11, &config).unwrap();
    store.delete_account_change(&code);
    assert_eq!(store.change_count(), 0);
    assert_eq!(store.confirm_account_change(&id, &code, 12), Err(Error::AccountChangeNotFound));
    store.delete_account_change(&code);
    assert_eq!(store.change_count(), 0);
}

#[test]
fn stamp_moves_forward() {
    assert_eq!(next_change_stamp(5, 10), 10);
    assert_eq!(next_change_stamp(10, 10), 11);
    assert_eq!(next_change_stamp(10, 3), 11);
}

#[test]
fn random_strings_have_shape() {
    let s = get_random_string(40);
    assert_eq!(s.chars().count(), 40);
    assert!(s.chars().all(|c| ALPHANUMERIC.contains(c)));
    let d = get_random_numbers(12);
    assert_eq!(d.len(), 12);
    assert!(d.chars().all(|c| c.is_ascii_digit()));
    assert_eq!(get_random_string(0), "");
}

#[test]
fn process_id_is_coloured() {
    let p = get_random_process_id(8);
    assert!(p.starts_with("\x1b[1;9"));
    assert!(p.ends_with(COLOR_RESET));
    assert_eq!(p.len(), 7 + 8 + 4);
}

#[test]
fn placeholder_wraps_text() {
    assert_eq!(string_to_email_placeholder("%%", "name"), "%%name%%");
    assert_eq!(string_to_email_placeholder("", "x"), "x");
}

#[test]
fn email_body_is_filled() {
    let config = test_config();
    let body = confirmation_email_body(&config, "Welcome", "123456");
    assert_eq!(body, "<h1>Welcome</h1><p>Accounts: 123456</p>");
}

fn full_environment() -> Vec<(String, String)> {
    let pairs = [
        ("ACCOUNT_CONFIRMATION_LIFESPAN", "600"),
        ("CHECK_TIMEOUT", "60"),
        ("ACCOUNT_IDS_LENGTH", "16"),
        ("ACCOUNT_INFO_CHANGE_IDS_LENGTH", "6"),
        ("CREATE_ID_RETRY_LIMIT", "10"),
        ("JWT_SECRET_KEY", "key"),
        ("STRING_ENCRYPTION_PROCESSING_COST", "12"),
        ("EMAIL_ADDRESS", "service@example.com"),
        ("EMAIL_PASSWORD", "secret"),
        ("SMTP_RELAY", "smtp.example.com"),
        ("ACCOUNT_CREATION_CONFIRMATION_EMAIL_SUBJECT", "s1"),
        ("ACCOUNT_CREATION_CONFIRMATION_EMAIL_TITLE_MESSAGE", "t1"),
        ("ACCOUNT_CHANGE_USERNAME_CONFIRMATION_EMAIL_SUBJECT", "s2"),
        ("ACCOUNT_CHANGE_USERNAME_CONFIRMATION_EMAIL_TITLE_MESSAGE", "t2"),
        ("ACCOUNT_CHANGE_EMAIL_ONE_CONFIRMATION_EMAIL_SUBJECT", "s3"),
        ("ACCOUNT_CHANGE_EMAIL_ONE_CONFIRMATION_EMAIL_TITLE_MESSAGE", "t3"),
        ("ACCOUNT_CHANGE_EMAIL_TWO_CONFIRMATION_EMAIL_SUBJECT", "s4"),
        ("ACCOUNT_CHANGE_EMAIL_TWO_CONFIRMATION_EMAIL_TITLE_MESSAGE", "t4"),
        ("ACCOUNT_CHANGE_PASSWORD_CONFIRMATION_EMAIL_SUBJECT", "s5"),
        ("ACCOUNT_CHANGE_PASSWORD_CONFIRMATION_EMAIL_TITLE_MESSAGE", "t5"),
        ("ACCOUNT_EMAIL_AUTHENTICATION_CONFIRMATION_EMAIL_SUBJECT", "s6"),
        ("ACCOUNT_EMAIL_AUTHENTICATION_CONFIRMATION_EMAIL_TITLE_MESSAGE", "t6"),
        ("ACCOUNT_DELETION_CONFIRMATION_EMAIL_SUBJECT", "s7"),
        ("ACCOUNT_DELETION_CONFIRMATION_EMAIL_TITLE_MESSAGE", "t7"),
        ("EMAIL_NAME_PLACEHOLDER", "{{name}}"),
        ("CONFIRMATION_EMAIL_TITLE_MESSAGE_PLACEHOLDER", "{{title}}"),
        ("CONFIRMATION_EMAIL_CONFIRMATION_CODE_PLACEHOLDER", "{{code}}"),
        ("CONFIRMATION_EMAIL_BODY", "{{title}} {{code}}"),
        ("PROCESS_ID_LENGTH", "8"),
        ("NAME", "Accounts"),
    ];
    pairs.iter().map(|(k, v)| (k.to_string(), v.to_string())).collect()
}

fn with_variable(vars: &[(String, String)], name: &str, value: Option<&str>) -> Vec<(String, String)> {
    let mut out: Vec<(String, String)> = vars.iter().filter(|(k, _)| k != name).cloned().collect();
    if let Some(v) = value {
        out.push((name.to_string(), v.to_string()));
    }
    out
}

#[test]
fn config_loads_from_variables() {
    let config = AppConfig::load_from_env(&full_environment()).unwrap();
    assert_eq!(config.account_confirmation_lifespan, 600);
    assert_eq!(config.check_timeout, 60);
    assert_eq!(config.account_ids_length, 16);
    assert_eq!(config.account_info_change_ids_length, 6);
    assert_eq!(config.create_id_retry_limit, 10);
    assert_eq!(config.jwt_secret_key, "key");
    assert_eq!(config.string_encryption_processing_cost, 12);
    assert_eq!(config.confirmation_email_body, "{{title}} {{code}}");
    assert_eq!(config.process_id_length, 8);
    assert_eq!(config.name, "Accounts");
}

#[test]
fn config_missing_variable() {
    let vars = with_variable(&full_environment(), "JWT_SECRET_KEY", None);
    assert_eq!(AppConfig::load_from_env(&vars).err().map(|e| e.error), Some(Error::MissingConfigVariable));
    assert_eq!(AppConfig::load_from_env(&Vec::new()).err().map(|e| e.variable), Some("ACCOUNT_CONFIRMATION_LIFESPAN".to_string()));
}

#[test]
fn config_invalid_numbers() {
    let env = full_environment();
    let bad = with_variable(&env, "CHECK_TIMEOUT", Some("soon"));
    assert_eq!(AppConfig::load_from_env(&bad).err().map(|e| e.error), Some(Error::InvalidConfigVariable));
    let empty = with_variable(&env, "ACCOUNT_IDS_LENGTH", Some(""));
    assert_eq!(AppConfig::load_from_env(&empty).err().map(|e| e.error), Some(Error::InvalidConfigVariable));
    let too_big = with_variable(&env, "STRING_ENCRYPTION_PROCESSING_COST", Some("4294967296"));
    assert_eq!(AppConfig::load_from_env(&too_big).err().map(|e| e.error), Some(Error::InvalidConfigVariable));
    let largest = with_variable(&env, "STRING_ENCRYPTION_PROCESSING_COST", Some("4294967295"));
    assert_eq!(AppConfig::load_from_env(&largest).unwrap().string_encryption_processing_cost, u32::MAX);
    let u64_max = with_variable(&env, "CHECK_TIMEOUT", Some("18446744073709551615"));
    assert_eq!(AppConfig::load_from_env(&u64_max).unwrap().check_timeout, u64::MAX);
    let u64_over = with_variable(&env, "CHECK_TIMEOUT", Some("18446744073709551616"));
    assert_eq!(AppConfig::load_from_env(&u64_over).err().map(|e| e.error), Some(Error::InvalidConfigVariable));
}

#[test]
fn first_variable_wins() {
    let mut vars = full_environment();
    vars.push(("NAME".to_string(), "Later".to_string()));
    assert_eq!(AppConfig::load_from_env(&vars).unwrap().name, "Accounts");
}

#[test]
fn decimal_parsing() {
    assert_eq!(parse_decimal("0", 10), Some(0));
    assert_eq!(parse_decimal("0042", 100), Some(42));
    assert_eq!(parse_decimal("101", 100), None);
    assert_eq!(parse_decimal("+1", 100), Some(1));
    assert_eq!(parse_decimal("+", 100), None);
    assert_eq!(parse_decimal("++1", 100), None);
    assert_eq!(parse_decimal("-1", 100), None);
    assert_eq!(parse_decimal("", 100), None);
    assert_eq!(parse_decimal("12a", 100), None);
}

#[test]
fn account_deletion_flow() {
    let config = test_config();
    let (mut store, id) = store_with_account(&config, 10);
    let token = get_account_token(&store, &id, SECRET).unwrap();
    let rename = create_account_change(&mut store, &id, &only_change(Some("x"), None, None, None, None), 11, &config).unwrap();
    assert_eq!(store.confirm_account_deletion(&id, &rename), Err(Error::StepMismatch));
    let code = create_account_change(&mut store, &id, &only_change(None, None, None, None, None), 11, &config).unwrap();
    assert_eq!(store.confirm_account_deletion(&"other".to_string(), &code), Err(Error::AccountChangeNotFound));
    assert_eq!(store.confirm_account_deletion(&id, &code), Ok(()));
    assert_eq!(store.account_count(), 0);
    assert_eq!(store.change_count(), 0);
    assert_eq!(get_account_from_token(&store, &token, SECRET).err(), Some(Error::InvalidToken));
    assert_eq!(store.confirm_account_change(&id, &rename, 12), Err(Error::AccountChangeNotFound));
    assert_eq!(store.confirm_account_deletion(&id, &code), Err(Error::AccountChangeNotFound));
}

#[test]
fn confirm_refused_when_stamp_exhausted() {
    let config = test_config();
    let mut store = AccountStore::new();
    let id = "fixed-id".to_string();
    store.insert_account(id.clone(), &"u".to_string(), &"u@x.pt".to_string(), "hash".to_string(), u64::MAX).unwrap();
    let code = create_account_change(&mut store, &id, &only_change(None, None, None, Some(true), None), 1, &config).unwrap();
    assert_eq!(store.confirm_account_change(&id, &code, u64::MAX), Err(Error::StampExhausted));
    assert_eq!(store.change_count(), 1);
    assert!(!get_account_from_id(&store, &id).unwrap().verified);
}

#[test]
fn sweep_removes_changes_of_swept_accounts() {
    let config = test_config();
    let mut store = AccountStore::new();
    let old = create_account(&mut store, &new_account("old", "old@x.pt", "pw"), 100, &config).unwrap();
    let code = create_account_change(&mut store, &old, &only_change(Some("x"), None, None, None, None), 700, &config).unwrap();
    assert_eq!(store.delete_expired_unverified_accounts(600, 701), vec!["old@x.pt".to_string()]);
    assert_eq!(store.change_count(), 0);
    let again = create_account(&mut store, &new_account("new", "new@x.pt", "pw"), 702, &config).unwrap();
    assert_eq!(store.confirm_account_change(&again, &code, 703), Err(Error::AccountChangeNotFound));
}

#[test]
fn duplicate_name_refused_before_allocation() {
    let mut config = test_config();
    config.account_ids_length = 0;
    let mut store = AccountStore::new();
    create_account(&mut store, &new_account("u", "u@x.pt", "pw"), 1, &config).unwrap();
    assert_eq!(create_account(&mut store, &new_account("u", "v@x.pt", "pw"), 1, &config), Err(Error::DuplicateKey));
}

#[test]
fn hash_carries_cost() {
    let hash = encrypt_string("pw123", 5).unwrap();
    assert_eq!(hash.len(), 60);
    assert!(hash.starts_with("$2b$05$"));
}

#[test]
fn config_first_error_wins() {
    let env = full_environment();
    let bad_then_missing = with_variable(&with_variable(&env, "CHECK_TIMEOUT", Some("soon")), "NAME", None);
    let e = AppConfig::load_from_env(&bad_then_missing).err().unwrap();
    assert_eq!(e.error, Error::InvalidConfigVariable);
    assert_eq!(e.variable, "CHECK_TIMEOUT");
    let missing_then_bad = with_variable(&with_variable(&env, "ACCOUNT_CONFIRMATION_LIFESPAN", None), "CHECK_TIMEOUT", Some("soon"));
    let e = AppConfig::load_from_env(&missing_then_bad).err().unwrap();
    assert_eq!(e.error, Error::MissingConfigVariable);
    assert_eq!(e.variable, "ACCOUNT_CONFIRMATION_LIFESPAN");
}

#[test]
fn empty_placeholder_matches_everywhere() {
    let mut config = test_config();
    config.confirmation_email_body = "ab".to_string();
    config.confirmation_email_title_message_placeholder = "zz".to_string();
    config.email_name_placeholder = "".to_string();
    config.name = "-".to_string();
    config.confirmation_email_confirmation_code_placeholder = "zz".to_string();
    assert_eq!(confirmation_email_body(&config, "T", "C"), "-a-b-");
}

#[test]
fn token_issued_for_every_account() {
    let config = test_config();
    let (mut store, id) = store_with_account(&config, 10);
    let other = create_account(&mut store, &new_account("b", "b@x.pt", "pw"), 10, &config).unwrap();
    let t1 = get_account_token(&store, &id, SECRET).unwrap();
    let t2 = get_account_token(&store, &other, SECRET).unwrap();
    assert_ne!(t1, t2);
    assert_eq!(get_account_from_token(&store, &t2, SECRET).unwrap().account_id, other);
}
