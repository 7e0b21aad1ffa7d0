//! Configuration of the account service, read from environment variables.
use crate::error::Error;
use vstd::prelude::*;

verus! {

/// A configuration variable that could not be read, and why.
#[derive(Debug)]
pub struct ConfigError {
    /// `MissingConfigVariable` or `InvalidConfigVariable`.
    pub error: Error,
    pub variable: String,
}

impl ConfigError {
    fn new(error: Error, variable: &str) -> (r: ConfigError)
        ensures
            r.error == error,
            r.variable@ == variable@,
    {
        ConfigError { error, variable: String::from_str(variable) }
    }
}

/// Settings of the service: identifier shapes, time to live, hashing cost,
/// token secret, and the texts of the confirmation emails.
pub struct AppConfig {
    /// Seconds that a pending change or an unverified account lives.
    pub account_confirmation_lifespan: u64,
    /// Seconds between two sweeps.
    pub check_timeout: u64,
    pub account_ids_length: usize,
    pub account_info_change_ids_length: usize,
    pub create_id_retry_limit: usize,
    pub jwt_secret_key: String,
    pub string_encryption_processing_cost: u32,
    pub email_address: String,
    pub email_password: String,
    pub smtp_relay: String,
    pub account_creation_confirmation_email_subject: String,
    pub account_creation_confirmation_email_title_message: String,
    pub account_change_username_confirmation_email_subject: String,
    pub account_change_username_confirmation_email_title_message: String,
    pub account_change_email_one_confirmation_email_subject: String,
    pub account_change_email_one_confirmation_email_title_message: String,
    pub account_change_email_two_confirmation_email_subject: String,
    pub account_change_email_two_confirmation_email_title_message: String,
    pub account_change_password_confirmation_email_subject: String,
    pub account_change_password_confirmation_email_title_message: String,
    pub account_email_authentication_confirmation_email_subject: String,
    pub account_email_authentication_confirmation_email_title_message: String,
    pub account_deletion_confirmation_email_subject: String,
    pub account_deletion_confirmation_email_title_message: String,
    pub email_name_placeholder: String,
    pub confirmation_email_title_message_placeholder: String,
    pub confirmation_email_confirmation_code_placeholder: String,
    pub confirmation_email_body: String,
    pub process_id_length: usize,
    pub name: String,
}


/// The value of the first variable named `name`.
pub open spec fn env_lookup(vars: Seq<(Seq<char>, Seq<char>)>, name: Seq<char>) -> Option<Seq<char>>
    decreases vars.len(),
{
    if vars.len() == 0 {
        None
    } else if vars[0].0 == name {
        Some(vars[0].1)
    } else {
        env_lookup(vars.drop_first(), name)
    }
}

/// The view of a list of variables.
pub open spec fn vars_view(vars: Seq<(String, String)>) -> Seq<(Seq<char>, Seq<char>)> {
    vars.map_values(|p: (String, String)| (p.0@, p.1@))
}

/// `s` is a non-empty run of decimal digits.
pub open spec fn is_decimal(s: Seq<char>) -> bool {
    s.len() > 0 && forall|i: int| 0 <= i < s.len() ==> '0' <= #[trigger] s[i] && s[i] <= '9'
}

/// The value of the decimal digit `c`.
pub open spec fn digit_of(c: char) -> nat {
    if '0' <= c && c <= '9' {
        (c as int - '0' as int) as nat
    } else {
        0
    }
}

/// The number that the decimal digits `s` write.
pub open spec fn digits_value(s: Seq<char>) -> nat
    decreases s.len(),
{
    if s.len() == 0 {
        0
    } else {
        digits_value(s.drop_last()) * 10 + digit_of(s.last())
    }
}

/// The number that the digits `s` write, if they are digits and the number
/// is at most `max`.
pub open spec fn digits_number(s: Seq<char>, max: nat) -> Option<nat> {
    if is_decimal(s) && digits_value(s) <= max {
        Some(digits_value(s))
    } else {
        None
    }
}

/// The number that `s` writes in decimal, with an optional leading `+`, if
/// it does and it is at most `max`.
pub open spec fn decimal_number(s: Seq<char>, max: nat) -> Option<nat> {
    if s.len() > 0 && s[0] == '+' {
        digits_number(s.drop_first(), max)
    } else {
        digits_number(s, max)
    }
}

/// The number that the variable `name` holds, if it is there, decimal and at
/// most `max`.
pub open spec fn env_number(vars: Seq<(Seq<char>, Seq<char>)>, name: Seq<char>, max: nat) -> Option<nat> {
    match env_lookup(vars, name) {
        Some(v) => decimal_number(v, max),
        None => None,
    }
}

/// Every setting of `c` is the value of its variable in `vars`.
pub open spec fn config_matches(vars: Seq<(Seq<char>, Seq<char>)>, c: AppConfig) -> bool {
    &&& env_number(vars, "ACCOUNT_CONFIRMATION_LIFESPAN"@, u64::MAX as nat) == Some(c.account_confirmation_lifespan as nat)
    &&& env_number(vars, "CHECK_TIMEOUT"@, u64::MAX as nat) == Some(c.check_timeout as nat)
    &&& env_number(vars, "ACCOUNT_IDS_LENGTH"@, usize::MAX as nat) == Some(c.account_ids_length as nat)
    &&& env_number(vars, "ACCOUNT_INFO_CHANGE_IDS_LENGTH"@, usize::MAX as nat) == Some(c.account_info_change_ids_length as nat)
    &&& env_number(vars, "CREATE_ID_RETRY_LIMIT"@, usize::MAX as nat) == Some(c.create_id_retry_limit as nat)
    &&& env_lookup(vars, "JWT_SECRET_KEY"@) == Some(c.jwt_secret_key@)
    &&& env_number(vars, "STRING_ENCRYPTION_PROCESSING_COST"@, u32::MAX as nat) == Some(c.string_encryption_processing_cost as nat)
    &&& env_lookup(vars, "EMAIL_ADDRESS"@) == Some(c.email_address@)
    &&& env_lookup(vars, "EMAIL_PASSWORD"@) == Some(c.email_password@)
    &&& env_lookup(vars, "SMTP_RELAY"@) == Some(c.smtp_relay@)
    &&& env_lookup(vars, "ACCOUNT_CREATION_CONFIRMATION_EMAIL_SUBJECT"@) == Some(c.account_creation_confirmation_email_subject@)
    &&& env_lookup(vars, "ACCOUNT_CREATION_CONFIRMATION_EMAIL_TITLE_MESSAGE"@) == Some(c.account_creation_confirmation_email_title_message@)
    &&& env_lookup(vars, "ACCOUNT_CHANGE_USERNAME_CONFIRMATION_EMAIL_SUBJECT"@) == Some(c.account_change_username_confirmation_email_subject@)
    &&& env_lookup(vars, "ACCOUNT_CHANGE_USERNAME_CONFIRMATION_EMAIL_TITLE_MESSAGE"@) == Some(c.account_change_username_confirmation_email_title_message@)
    &&& env_lookup(vars, "ACCOUNT_CHANGE_EMAIL_ONE_CONFIRMATION_EMAIL_SUBJECT"@) == Some(c.account_change_email_one_confirmation_email_subject@)
    &&& env_lookup(vars, "ACCOUNT_CHANGE_EMAIL_ONE_CONFIRMATION_EMAIL_TITLE_MESSAGE"@) == Some(c.account_change_email_one_confirmation_email_title_message@)
    &&& env_lookup(vars, "ACCOUNT_CHANGE_EMAIL_TWO_CONFIRMATION_EMAIL_SUBJECT"@) == Some(c.account_change_email_two_confirmation_email_subject@)
    &&& env_lookup(vars, "ACCOUNT_CHANGE_EMAIL_TWO_CONFIRMATION_EMAIL_TITLE_MESSAGE"@) == Some(c.account_change_email_two_confirmation_email_title_message@)
    &&& env_lookup(vars, "ACCOUNT_CHANGE_PASSWORD_CONFIRMATION_EMAIL_SUBJECT"@) == Some(c.account_change_password_confirmation_email_subject@)
    &&& env_lookup(vars, "ACCOUNT_CHANGE_PASSWORD_CONFIRMATION_EMAIL_TITLE_MESSAGE"@) == Some(c.account_change_password_confirmation_email_title_message@)
    &&& env_lookup(vars, "ACCOUNT_EMAIL_AUTHENTICATION_CONFIRMATION_EMAIL_SUBJECT"@) == Some(c.account_email_authentication_confirmation_email_subject@)
    &&& env_lookup(vars, "ACCOUNT_EMAIL_AUTHENTICATION_CONFIRMATION_EMAIL_TITLE_MESSAGE"@) == Some(c.account_email_authentication_confirmation_email_title_message@)
    &&& env_lookup(vars, "ACCOUNT_DELETION_CONFIRMATION_EMAIL_SUBJECT"@) == Some(c.account_deletion_confirmation_email_subject@)
    &&& env_lookup(vars, "ACCOUNT_DELETION_CONFIRMATION_EMAIL_TITLE_MESSAGE"@) == Some(c.account_deletion_confirmation_email_title_message@)
    &&& env_lookup(vars, "EMAIL_NAME_PLACEHOLDER"@) == Some(c.email_name_placeholder@)
    &&& env_lookup(vars, "CONFIRMATION_EMAIL_TITLE_MESSAGE_PLACEHOLDER"@) == Some(c.confirmation_email_title_message_placeholder@)
    &&& env_lookup(vars, "CONFIRMATION_EMAIL_CONFIRMATION_CODE_PLACEHOLDER"@) == Some(c.confirmation_email_confirmation_code_placeholder@)
    &&& env_lookup(vars, "CONFIRMATION_EMAIL_BODY"@) == Some(c.confirmation_email_body@)
    &&& env_number(vars, "PROCESS_ID_LENGTH"@, usize::MAX as nat) == Some(c.process_id_length as nat)
    &&& env_lookup(vars, "NAME"@) == Some(c.name@)
}

/// Every variable of the configuration is in `vars`, and the numeric ones
/// hold numbers in range.
pub open spec fn config_complete(vars: Seq<(Seq<char>, Seq<char>)>) -> bool {
    &&& env_number(vars, "ACCOUNT_CONFIRMATION_LIFESPAN"@, u64::MAX as nat) is Some
    &&& env_number(vars, "CHECK_TIMEOUT"@, u64::MAX as nat) is Some
    &&& env_number(vars, "ACCOUNT_IDS_LENGTH"@, usize::MAX as nat) is Some
    &&& env_number(vars, "ACCOUNT_INFO_CHANGE_IDS_LENGTH"@, usize::MAX as nat) is Some
    &&& env_number(vars, "CREATE_ID_RETRY_LIMIT"@, usize::MAX as nat) is Some
    &&& env_lookup(vars, "JWT_SECRET_KEY"@) is Some
    &&& env_number(vars, "STRING_ENCRYPTION_PROCESSING_COST"@, u32::MAX as nat) is Some
    &&& env_lookup(vars, "EMAIL_ADDRESS"@) is Some
    &&& env_lookup(vars, "EMAIL_PASSWORD"@) is Some
    &&& env_lookup(vars, "SMTP_RELAY"@) is Some
    &&& env_lookup(vars, "ACCOUNT_CREATION_CONFIRMATION_EMAIL_SUBJECT"@) is Some
    &&& env_lookup(vars, "ACCOUNT_CREATION_CONFIRMATION_EMAIL_TITLE_MESSAGE"@) is Some
    &&& env_lookup(vars, "ACCOUNT_CHANGE_USERNAME_CONFIRMATION_EMAIL_SUBJECT"@) is Some
    &&& env_lookup(vars, "ACCOUNT_CHANGE_USERNAME_CONFIRMATION_EMAIL_TITLE_MESSAGE"@) is Some
    &&& env_lookup(vars, "ACCOUNT_CHANGE_EMAIL_ONE_CONFIRMATION_EMAIL_SUBJECT"@) is Some
    &&& env_lookup(vars, "ACCOUNT_CHANGE_EMAIL_ONE_CONFIRMATION_EMAIL_TITLE_MESSAGE"@) is Some
    &&& env_lookup(vars, "ACCOUNT_CHANGE_EMAIL_TWO_CONFIRMATION_EMAIL_SUBJECT"@) is Some
    &&& env_lookup(vars, "ACCOUNT_CHANGE_EMAIL_TWO_CONFIRMATION_EMAIL_TITLE_MESSAGE"@) is Some
    &&& env_lookup(vars, "ACCOUNT_CHANGE_PASSWORD_CONFIRMATION_EMAIL_SUBJECT"@) is Some
    &&& env_lookup(vars, "ACCOUNT_CHANGE_PASSWORD_CONFIRMATION_EMAIL_TITLE_MESSAGE"@) is Some
    &&& env_lookup(vars, "ACCOUNT_EMAIL_AUTHENTICATION_CONFIRMATION_EMAIL_SUBJECT"@) is Some
    &&& env_lookup(vars, "ACCOUNT_EMAIL_AUTHENTICATION_CONFIRMATION_EMAIL_TITLE_MESSAGE"@) is Some
    &&& env_lookup(vars, "ACCOUNT_DELETION_CONFIRMATION_EMAIL_SUBJECT"@) is Some
    &&& env_lookup(vars, "ACCOUNT_DELETION_CONFIRMATION_EMAIL_TITLE_MESSAGE"@) is Some
    &&& env_lookup(vars, "EMAIL_NAME_PLACEHOLDER"@) is Some
    &&& env_lookup(vars, "CONFIRMATION_EMAIL_TITLE_MESSAGE_PLACEHOLDER"@) is Some
    &&& env_lookup(vars, "CONFIRMATION_EMAIL_CONFIRMATION_CODE_PLACEHOLDER"@) is Some
    &&& env_lookup(vars, "CONFIRMATION_EMAIL_BODY"@) is Some
    &&& env_number(vars, "PROCESS_ID_LENGTH"@, usize::MAX as nat) is Some
    &&& env_lookup(vars, "NAME"@) is Some
}

/// A longer run of digits writes a number at least as large as its prefix.
pub proof fn lemma_digits_value_prefix(s: Seq<char>, k: int)
    requires
        0 <= k <= s.len(),
        forall|i: int| 0 <= i < s.len() ==> '0' <= #[trigger] s[i] && s[i] <= '9',
    ensures
        digits_value(s.take(k)) <= digits_value(s),
    decreases s.len(),
{
    if k < s.len() {
        let d = s.drop_last();
        assert(d.take(k) =~= s.take(k));
        assert forall|i: int| 0 <= i < d.len() implies '0' <= #[trigger] d[i] && d[i] <= '9' by {
            assert(d[i] == s[i]);
        }
        lemma_digits_value_prefix(d, k);
        assert(s.last() >= '0');
    } else {
        assert(s.take(k) =~= s);
    }
}

/// Reads `s`, with an optional leading `+`, as a decimal number no larger
/// than `max`.
pub fn parse_decimal(s: &str, max: u64) -> (r: Option<u64>)
    ensures
        match decimal_number(s@, max as nat) {
            Some(n) => r == Some(n as u64),
            None => r is None,
        },
{
    let n = s.unicode_len();
    if n > 0 && s.get_char(0) == '+' {
        let rest = s.substring_char(1, n);
        assert(rest@ =~= s@.drop_first());
        parse_digits(rest, max)
    } else {
        parse_digits(s, max)
    }
}

/// Reads the digits `s` as a number no larger than `max`.
pub fn parse_digits(s: &str, max: u64) -> (r: Option<u64>)
    ensures
        match digits_number(s@, max as nat) {
            Some(n) => r == Some(n as u64),
            None => r is None,
        },
{
    let n = s.unicode_len();
    if n == 0 {
        return None;
    }
    let mut value: u64 = 0;
    let mut i: usize = 0;
    while i < n
        invariant
            n == s@.len(),
            i <= n,
            value as nat == digits_value(s@.take(i as int)),
            value <= max,
            forall|j: int| 0 <= j < i ==> '0' <= #[trigger] s@[j] && s@[j] <= '9',
        decreases n - i,
    {
        let c = s.get_char(i);
        if c < '0' || c > '9' {
            assert(!is_decimal(s@));
            return None;
        }
        let d = (c as u32 - '0' as u32) as u64;
        proof {
            assert(s@.take(i as int + 1).drop_last() =~= s@.take(i as int));
            assert(s@.take(i as int + 1).last() == c);
        }
        if d > max || value > (max - d) / 10 {
            proof {
                if d <= max {
                    assert(value * 10 + d > max) by (nonlinear_arith)
                        requires value > (max - d) / 10, d <= max;
                }
                if is_decimal(s@) {
                    lemma_digits_value_prefix(s@, i as int + 1);
                }
            }
            return None;
        }
        proof {
            assert(value * 10 + d <= max) by (nonlinear_arith)
                requires value <= (max - d) / 10, d <= max;
        }
        value = value * 10 + d;
        i = i + 1;
    }
    proof {
        assert(s@.take(n as int) =~= s@);
    }
    Some(value)
}

/// The value of the first variable named `name` in `vars`.
pub fn environment_variable<'a>(vars: &'a Vec<(String, String)>, name: &str) -> (r: Option<&'a String>)
    ensures
        match env_lookup(vars_view(vars@), name@) {
            Some(v) => r matches Some(s) && s@ == v,
            None => r is None,
        },
{
    let key = String::from_str(name);
    let ghost all = vars_view(vars@);
    assert(all.subrange(0, all.len() as int) =~= all);
    let mut i: usize = 0;
    while i < vars.len()
        invariant
            i <= vars.len(),
            key@ == name@,
            all == vars_view(vars@),
            env_lookup(all, name@) == env_lookup(all.subrange(i as int, all.len() as int), name@),
        decreases vars.len() - i,
    {
        let ghost rest = all.subrange(i as int, all.len() as int);
        assert(rest[0] == (vars@[i as int].0@, vars@[i as int].1@));
        assert(rest.drop_first() =~= all.subrange(i as int + 1, all.len() as int));
        if vars[i].0 == key {
            return Some(&vars[i].1);
        }
        i = i + 1;
    }
    None
}

/// The error that reading the configuration from `vars` meets first, going
/// through the settings in order: a missing variable, or a numeric one that
/// does not hold a number in range, with the variable's name. `None` where
/// there is none.
pub open spec fn config_error(vars: Seq<(Seq<char>, Seq<char>)>) -> Option<(Error, Seq<char>)> {
    if env_lookup(vars, "ACCOUNT_CONFIRMATION_LIFESPAN"@) is None {
        Some((Error::MissingConfigVariable, "ACCOUNT_CONFIRMATION_LIFESPAN"@))
    } else if env_number(vars, "ACCOUNT_CONFIRMATION_LIFESPAN"@, u64::MAX as nat) is None {
        Some((Error::InvalidConfigVariable, "ACCOUNT_CONFIRMATION_LIFESPAN"@))
    } else if env_lookup(vars, "CHECK_TIMEOUT"@) is None {
        Some((Error::MissingConfigVariable, "CHECK_TIMEOUT"@))
    } else if env_number(vars, "CHECK_TIMEOUT"@, u64::MAX as nat) is None {
        Some((Error::InvalidConfigVariable, "CHECK_TIMEOUT"@))
    } else if env_lookup(vars, "ACCOUNT_IDS_LENGTH"@) is None {
        Some((Error::MissingConfigVariable, "ACCOUNT_IDS_LENGTH"@))
    } else if env_number(vars, "ACCOUNT_IDS_LENGTH"@, usize::MAX as nat) is None {
        Some((Error::InvalidConfigVariable, "ACCOUNT_IDS_LENGTH"@))
    } else if env_lookup(vars, "ACCOUNT_INFO_CHANGE_IDS_LENGTH"@) is None {
        Some((Error::MissingConfigVariable, "ACCOUNT_INFO_CHANGE_IDS_LENGTH"@))
    } else if env_number(vars, "ACCOUNT_INFO_CHANGE_IDS_LENGTH"@, usize::MAX as nat) is None {
        Some((Error::InvalidConfigVariable, "ACCOUNT_INFO_CHANGE_IDS_LENGTH"@))
    } else if env_lookup(vars, "CREATE_ID_RETRY_LIMIT"@) is None {
        Some((Error::MissingConfigVariable, "CREATE_ID_RETRY_LIMIT"@))
    } else if env_number(vars, "CREATE_ID_RETRY_LIMIT"@, usize::MAX as nat) is None {
        Some((Error::InvalidConfigVariable, "CREATE_ID_RETRY_LIMIT"@))
    } else if env_lookup(vars, "JWT_SECRET_KEY"@) is None {
        Some((Error::MissingConfigVariable, "JWT_SECRET_KEY"@))
    } else if env_lookup(vars, "STRING_ENCRYPTION_PROCESSING_COST"@) is None {
        Some((Error::MissingConfigVariable, "STRING_ENCRYPTION_PROCESSING_COST"@))
    } else if env_number(vars, "STRING_ENCRYPTION_PROCESSING_COST"@, u32::MAX as nat) is None {
        Some((Error::InvalidConfigVariable, "STRING_ENCRYPTION_PROCESSING_COST"@))
    } else if env_lookup(vars, "EMAIL_ADDRESS"@) is None {
        Some((Error::MissingConfigVariable, "EMAIL_ADDRESS"@))
    } else if env_lookup(vars, "EMAIL_PASSWORD"@) is None {
        Some((Error::MissingConfigVariable, "EMAIL_PASSWORD"@))
    } else if env_lookup(vars, "SMTP_RELAY"@) is None {
        Some((Error::MissingConfigVariable, "SMTP_RELAY"@))
    } else if env_lookup(vars, "ACCOUNT_CREATION_CONFIRMATION_EMAIL_SUBJECT"@) is None {
        Some((Error::MissingConfigVariable, "ACCOUNT_CREATION_CONFIRMATION_EMAIL_SUBJECT"@))
    } else if env_lookup(vars, "ACCOUNT_CREATION_CONFIRMATION_EMAIL_TITLE_MESSAGE"@) is None {
        Some((Error::MissingConfigVariable, "ACCOUNT_CREATION_CONFIRMATION_EMAIL_TITLE_MESSAGE"@))
    } else if env_lookup(vars, "ACCOUNT_CHANGE_USERNAME_CONFIRMATION_EMAIL_SUBJECT"@) is None {
        Some((Error::MissingConfigVariable, "ACCOUNT_CHANGE_USERNAME_CONFIRMATION_EMAIL_SUBJECT"@))
    } else if env_lookup(vars, "ACCOUNT_CHANGE_USERNAME_CONFIRMATION_EMAIL_TITLE_MESSAGE"@) is None {
        Some((Error::MissingConfigVariable, "ACCOUNT_CHANGE_USERNAME_CONFIRMATION_EMAIL_TITLE_MESSAGE"@))
    } else if env_lookup(vars, "ACCOUNT_CHANGE_EMAIL_ONE_CONFIRMATION_EMAIL_SUBJECT"@) is None {
        Some((Error::MissingConfigVariable, "ACCOUNT_CHANGE_EMAIL_ONE_CONFIRMATION_EMAIL_SUBJECT"@))
    } else if env_lookup(vars, "ACCOUNT_CHANGE_EMAIL_ONE_CONFIRMATION_EMAIL_TITLE_MESSAGE"@) is None {
        Some((Error::MissingConfigVariable, "ACCOUNT_CHANGE_EMAIL_ONE_CONFIRMATION_EMAIL_TITLE_MESSAGE"@))
    } else if env_lookup(vars, "ACCOUNT_CHANGE_EMAIL_TWO_CONFIRMATION_EMAIL_SUBJECT"@) is None {
        Some((Error::MissingConfigVariable, "ACCOUNT_CHANGE_EMAIL_TWO_CONFIRMATION_EMAIL_SUBJECT"@))
    } else if env_lookup(vars, "ACCOUNT_CHANGE_EMAIL_TWO_CONFIRMATION_EMAIL_TITLE_MESSAGE"@) is None {
        Some((Error::MissingConfigVariable, "ACCOUNT_CHANGE_EMAIL_TWO_CONFIRMATION_EMAIL_TITLE_MESSAGE"@))
    } else if env_lookup(vars, "ACCOUNT_CHANGE_PASSWORD_CONFIRMATION_EMAIL_SUBJECT"@) is None {
        Some((Error::MissingConfigVariable, "ACCOUNT_CHANGE_PASSWORD_CONFIRMATION_EMAIL_SUBJECT"@))
    } else if env_lookup(vars, "ACCOUNT_CHANGE_PASSWORD_CONFIRMATION_EMAIL_TITLE_MESSAGE"@) is None {
        Some((Error::MissingConfigVariable, "ACCOUNT_CHANGE_PASSWORD_CONFIRMATION_EMAIL_TITLE_MESSAGE"@))
    } else if env_lookup(vars, "ACCOUNT_EMAIL_AUTHENTICATION_CONFIRMATION_EMAIL_SUBJECT"@) is None {
        Some((Error::MissingConfigVariable, "ACCOUNT_EMAIL_AUTHENTICATION_CONFIRMATION_EMAIL_SUBJECT"@))
    } else if env_lookup(vars, "ACCOUNT_EMAIL_AUTHENTICATION_CONFIRMATION_EMAIL_TITLE_MESSAGE"@) is None {
        Some((Error::MissingConfigVariable, "ACCOUNT_EMAIL_AUTHENTICATION_CONFIRMATION_EMAIL_TITLE_MESSAGE"@))
    } else if env_lookup(vars, "ACCOUNT_DELETION_CONFIRMATION_EMAIL_SUBJECT"@) is None {
        Some((Error::MissingConfigVariable, "ACCOUNT_DELETION_CONFIRMATION_EMAIL_SUBJECT"@))
    } else if env_lookup(vars, "ACCOUNT_DELETION_CONFIRMATION_EMAIL_TITLE_MESSAGE"@) is None {
        Some((Error::MissingConfigVariable, "ACCOUNT_DELETION_CONFIRMATION_EMAIL_TITLE_MESSAGE"@))
    } else if env_lookup(vars, "EMAIL_NAME_PLACEHOLDER"@) is None {
        Some((Error::MissingConfigVariable, "EMAIL_NAME_PLACEHOLDER"@))
    } else if env_lookup(vars, "CONFIRMATION_EMAIL_TITLE_MESSAGE_PLACEHOLDER"@) is None {
        Some((Error::MissingConfigVariable, "CONFIRMATION_EMAIL_TITLE_MESSAGE_PLACEHOLDER"@))
    } else if env_lookup(vars, "CONFIRMATION_EMAIL_CONFIRMATION_CODE_PLACEHOLDER"@) is None {
        Some((Error::MissingConfigVariable, "CONFIRMATION_EMAIL_CONFIRMATION_CODE_PLACEHOLDER"@))
    } else if env_lookup(vars, "CONFIRMATION_EMAIL_BODY"@) is None {
        Some((Error::MissingConfigVariable, "CONFIRMATION_EMAIL_BODY"@))
    } else if env_lookup(vars, "PROCESS_ID_LENGTH"@) is None {
        Some((Error::MissingConfigVariable, "PROCESS_ID_LENGTH"@))
    } else if env_number(vars, "PROCESS_ID_LENGTH"@, usize::MAX as nat) is None {
        Some((Error::InvalidConfigVariable, "PROCESS_ID_LENGTH"@))
    } else if env_lookup(vars, "NAME"@) is None {
        Some((Error::MissingConfigVariable, "NAME"@))
    } else {
        None
    }
}

impl AppConfig {
    /// Builds the configuration from environment variables (`vars`, as
    /// name and value pairs): each setting is read from the variable of its
    /// name in capitals, in the order of the fields. The first missing
    /// variable is `MissingConfigVariable`, the first numeric one that is not
    /// a decimal number in range `InvalidConfigVariable`.
    pub fn load_from_env(vars: &Vec<(String, String)>) -> (r: Result<AppConfig, ConfigError>)
        ensures
            match config_error(vars_view(vars@)) {
                Some(e) => r matches Err(ce) && ce.error == e.0 && ce.variable@ == e.1,
                None => r matches Ok(c) && config_matches(vars_view(vars@), c),
            },
            config_complete(vars_view(vars@)) ==> r is Ok,
    {
        let account_confirmation_lifespan = match environment_variable(vars, "ACCOUNT_CONFIRMATION_LIFESPAN") {
            Some(v) => match parse_decimal(v.as_str(), u64::MAX as u64) {
                Some(n) => n as u64,
                None => return Err(ConfigError::new(Error::InvalidConfigVariable, "ACCOUNT_CONFIRMATION_LIFESPAN")),
            },
            None => return Err(ConfigError::new(Error::MissingConfigVariable, "ACCOUNT_CONFIRMATION_LIFESPAN")),
        };
        let check_timeout = match environment_variable(vars, "CHECK_TIMEOUT") {
            Some(v) => match parse_decimal(v.as_str(), u64::MAX as u64) {
                Some(n) => n as u64,
                None => return Err(ConfigError::new(Error::InvalidConfigVariable, "CHECK_TIMEOUT")),
            },
            None => return Err(ConfigError::new(Error::MissingConfigVariable, "CHECK_TIMEOUT")),
        };
        let account_ids_length = match environment_variable(vars, "ACCOUNT_IDS_LENGTH") {
            Some(v) => match parse_decimal(v.as_str(), usize::MAX as u64) {
                Some(n) => n as usize,
                None => return Err(ConfigError::new(Error::InvalidConfigVariable, "ACCOUNT_IDS_LENGTH")),
            },
            None => return Err(ConfigError::new(Error::MissingConfigVariable, "ACCOUNT_IDS_LENGTH")),
        };
        let account_info_change_ids_length = match environment_variable(vars, "ACCOUNT_INFO_CHANGE_IDS_LENGTH") {
            Some(v) => match parse_decimal(v.as_str(), usize::MAX as u64) {
                Some(n) => n as usize,
                None => return Err(ConfigError::new(Error::InvalidConfigVariable, "ACCOUNT_INFO_CHANGE_IDS_LENGTH")),
            },
            None => return Err(ConfigError::new(Error::MissingConfigVariable, "ACCOUNT_INFO_CHANGE_IDS_LENGTH")),
        };
        let create_id_retry_limit = match environment_variable(vars, "CREATE_ID_RETRY_LIMIT") {
            Some(v) => match parse_decimal(v.as_str(), usize::MAX as u64) {
                Some(n) => n as usize,
                None => return Err(ConfigError::new(Error::InvalidConfigVariable, "CREATE_ID_RETRY_LIMIT")),
            },
            None => return Err(ConfigError::new(Error::MissingConfigVariable, "CREATE_ID_RETRY_LIMIT")),
        };
        let jwt_secret_key = match environment_variable(vars, "JWT_SECRET_KEY") {
            Some(v) => v.clone(),
            None => return Err(ConfigError::new(Error::MissingConfigVariable, "JWT_SECRET_KEY")),
        };
        let string_encryption_processing_cost = match environment_variable(vars, "STRING_ENCRYPTION_PROCESSING_COST") {
            Some(v) => match parse_decimal(v.as_str(), u32::MAX as u64) {
                Some(n) => n as u32,
                None => return Err(ConfigError::new(Error::InvalidConfigVariable, "STRING_ENCRYPTION_PROCESSING_COST")),
            },
            None => return Err(ConfigError::new(Error::MissingConfigVariable, "STRING_ENCRYPTION_PROCESSING_COST")),
        };
        let email_address = match environment_variable(vars, "EMAIL_ADDRESS") {
            Some(v) => v.clone(),
            None => return Err(ConfigError::new(Error::MissingConfigVariable, "EMAIL_ADDRESS")),
        };
        let email_password = match environment_variable(vars, "EMAIL_PASSWORD") {
            Some(v) => v.clone(),
            None => return Err(ConfigError::new(Error::MissingConfigVariable, "EMAIL_PASSWORD")),
        };
        let smtp_relay = match environment_variable(vars, "SMTP_RELAY") {
            Some(v) => v.clone(),
            None => return Err(ConfigError::new(Error::MissingConfigVariable, "SMTP_RELAY")),
        };
        let account_creation_confirmation_email_subject = match environment_variable(vars, "ACCOUNT_CREATION_CONFIRMATION_EMAIL_SUBJECT") {
            Some(v) => v.clone(),
            None => return Err(ConfigError::new(Error::MissingConfigVariable, "ACCOUNT_CREATION_CONFIRMATION_EMAIL_SUBJECT")),
        };
        let account_creation_confirmation_email_title_message = match environment_variable(vars, "ACCOUNT_CREATION_CONFIRMATION_EMAIL_TITLE_MESSAGE") {
            Some(v) => v.clone(),
            None => return Err(ConfigError::new(Error::MissingConfigVariable, "ACCOUNT_CREATION_CONFIRMATION_EMAIL_TITLE_MESSAGE")),
        };
        let account_change_username_confirmation_email_subject = match environment_variable(vars, "ACCOUNT_CHANGE_USERNAME_CONFIRMATION_EMAIL_SUBJECT") {
            Some(v) => v.clone(),
            None => return Err(ConfigError::new(Error::MissingConfigVariable, "ACCOUNT_CHANGE_USERNAME_CONFIRMATION_EMAIL_SUBJECT")),
        };
        let account_change_username_confirmation_email_title_message = match environment_variable(vars, "ACCOUNT_CHANGE_USERNAME_CONFIRMATION_EMAIL_TITLE_MESSAGE") {
            Some(v) => v.clone(),
            None => return Err(ConfigError::new(Error::MissingConfigVariable, "ACCOUNT_CHANGE_USERNAME_CONFIRMATION_EMAIL_TITLE_MESSAGE")),
        };
        let account_change_email_one_confirmation_email_subject = match environment_variable(vars, "ACCOUNT_CHANGE_EMAIL_ONE_CONFIRMATION_EMAIL_SUBJECT") {
            Some(v) => v.clone(),
            None => return Err(ConfigError::new(Error::MissingConfigVariable, "ACCOUNT_CHANGE_EMAIL_ONE_CONFIRMATION_EMAIL_SUBJECT")),
        };
        let account_change_email_one_confirmation_email_title_message = match environment_variable(vars, "ACCOUNT_CHANGE_EMAIL_ONE_CONFIRMATION_EMAIL_TITLE_MESSAGE") {
            Some(v) => v.clone(),
            None => return Err(ConfigError::new(Error::MissingConfigVariable, "ACCOUNT_CHANGE_EMAIL_ONE_CONFIRMATION_EMAIL_TITLE_MESSAGE")),
        };
        let account_change_email_two_confirmation_email_subject = match environment_variable(vars, "ACCOUNT_CHANGE_EMAIL_TWO_CONFIRMATION_EMAIL_SUBJECT") {
            Some(v) => v.clone(),
            None => return Err(ConfigError::new(Error::MissingConfigVariable, "ACCOUNT_CHANGE_EMAIL_TWO_CONFIRMATION_EMAIL_SUBJECT")),
        };
        let account_change_email_two_confirmation_email_title_message = match environment_variable(vars, "ACCOUNT_CHANGE_EMAIL_TWO_CONFIRMATION_EMAIL_TITLE_MESSAGE") {
            Some(v) => v.clone(),
            None => return Err(ConfigError::new(Error::MissingConfigVariable, "ACCOUNT_CHANGE_EMAIL_TWO_CONFIRMATION_EMAIL_TITLE_MESSAGE")),
        };
        let account_change_password_confirmation_email_subject = match environment_variable(vars, "ACCOUNT_CHANGE_PASSWORD_CONFIRMATION_EMAIL_SUBJECT") {
            Some(v) => v.clone(),
            None => return Err(ConfigError::new(Error::MissingConfigVariable, "ACCOUNT_CHANGE_PASSWORD_CONFIRMATION_EMAIL_SUBJECT")),
        };
        let account_change_password_confirmation_email_title_message = match environment_variable(vars, "ACCOUNT_CHANGE_PASSWORD_CONFIRMATION_EMAIL_TITLE_MESSAGE") {
            Some(v) => v.clone(),
            None => return Err(ConfigError::new(Error::MissingConfigVariable, "ACCOUNT_CHANGE_PASSWORD_CONFIRMATION_EMAIL_TITLE_MESSAGE")),
        };
        let account_email_authentication_confirmation_email_subject = match environment_variable(vars, "ACCOUNT_EMAIL_AUTHENTICATION_CONFIRMATION_EMAIL_SUBJECT") {
            Some(v) => v.clone(),
            None => return Err(ConfigError::new(Error::MissingConfigVariable, "ACCOUNT_EMAIL_AUTHENTICATION_CONFIRMATION_EMAIL_SUBJECT")),
        };
        let account_email_authentication_confirmation_email_title_message = match environment_variable(vars, "ACCOUNT_EMAIL_AUTHENTICATION_CONFIRMATION_EMAIL_TITLE_MESSAGE") {
            Some(v) => v.clone(),
            None => return Err(ConfigError::new(Error::MissingConfigVariable, "ACCOUNT_EMAIL_AUTHENTICATION_CONFIRMATION_EMAIL_TITLE_MESSAGE")),
        };
        let account_deletion_confirmation_email_subject = match environment_variable(vars, "ACCOUNT_DELETION_CONFIRMATION_EMAIL_SUBJECT") {
            Some(v) => v.clone(),
            None => return Err(ConfigError::new(Error::MissingConfigVariable, "ACCOUNT_DELETION_CONFIRMATION_EMAIL_SUBJECT")),
        };
        let account_deletion_confirmation_email_title_message = match environment_variable(vars, "ACCOUNT_DELETION_CONFIRMATION_EMAIL_TITLE_MESSAGE") {
            Some(v) => v.clone(),
            None => return Err(ConfigError::new(Error::MissingConfigVariable, "ACCOUNT_DELETION_CONFIRMATION_EMAIL_TITLE_MESSAGE")),
        };
        let email_name_placeholder = match environment_variable(vars, "EMAIL_NAME_PLACEHOLDER") {
            Some(v) => v.clone(),
            None => return Err(ConfigError::new(Error::MissingConfigVariable, "EMAIL_NAME_PLACEHOLDER")),
        };
        let confirmation_email_title_message_placeholder = match environment_variable(vars, "CONFIRMATION_EMAIL_TITLE_MESSAGE_PLACEHOLDER") {
            Some(v) => v.clone(),
            None => return Err(ConfigError::new(Error::MissingConfigVariable, "CONFIRMATION_EMAIL_TITLE_MESSAGE_PLACEHOLDER")),
        };
        let confirmation_email_confirmation_code_placeholder = match environment_variable(vars, "CONFIRMATION_EMAIL_CONFIRMATION_CODE_PLACEHOLDER") {
            Some(v) => v.clone(),
            None => return Err(ConfigError::new(Error::MissingConfigVariable, "CONFIRMATION_EMAIL_CONFIRMATION_CODE_PLACEHOLDER")),
        };
        let confirmation_email_body = match environment_variable(vars, "CONFIRMATION_EMAIL_BODY") {
            Some(v) => v.clone(),
            None => return Err(ConfigError::new(Error::MissingConfigVariable, "CONFIRMATION_EMAIL_BODY")),
        };
        let process_id_length = match environment_variable(vars, "PROCESS_ID_LENGTH") {
            Some(v) => match parse_decimal(v.as_str(), usize::MAX as u64) {
                Some(n) => n as usize,
                None => return Err(ConfigError::new(Error::InvalidConfigVariable, "PROCESS_ID_LENGTH")),
            },
            None => return Err(ConfigError::new(Error::MissingConfigVariable, "PROCESS_ID_LENGTH")),
        };
        let name = match environment_variable(vars, "NAME") {
            Some(v) => v.clone(),
            None => return Err(ConfigError::new(Error::MissingConfigVariable, "NAME")),
        };
        Ok(AppConfig {
            account_confirmation_lifespan,
            check_timeout,
            account_ids_length,
            account_info_change_ids_length,
            create_id_retry_limit,
            jwt_secret_key,
            string_encryption_processing_cost,
            email_address,
            email_password,
            smtp_relay,
            account_creation_confirmation_email_subject,
            account_creation_confirmation_email_title_message,
            account_change_username_confirmation_email_subject,
            account_change_username_confirmation_email_title_message,
            account_change_email_one_confirmation_email_subject,
            account_change_email_one_confirmation_email_title_message,
            account_change_email_two_confirmation_email_subject,
            account_change_email_two_confirmation_email_title_message,
            account_change_password_confirmation_email_subject,
            account_change_password_confirmation_email_title_message,
            account_email_authentication_confirmation_email_subject,
            account_email_authentication_confirmation_email_title_message,
            account_deletion_confirmation_email_subject,
            account_deletion_confirmation_email_title_message,
            email_name_placeholder,
            confirmation_email_title_message_placeholder,
            confirmation_email_confirmation_code_placeholder,
            confirmation_email_body,
            process_id_length,
            name,
        })
    }
}

} // verus!
