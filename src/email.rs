//! The texts of confirmation emails. Delivery is the caller's concern.
use crate::config::AppConfig;
use vstd::prelude::*;

verus! {

/// `s` with every match of `from` replaced by `to`: matches are taken from
/// left to right without overlapping; an empty pattern matches before each
/// character and at the end.
pub open spec fn replaced(s: Seq<char>, from: Seq<char>, to: Seq<char>) -> Seq<char>
    decreases s.len(),
{
    if from.len() == 0 {
        if s.len() == 0 {
            to
        } else {
            to + seq![s[0]] + replaced(s.drop_first(), from, to)
        }
    } else if s.len() < from.len() {
        s
    } else if s.subrange(0, from.len() as int) == from {
        to + replaced(s.subrange(from.len() as int, s.len() as int), from, to)
    } else {
        seq![s[0]] + replaced(s.drop_first(), from, to)
    }
}

/// Relies on `str::replace`, which replaces the leftmost non-overlapping
/// matches of the pattern, as `replaced` states.
#[verifier::external_body]
fn replace_all(s: &str, from: &str, to: &str) -> (r: String)
    ensures
        r@ == replaced(s@, from@, to@),
{
    s.replace(from, to)
}

/// `text` wrapped in the placeholder `marker` on both sides, as it stands in
/// an email template.
pub fn string_to_email_placeholder(marker: &str, text: &str) -> (r: String)
    ensures
        r@ == marker@ + text@ + marker@,
{
    String::from_str(marker).concat(text).concat(marker)
}

/// The body of a confirmation email: the configured template with its title,
/// sender-name and code placeholders filled in, in that order.
pub fn confirmation_email_body(config: &AppConfig, title_message: &str, confirmation_code: &str) -> (r: String)
    ensures
        r@ == replaced(
            replaced(
                replaced(config.confirmation_email_body@, config.confirmation_email_title_message_placeholder@, title_message@),
                config.email_name_placeholder@,
                config.name@,
            ),
            config.confirmation_email_confirmation_code_placeholder@,
            confirmation_code@,
        ),
{
    let with_title = replace_all(
        config.confirmation_email_body.as_str(),
        config.confirmation_email_title_message_placeholder.as_str(),
        title_message,
    );
    let with_name = replace_all(with_title.as_str(), config.email_name_placeholder.as_str(), config.name.as_str());
    replace_all(with_name.as_str(), config.confirmation_email_confirmation_code_placeholder.as_str(), confirmation_code)
}

} // verus!
