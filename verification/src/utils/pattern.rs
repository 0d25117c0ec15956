//! The shape of an e-mail address.

use vstd::prelude::*;

verus! {

/// What matching a text against a regular expression gives: `None` where
/// the expression does not compile, else whether some part of the text
/// matches it.
pub uninterp spec fn regex_matching(pattern: Seq<char>, text: Seq<char>) -> Option<bool>;

/// `regex::Regex::new`, then `Regex::is_match`. Trusted: the answer depends
/// on the expression and the text alone; `None` stands for an expression
/// that the crate refuses.
#[verifier::external_body]
fn regex_is_match(pattern: &str, text: &str) -> (verdict: Option<bool>)
    ensures
        verdict == regex_matching(pattern@, text@),
{
    regex::Regex::new(pattern).ok().map(|re| re.is_match(text))
}

/// The expression an e-mail address has to match from its first character
/// to its last: a local part, `@`, a domain, a dot and a top-level name of
/// two letters or more.
pub open spec fn email_pattern() -> Seq<char> {
    "^[a-zA-Z0-9._%+-]+@[a-zA-Z0-9.-]+\\.[a-zA-Z]{2,}$"@
}

/// What `is_valid_email` answers for each outcome of the matching.
pub open spec fn email_verdict(outcome: Option<bool>) -> Result<bool, Seq<char>> {
    match outcome {
        Some(matches) => Ok(matches),
        None => Err("Failed to initialize the email regex expression"@),
    }
}

/// Whether a text has the shape of an e-mail address.
pub fn is_valid_email(email: &str) -> (r: Result<bool, String>)
    ensures
        match r {
            Ok(valid) => regex_matching(email_pattern(), email@) == Some(valid),
            Err(reason) => regex_matching(email_pattern(), email@) is None && reason@
                == "Failed to initialize the email regex expression"@,
        },
{
    match regex_is_match("^[a-zA-Z0-9._%+-]+@[a-zA-Z0-9.-]+\\.[a-zA-Z]{2,}$", email) {
        Some(matches) => Ok(matches),
        None => Err("Failed to initialize the email regex expression".to_owned()),
    }
}

} // verus!
