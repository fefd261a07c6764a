//! The verification mail and the check of the code it carries.
//!
//! Sending is not done here: the mail service is handed the subject and
//! the text that this module makes.

use vstd::prelude::*;
use vstd::string::*;

verus! {

/// The subject line of a verification mail.
pub open spec fn subject_text() -> Seq<char> {
    "Pokemon Arena Verification"@
}

/// The text of a verification mail that carries `key`.
pub open spec fn body_text(key: Seq<char>) -> Seq<char> {
    "Your code is: "@ + key
}

/// The subject line of a verification mail.
pub fn email_subject() -> (subject: String)
    ensures
        subject@ == subject_text(),
{
    String::from_str("Pokemon Arena Verification")
}

/// The text of a verification mail that carries `key`.
pub fn email_body(key: &str) -> (body: String)
    ensures
        body@ == body_text(key@),
{
    let mut body = String::from_str("Your code is: ");
    body.append(key);
    body
}

/// Whether `input`, the code a user typed, is `key`, the code that was
/// mailed to `email`. Only the two codes count.
pub fn verify_email(key: &str, email: &str, input: &str) -> (matched: bool)
    ensures
        matched == (key@ == input@),
{
    let issued = String::from_str(key);
    let submitted = String::from_str(input);
    issued == submitted
}

} // verus!
