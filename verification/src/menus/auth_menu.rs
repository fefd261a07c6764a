//! The sign-in flow: asking for an address, mailing a code, checking it.
//!
//! Nothing here sends mail or waits. [`input`] and [`resend_email`] say what
//! the supervisor is to do; [`email_dispatched`] and [`code_checked`] take
//! the outcome and move the session on.

use crate::decimal::{decimal_text, push_decimal};
use crate::pokemon::pokemon_indexer::{get_pokemon_by_number, name_by_number, random_below};
use crate::session::{App, AppState, AuthState, Effect, MAX_STRIKES};
use vstd::prelude::*;
use vstd::string::*;

verus! {

/// The highest number that a verification code draws a name for.
pub const HIGHEST_NUMBER: i32 = 151;

/// The text of a table as the specifications see it.
pub open spec fn text_of(json: Option<&str>) -> Option<Seq<char>> {
    match json {
        Some(text) => Some(text@),
        None => None,
    }
}

/// The verification code made of the names under `first` and `second`: the
/// two names with one blank between them.
pub open spec fn key_text(json: Option<Seq<char>>, first: i32, second: i32) -> Seq<char> {
    name_by_number(json, first) + " "@ + name_by_number(json, second)
}

/// Makes the verification code of the names under `first` and `second` in
/// the table that `json` holds.
pub fn key_from(json: Option<&str>, first: i32, second: i32) -> (key: String)
    ensures
        key@ == key_text(text_of(json), first, second),
        key@.len() > 0,
{
    proof {
        reveal_strlit(" ");
    }
    let mut key = get_pokemon_by_number(json, first);
    let second_name = get_pokemon_by_number(json, second);
    key.append(" ");
    key.append(second_name.as_str());
    key
}

/// Makes a fresh verification code: two names drawn by chance, each under
/// a number from 0 to [`HIGHEST_NUMBER`].
pub fn generate_key(json: Option<&str>) -> (key: String)
    ensures
        key@.len() > 0,
        exists|first: i32, second: i32|
            0 <= first <= HIGHEST_NUMBER && 0 <= second <= HIGHEST_NUMBER && key@ == key_text(
                text_of(json),
                first,
                second,
            ),
{
    let first = random_below(HIGHEST_NUMBER as usize + 1) as i32;
    let second = random_below(HIGHEST_NUMBER as usize + 1) as i32;
    key_from(json, first, second)
}

/// The line that shows how many attempts have failed.
pub fn strikes_text(strikes: i32) -> (text: String)
    ensures
        text@ == "Strikes: "@ + decimal_text(strikes as int),
{
    let mut text = String::from_str("Strikes: ");
    push_decimal(&mut text, strikes);
    text
}

/// The words above the text field, by what the session asks for.
pub fn prompt_text(auth_state: AuthState) -> (prompt: &'static str)
    ensures
        prompt@ == match auth_state {
            AuthState::InputEmail => "Enter your email:"@,
            AuthState::VerifyEmail => "Verification Code:"@,
            AuthState::LoggedIn => ""@,
        },
{
    match auth_state {
        AuthState::InputEmail => "Enter your email:",
        AuthState::VerifyEmail => "Verification Code:",
        AuthState::LoggedIn => "",
    }
}

/// Hands the typed text in: the address to mail a code to, or the code to
/// compare, by the step the session is at.
pub fn input(app: &App) -> (effect: Effect)
    ensures
        effect@ == app@.submit_effect(),
{
    match app.auth_state {
        AuthState::InputEmail => Effect::RequestVerificationEmail {
            address: app.email_input.input.clone(),
        },
        AuthState::VerifyEmail => Effect::VerifyCode {
            expected: app.verification_code.clone(),
            submitted: app.email_input.input.clone(),
        },
        AuthState::LoggedIn => Effect::Nothing,
    }
}

/// Asks for another mail, with a new code, to the address already given.
pub fn resend_email(app: &App) -> (effect: Effect)
    ensures
        effect@ == app@.resend_effect(),
{
    Effect::RequestVerificationEmail { address: app.user_email.clone() }
}

/// Takes note that a requested mail, carrying `code`, has been dealt with.
/// After the first mail the session goes on to ask for the code; after a
/// resend it only expects the new code. Either way the text field is
/// emptied.
pub fn email_dispatched(app: &mut App, code: String)
    ensures
        final(app)@ == old(app)@.on_email_dispatched(code@),
{
    match app.state {
        AppState::Auth => match app.auth_state {
            AuthState::InputEmail => {
                app.user_email = app.email_input.input.clone();
                app.verification_code = code;
                app.auth_state = AuthState::VerifyEmail;
                app.selected = 0;
                app.email_input.clear();
            },
            AuthState::VerifyEmail => {
                app.verification_code = code;
                app.email_input.clear();
            },
            AuthState::LoggedIn => {},
        },
        _ => {},
    }
}

/// Takes the outcome of comparing the typed code with the one sent. A match
/// signs the user in. A mismatch is a strike; the strike that reaches the
/// limit sends the user back to give an address, with the count at zero
/// again.
pub fn code_checked(app: &mut App, matched: bool)
    ensures
        final(app)@ == old(app)@.on_code_checked(matched),
{
    match (app.state, app.auth_state) {
        (AppState::Auth, AuthState::VerifyEmail) => {
            if matched {
                app.state = AppState::MainMenu;
                app.auth_state = AuthState::LoggedIn;
                app.strikes = 0;
            } else if 0 <= app.strikes && app.strikes < MAX_STRIKES - 1 {
                app.strikes += 1;
            } else {
                app.auth_state = AuthState::InputEmail;
                app.strikes = 0;
            }
            app.selected = 0;
            app.email_input.clear();
        },
        _ => {},
    }
}

} // verus!
