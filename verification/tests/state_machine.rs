use pokemon_arena::keys::{KeyCode, KeyEvent, KeyEventKind, KeyModifiers};
use pokemon_arena::session::{App, AppState, AuthState, Effect, SessionEvent};
use pokemon_arena::state_machine::MenuStateMachine;
use pokemon_arena::ui_tooling::text_input::InputMode;
use pokemon_arena::user_management::email_auth::verify_email;
use pokemon_arena::menus::auth_menu::{prompt_text, strikes_text};

fn press(app: &mut App, code: KeyCode) -> Effect {
    MenuStateMachine::next(app, &SessionEvent::Key(KeyEvent::plain(code)))
}

fn type_text(app: &mut App, text: &str) {
    for c in text.chars() {
        assert_eq!(press(app, KeyCode::Char(c)), Effect::Nothing);
    }
}

/// A session that has given the address and been mailed `code`.
fn awaiting_code(address: &str, code: &str) -> App {
    let mut app = App::new(1);
    assert_eq!(press(&mut app, KeyCode::Tab), Effect::Nothing);
    type_text(&mut app, address);
    let effect = press(&mut app, KeyCode::Enter);
    assert_eq!(effect, Effect::RequestVerificationEmail { address: address.to_string() });
    let done = SessionEvent::EmailDispatched { code: code.to_string(), delivered: true };
    assert_eq!(MenuStateMachine::next(&mut app, &done), Effect::Nothing);
    app
}

/// Types `attempt` as the code and submits it, carrying the comparison out.
fn submit_code(app: &mut App, attempt: &str) {
    assert_eq!(press(app, KeyCode::Tab), Effect::Nothing);
    type_text(app, attempt);
    let effect = press(app, KeyCode::Enter);
    match effect {
        Effect::VerifyCode { expected, submitted } => {
            assert_eq!(submitted, attempt);
            let matched = verify_email(&expected, &app.user_email, &submitted);
            let checked = SessionEvent::CodeChecked { matched };
            assert_eq!(MenuStateMachine::next(app, &checked), Effect::Nothing);
        }
        other => panic!("expected a comparison, got {:?}", other),
    }
}

#[test]
fn a_new_session_asks_for_an_address() {
    let app = App::new(7);
    assert_eq!(app.client_id, 7);
    assert_eq!(app.state, AppState::Auth);
    assert_eq!(app.auth_state, AuthState::InputEmail);
    assert_eq!(app.selected, 0);
    assert_eq!(app.strikes, 0);
    assert_eq!(app.email_input.input, "");
    assert_eq!(app.email_input.mode, InputMode::Normal);
    assert_eq!((app.columns, app.rows), (120, 30));
}

#[test]
fn q_on_the_main_menu_quits() {
    let mut app = App::new(1);
    assert_eq!(press(&mut app, KeyCode::Esc), Effect::Nothing);
    assert_eq!(app.state, AppState::MainMenu);
    assert_eq!(press(&mut app, KeyCode::Char('q')), Effect::Quit);
    assert_eq!(app.state, AppState::MainMenu);
}

#[test]
fn q_elsewhere_does_not_quit() {
    let mut app = App::new(1);
    assert_eq!(press(&mut app, KeyCode::Char('q')), Effect::Nothing);
    assert_eq!(app.email_input.input, "");
    assert_eq!(press(&mut app, KeyCode::Tab), Effect::Nothing);
    assert_eq!(press(&mut app, KeyCode::Char('q')), Effect::Nothing);
    assert_eq!(app.email_input.input, "q");
}

#[test]
fn control_q_quits_everywhere() {
    let mut app = App::new(1);
    assert_eq!(press(&mut app, KeyCode::Tab), Effect::Nothing);
    let key = KeyEvent::new(KeyCode::Char('q'), KeyModifiers::control());
    assert_eq!(MenuStateMachine::next(&mut app, &SessionEvent::Key(key)), Effect::Quit);
    assert_eq!(app.email_input.input, "");
}

#[test]
fn sending_the_address_moves_on_to_the_code() {
    let mut app = App::new(1);
    assert_eq!(press(&mut app, KeyCode::Tab), Effect::Nothing);
    type_text(&mut app, "a@b.com");
    assert_eq!(press(&mut app, KeyCode::Tab), Effect::Nothing);
    assert_eq!(app.selected, 0);
    let effect = press(&mut app, KeyCode::Enter);
    assert_eq!(effect, Effect::RequestVerificationEmail { address: "a@b.com".to_string() });
    assert_eq!(app.auth_state, AuthState::InputEmail);
    let done = SessionEvent::EmailDispatched { code: "Pikachu Mew".to_string(), delivered: true };
    assert_eq!(MenuStateMachine::next(&mut app, &done), Effect::Nothing);
    assert_eq!(app.auth_state, AuthState::VerifyEmail);
    assert_eq!(app.state, AppState::Auth);
    assert_eq!(app.selected, 0);
    assert_eq!(app.email_input.input, "");
    assert_eq!(app.email_input.cursor, 0);
    assert_eq!(app.user_email, "a@b.com");
    assert_eq!(app.verification_code, "Pikachu Mew");
}

#[test]
fn enter_while_editing_leaves_the_field_and_submits() {
    let mut app = App::new(1);
    assert_eq!(press(&mut app, KeyCode::Tab), Effect::Nothing);
    type_text(&mut app, "x@y.z");
    let effect = press(&mut app, KeyCode::Enter);
    assert_eq!(effect, Effect::RequestVerificationEmail { address: "x@y.z".to_string() });
    assert_eq!(app.email_input.mode, InputMode::Normal);
}

#[test]
fn enter_while_editing_off_the_submit_entry_only_leaves_the_field() {
    let mut app = App::new(1);
    assert_eq!(press(&mut app, KeyCode::Down), Effect::Nothing);
    assert_eq!(app.selected, 1);
    assert_eq!(press(&mut app, KeyCode::Tab), Effect::Nothing);
    type_text(&mut app, "x");
    assert_eq!(press(&mut app, KeyCode::Enter), Effect::Nothing);
    assert_eq!(app.email_input.mode, InputMode::Normal);
    assert_eq!(app.email_input.input, "x");
    assert_eq!(app.auth_state, AuthState::InputEmail);
}

#[test]
fn a_failed_delivery_is_treated_like_a_delivery() {
    let mut delivered = App::new(1);
    let mut failed = App::new(1);
    for app in [&mut delivered, &mut failed] {
        press(app, KeyCode::Tab);
        type_text(app, "a@b.com");
        press(app, KeyCode::Enter);
    }
    let ok = SessionEvent::EmailDispatched { code: "k".to_string(), delivered: true };
    let err = SessionEvent::EmailDispatched { code: "k".to_string(), delivered: false };
    assert_eq!(MenuStateMachine::next(&mut delivered, &ok), Effect::Nothing);
    assert_eq!(MenuStateMachine::next(&mut failed, &err), Effect::Nothing);
    assert_eq!(delivered.auth_state, failed.auth_state);
    assert_eq!(failed.auth_state, AuthState::VerifyEmail);
    assert_eq!(delivered.verification_code, failed.verification_code);
}

#[test]
fn exit_on_the_address_screen_quits() {
    let mut app = App::new(1);
    assert_eq!(press(&mut app, KeyCode::Down), Effect::Nothing);
    assert_eq!(press(&mut app, KeyCode::Enter), Effect::Quit);
}

#[test]
fn the_right_code_signs_in() {
    let mut app = awaiting_code("a@b.com", "Abra Onix");
    app.strikes = 1;
    submit_code(&mut app, "Abra Onix");
    assert_eq!(app.state, AppState::MainMenu);
    assert_eq!(app.auth_state, AuthState::LoggedIn);
    assert_eq!(app.strikes, 0);
    assert_eq!(app.selected, 0);
    assert_eq!(app.email_input.input, "");
}

#[test]
fn strikes_count_up_and_the_third_starts_over() {
    let mut app = awaiting_code("a@b.com", "Abra Onix");
    submit_code(&mut app, "wrong");
    assert_eq!(app.strikes, 1);
    assert_eq!(app.auth_state, AuthState::VerifyEmail);
    assert_eq!(app.email_input.input, "");
    submit_code(&mut app, "wrong again");
    assert_eq!(app.strikes, 2);
    assert_eq!(app.auth_state, AuthState::VerifyEmail);
    submit_code(&mut app, "still wrong");
    assert_eq!(app.strikes, 0);
    assert_eq!(app.auth_state, AuthState::InputEmail);
    assert_eq!(app.state, AppState::Auth);
    assert_eq!(app.selected, 0);
}

#[test]
fn mismatch_at_two_strikes_goes_back_to_the_address() {
    let mut app = awaiting_code("a@b.com", "Abra Onix");
    app.strikes = 2;
    submit_code(&mut app, "Abra Onyx");
    assert_eq!(app.auth_state, AuthState::InputEmail);
    assert_eq!(app.strikes, 0);
}

#[test]
fn resend_asks_for_a_new_mail_to_the_same_address() {
    let mut app = awaiting_code("a@b.com", "first");
    assert_eq!(press(&mut app, KeyCode::Down), Effect::Nothing);
    assert_eq!(app.selected, 1);
    type_text(&mut app, "ignored");
    let effect = press(&mut app, KeyCode::Enter);
    assert_eq!(effect, Effect::RequestVerificationEmail { address: "a@b.com".to_string() });
    let done = SessionEvent::EmailDispatched { code: "second".to_string(), delivered: true };
    assert_eq!(MenuStateMachine::next(&mut app, &done), Effect::Nothing);
    assert_eq!(app.verification_code, "second");
    assert_eq!(app.user_email, "a@b.com");
    assert_eq!(app.auth_state, AuthState::VerifyEmail);
    assert_eq!(app.selected, 1);
    assert_eq!(app.email_input.input, "");
}

#[test]
fn change_email_goes_back_and_clears_the_strikes() {
    let mut app = awaiting_code("a@b.com", "code");
    submit_code(&mut app, "nope");
    assert_eq!(app.strikes, 1);
    press(&mut app, KeyCode::Down);
    press(&mut app, KeyCode::Down);
    assert_eq!(app.selected, 2);
    assert_eq!(press(&mut app, KeyCode::Enter), Effect::Nothing);
    assert_eq!(app.auth_state, AuthState::InputEmail);
    assert_eq!(app.selected, 0);
    assert_eq!(app.strikes, 0);
}

#[test]
fn exit_on_the_code_screen_leads_to_the_main_menu() {
    let mut app = awaiting_code("a@b.com", "code");
    press(&mut app, KeyCode::Down);
    press(&mut app, KeyCode::Down);
    press(&mut app, KeyCode::Down);
    assert_eq!(app.selected, 3);
    assert_eq!(press(&mut app, KeyCode::Enter), Effect::Nothing);
    assert_eq!(app.state, AppState::MainMenu);
    assert_eq!(app.selected, 0);
}

#[test]
fn main_menu_entries() {
    let mut app = App::new(1);
    press(&mut app, KeyCode::Esc);
    press(&mut app, KeyCode::Down);
    assert_eq!(press(&mut app, KeyCode::Enter), Effect::Nothing);
    assert_eq!(app.state, AppState::Settings);
    assert_eq!(app.selected, 0);
    assert_eq!(press(&mut app, KeyCode::Esc), Effect::Nothing);
    assert_eq!(app.state, AppState::MainMenu);
    press(&mut app, KeyCode::Down);
    press(&mut app, KeyCode::Down);
    assert_eq!(press(&mut app, KeyCode::Enter), Effect::Nothing);
    assert_eq!(app.state, AppState::Pokedex);
    for _ in 0..3 {
        press(&mut app, KeyCode::Down);
    }
    assert_eq!(app.selected, 3);
    assert_eq!(press(&mut app, KeyCode::Enter), Effect::Nothing);
    assert_eq!(app.state, AppState::MainMenu);
    assert_eq!(app.selected, 0);
    assert_eq!(press(&mut app, KeyCode::Enter), Effect::Nothing);
    assert_eq!(app.state, AppState::Auth);
    assert_eq!(app.email_input.mode, InputMode::Editing);
    assert_eq!(press(&mut app, KeyCode::Esc), Effect::Nothing);
    assert_eq!(app.email_input.mode, InputMode::Normal);
    assert_eq!(app.state, AppState::Auth);
    assert_eq!(press(&mut app, KeyCode::Esc), Effect::Nothing);
    assert_eq!(app.state, AppState::MainMenu);
    for _ in 0..3 {
        press(&mut app, KeyCode::Down);
    }
    assert_eq!(press(&mut app, KeyCode::Enter), Effect::Quit);
}

#[test]
fn escape_on_the_main_menu_quits() {
    let mut app = App::new(1);
    press(&mut app, KeyCode::Esc);
    assert_eq!(press(&mut app, KeyCode::Esc), Effect::Quit);
}

#[test]
fn arrows_keep_the_selection_in_the_menu() {
    let mut app = App::new(1);
    for _ in 0..10 {
        assert_eq!(press(&mut app, KeyCode::Down), Effect::Nothing);
        assert!(app.selected < 2);
    }
    assert_eq!(app.selected, 1);
    for _ in 0..10 {
        assert_eq!(press(&mut app, KeyCode::Up), Effect::Nothing);
    }
    assert_eq!(app.selected, 0);
    let mut app = awaiting_code("a@b.com", "code");
    for _ in 0..10 {
        press(&mut app, KeyCode::Down);
        assert!(app.selected < 4);
    }
    assert_eq!(app.selected, 3);
}

#[test]
fn arrows_do_nothing_while_editing() {
    let mut app = App::new(1);
    press(&mut app, KeyCode::Tab);
    press(&mut app, KeyCode::Down);
    assert_eq!(app.selected, 0);
    press(&mut app, KeyCode::Tab);
    press(&mut app, KeyCode::Down);
    assert_eq!(app.selected, 1);
}

#[test]
fn a_selection_out_of_range_is_brought_back() {
    let mut app = App::new(1);
    app.selected = 40;
    assert_eq!(MenuStateMachine::next(&mut app, &SessionEvent::Tick), Effect::Nothing);
    assert_eq!(app.selected, 1);
}

#[test]
fn resize_sets_the_viewport() {
    let mut app = App::new(1);
    let event = SessionEvent::Resize { columns: 80, rows: 24 };
    assert_eq!(MenuStateMachine::next(&mut app, &event), Effect::Nothing);
    assert_eq!((app.columns, app.rows), (80, 24));
    assert_eq!(app.auth_state, AuthState::InputEmail);
}

#[test]
fn releases_are_not_presses() {
    let mut app = App::new(1);
    let release = KeyEvent {
        code: KeyCode::Down,
        modifiers: KeyModifiers::empty(),
        kind: KeyEventKind::Release,
    };
    assert_eq!(MenuStateMachine::next(&mut app, &SessionEvent::Key(release)), Effect::Nothing);
    assert_eq!(app.selected, 0);
}

#[test]
fn outcomes_nobody_asked_for_change_nothing() {
    let mut app = App::new(1);
    press(&mut app, KeyCode::Esc);
    let done = SessionEvent::EmailDispatched { code: "x".to_string(), delivered: true };
    assert_eq!(MenuStateMachine::next(&mut app, &done), Effect::Nothing);
    assert_eq!(app.state, AppState::MainMenu);
    assert_eq!(app.verification_code, "");
    let checked = SessionEvent::CodeChecked { matched: true };
    assert_eq!(MenuStateMachine::next(&mut app, &checked), Effect::Nothing);
    assert_eq!(app.auth_state, AuthState::InputEmail);
}

fn snapshot(app: &App) -> (usize, AppState, AuthState, String, String, String, i32) {
    (
        app.selected,
        app.state,
        app.auth_state,
        app.email_input.input.clone(),
        app.user_email.clone(),
        app.verification_code.clone(),
        app.strikes,
    )
}

fn script(client: usize) -> Vec<SessionEvent> {
    let mut events = vec![SessionEvent::Key(KeyEvent::plain(KeyCode::Tab))];
    for c in format!("user{}@example.org", client).chars() {
        events.push(SessionEvent::Key(KeyEvent::plain(KeyCode::Char(c))));
    }
    events.push(SessionEvent::Key(KeyEvent::plain(KeyCode::Enter)));
    events.push(SessionEvent::EmailDispatched { code: format!("code {}", client), delivered: true });
    for _ in 0..client {
        events.push(SessionEvent::Key(KeyEvent::plain(KeyCode::Down)));
    }
    if client % 2 == 0 {
        events.push(SessionEvent::CodeChecked { matched: false });
    }
    events
}

#[test]
fn interleaved_sessions_end_as_if_each_ran_alone() {
    let clients = 5;
    let mut together: Vec<App> = (0..clients).map(App::new).collect();
    let scripts: Vec<Vec<SessionEvent>> = (0..clients).map(script).collect();
    let longest = scripts.iter().map(|s| s.len()).max().unwrap();
    for step in 0..longest {
        for client in 0..clients {
            if let Some(event) = scripts[client].get(step) {
                MenuStateMachine::next(&mut together[client], event);
            }
        }
    }
    for client in 0..clients {
        let mut alone = App::new(client);
        for event in &scripts[client] {
            MenuStateMachine::next(&mut alone, event);
        }
        assert_eq!(snapshot(&alone), snapshot(&together[client]));
        assert_eq!(together[client].user_email, format!("user{}@example.org", client));
    }
}

#[test]
fn a_session_may_let_the_selection_go_around() {
    let mut app = App::with_navigation(1, true);
    assert!(app.wrap_around);
    assert_eq!(press(&mut app, KeyCode::Up), Effect::Nothing);
    assert_eq!(app.selected, 1);
    assert_eq!(press(&mut app, KeyCode::Down), Effect::Nothing);
    assert_eq!(app.selected, 0);
    press(&mut app, KeyCode::Esc);
    assert_eq!(app.state, AppState::MainMenu);
    for expected in [1, 2, 3, 0, 1] {
        press(&mut app, KeyCode::Down);
        assert_eq!(app.selected, expected);
    }
    for expected in [0, 3, 2] {
        press(&mut app, KeyCode::Up);
        assert_eq!(app.selected, expected);
    }
    app.selected = usize::MAX;
    press(&mut app, KeyCode::Down);
    assert_eq!(app.selected, 0);
    assert!(!App::new(1).wrap_around);
}

#[test]
fn the_sign_in_screens_have_their_words() {
    assert_eq!(strikes_text(0), "Strikes: 0");
    assert_eq!(strikes_text(2), "Strikes: 2");
    assert_eq!(strikes_text(-1), "Strikes: -1");
    assert_eq!(prompt_text(AuthState::InputEmail), "Enter your email:");
    assert_eq!(prompt_text(AuthState::VerifyEmail), "Verification Code:");
    assert_eq!(prompt_text(AuthState::LoggedIn), "");
}
