//! The state of one client session, and the transition table that the menu
//! state machine follows.
//!
//! The table is written once, as spec functions on [`AppView`]; the
//! executable state machine is proved to follow it step for step.

use crate::keys::{KeyCode, KeyEvent, KeyEventKind};
use crate::ui_tooling::text_input::{InputMode, TextInputView, TextInputWidgetState};
use vstd::prelude::*;

verus! {

/// The screen a session shows.
#[derive(PartialEq, Eq, Clone, Copy, Debug, Structural)]
pub enum AppState {
    MainMenu,
    Settings,
    Pokedex,
    Auth,
}

/// Where a session stands in the sign-in flow. It matters only while the
/// session shows [`AppState::Auth`].
#[derive(PartialEq, Eq, Clone, Copy, Debug, Structural)]
pub enum AuthState {
    InputEmail,
    VerifyEmail,
    LoggedIn,
}

/// The failed attempts after which the sign-in flow starts over.
pub const MAX_STRIKES: i32 = 3;

/// The width and height a session starts with, until the client reports its
/// own.
pub const DEFAULT_COLUMNS: u16 = 120;

pub const DEFAULT_ROWS: u16 = 30;

/// Everything one session remembers. Each session owns its own value; no
/// two sessions share one.
#[derive(Clone, Debug)]
pub struct App {
    pub client_id: usize,
    pub selected: usize,
    pub state: AppState,
    pub auth_state: AuthState,
    pub email_input: TextInputWidgetState,
    pub user_email: String,
    pub verification_code: String,
    pub strikes: i32,
    pub columns: u16,
    pub rows: u16,
    /// Whether the selection, moved off one end of a menu, comes back in at
    /// the other end. Where it does not, it stays on the entry at the end.
    pub wrap_around: bool,
}

/// A session as a mathematical value.
pub struct AppView {
    pub client_id: nat,
    pub selected: nat,
    pub state: AppState,
    pub auth_state: AuthState,
    pub email_input: TextInputView,
    pub user_email: Seq<char>,
    pub verification_code: Seq<char>,
    pub strikes: int,
    pub columns: nat,
    pub rows: nat,
    pub wrap_around: bool,
}

/// What the state machine asks its supervisor to do. The state machine
/// itself never performs any of it.
#[derive(Clone, Debug, PartialEq, Eq)]
pub enum Effect {
    /// Nothing to do.
    Nothing,
    /// End the session.
    Quit,
    /// Make up a fresh verification code and send it to `address`.
    RequestVerificationEmail { address: String },
    /// Compare the code the user typed with the one that was sent.
    VerifyCode { expected: String, submitted: String },
}

pub enum EffectView {
    Nothing,
    Quit,
    RequestVerificationEmail { address: Seq<char> },
    VerifyCode { expected: Seq<char>, submitted: Seq<char> },
}

impl View for Effect {
    type V = EffectView;

    open spec fn view(&self) -> EffectView {
        match self {
            Effect::Nothing => EffectView::Nothing,
            Effect::Quit => EffectView::Quit,
            Effect::RequestVerificationEmail { address } => EffectView::RequestVerificationEmail {
                address: address@,
            },
            Effect::VerifyCode { expected, submitted } => EffectView::VerifyCode {
                expected: expected@,
                submitted: submitted@,
            },
        }
    }
}

/// What can happen to a session: input from the client, and the outcome of
/// an effect that the supervisor carried out.
#[derive(Clone, Debug, PartialEq, Eq)]
pub enum SessionEvent {
    Key(KeyEvent),
    /// The client's terminal now has this size.
    Resize { columns: u16, rows: u16 },
    /// A requested verification mail was handed to the mail service, which
    /// took it (`delivered`) or failed. `code` is the code it carried.
    EmailDispatched { code: String, delivered: bool },
    /// A requested comparison of codes is done.
    CodeChecked { matched: bool },
    /// Time passed and nothing else happened.
    Tick,
}

pub enum SessionEventView {
    Key(KeyEvent),
    Resize { columns: nat, rows: nat },
    EmailDispatched { code: Seq<char>, delivered: bool },
    CodeChecked { matched: bool },
    Tick,
}

impl View for SessionEvent {
    type V = SessionEventView;

    open spec fn view(&self) -> SessionEventView {
        match self {
            SessionEvent::Key(key) => SessionEventView::Key(*key),
            SessionEvent::Resize { columns, rows } => SessionEventView::Resize {
                columns: *columns as nat,
                rows: *rows as nat,
            },
            SessionEvent::EmailDispatched { code, delivered } => SessionEventView::EmailDispatched {
                code: code@,
                delivered: *delivered,
            },
            SessionEvent::CodeChecked { matched } => SessionEventView::CodeChecked {
                matched: *matched,
            },
            SessionEvent::Tick => SessionEventView::Tick,
        }
    }
}

/// The number of entries of the menu that `(state, auth_state)` shows.
pub open spec fn menu_size(state: AppState, auth_state: AuthState) -> nat {
    match state {
        AppState::Auth => match auth_state {
            AuthState::InputEmail => 2,
            AuthState::VerifyEmail => 4,
            AuthState::LoggedIn => 2,
        },
        _ => 4,
    }
}

/// `selected` moved one entry up; the first entry stays.
pub open spec fn selection_up(selected: nat) -> nat {
    if selected > 0 {
        (selected - 1) as nat
    } else {
        selected
    }
}

/// `selected` moved one entry down in a menu of `size` entries; the last
/// entry stays, and so does a selection behind it.
pub open spec fn selection_down(selected: nat, size: nat) -> nat {
    if selected + 1 < size {
        selected + 1
    } else {
        selected
    }
}

/// The selection one entry up in a menu of `count` entries; from the first
/// entry it goes to the last.
pub open spec fn wrapped_up(selected: nat, count: nat) -> nat {
    if selected == 0 {
        (count - 1) as nat
    } else {
        (selected - 1) as nat
    }
}

/// The selection one entry down in a menu of `count` entries; from the
/// last entry it goes to the first.
pub open spec fn wrapped_down(selected: nat, count: nat) -> nat {
    (selected + 1) % count
}

/// `selected` if the menu has such an entry, else the menu's last entry.
pub open spec fn selection_clamped(selected: nat, size: nat) -> nat {
    if selected >= size {
        if size > 0 {
            (size - 1) as nat
        } else {
            0
        }
    } else {
        selected
    }
}

impl AppView {
    /// A session that has just been opened: it asks for an email address.
    /// Its selection stops at the ends of a menu.
    pub open spec fn initial(client_id: nat) -> AppView {
        AppView::starting(client_id, false)
    }

    /// A session that has just been opened, with the given way of moving
    /// the selection at the ends of a menu.
    pub open spec fn starting(client_id: nat, wrap_around: bool) -> AppView {
        AppView {
            client_id,
            selected: 0,
            state: AppState::Auth,
            auth_state: AuthState::InputEmail,
            email_input: TextInputView::empty(),
            user_email: Seq::empty(),
            verification_code: Seq::empty(),
            strikes: 0,
            columns: DEFAULT_COLUMNS as nat,
            rows: DEFAULT_ROWS as nat,
            wrap_around,
        }
    }

    pub open spec fn size(self) -> nat {
        menu_size(self.state, self.auth_state)
    }

    /// The invariant of a session: the selection names an entry of the
    /// menu on screen, and the strikes are counted between none and the
    /// limit.
    pub open spec fn wf(self) -> bool {
        &&& self.selected < self.size()
        &&& 0 <= self.strikes <= MAX_STRIKES
    }

    pub open spec fn editing(self) -> bool {
        self.email_input.mode == InputMode::Editing
    }

    /// Whether the selected entry hands the typed text in: "send" while
    /// the address is asked for, "submit" while the code is.
    pub open spec fn on_submit_entry(self) -> bool {
        self.selected == 0 && self.auth_state != AuthState::LoggedIn
    }

    pub open spec fn clamped(self) -> AppView {
        AppView { selected: selection_clamped(self.selected, self.size()), ..self }
    }

    pub open spec fn at_main_menu(self) -> AppView {
        AppView { state: AppState::MainMenu, selected: 0, ..self }
    }

    /// The effect that hands the typed text in, by the step of the sign-in
    /// flow. The session itself changes only when the effect's outcome
    /// comes back.
    pub open spec fn submit_effect(self) -> EffectView {
        match self.auth_state {
            AuthState::InputEmail => EffectView::RequestVerificationEmail {
                address: self.email_input.input,
            },
            AuthState::VerifyEmail => EffectView::VerifyCode {
                expected: self.verification_code,
                submitted: self.email_input.input,
            },
            AuthState::LoggedIn => EffectView::Nothing,
        }
    }

    /// The effect of "resend": a new mail to the address already given.
    pub open spec fn resend_effect(self) -> EffectView {
        EffectView::RequestVerificationEmail { address: self.user_email }
    }

    /// Enter on an entry of the sign-in menus, with the text field not
    /// being edited.
    pub open spec fn auth_choice(self) -> (AppView, EffectView) {
        match self.auth_state {
            AuthState::InputEmail => if self.selected == 0 {
                (self, self.submit_effect())
            } else if self.selected == 1 {
                (self, EffectView::Quit)
            } else {
                (self, EffectView::Nothing)
            },
            AuthState::VerifyEmail => if self.selected == 0 {
                (self, self.submit_effect())
            } else if self.selected == 1 {
                (self, self.resend_effect())
            } else if self.selected == 2 {
                (
                    AppView { auth_state: AuthState::InputEmail, selected: 0, strikes: 0, ..self },
                    EffectView::Nothing,
                )
            } else if self.selected == 3 {
                (self.at_main_menu(), EffectView::Nothing)
            } else {
                (self, EffectView::Nothing)
            },
            AuthState::LoggedIn => (self, EffectView::Nothing),
        }
    }

    /// Enter, before the selection is brought back into range.
    pub open spec fn on_enter(self) -> (AppView, EffectView) {
        match self.state {
            AppState::Auth => if self.editing() {
                let left = AppView {
                    email_input: self.email_input.with_mode(InputMode::Normal),
                    ..self
                };
                if self.on_submit_entry() {
                    (left, self.submit_effect())
                } else {
                    (left, EffectView::Nothing)
                }
            } else {
                self.auth_choice()
            },
            AppState::MainMenu => if self.selected == 0 {
                (
                    AppView {
                        state: AppState::Auth,
                        email_input: self.email_input.with_mode(InputMode::Editing),
                        ..self
                    },
                    EffectView::Nothing,
                )
            } else if self.selected == 1 {
                (AppView { state: AppState::Settings, selected: 0, ..self }, EffectView::Nothing)
            } else if self.selected == 2 {
                (AppView { state: AppState::Pokedex, selected: 0, ..self }, EffectView::Nothing)
            } else if self.selected == 3 {
                (self, EffectView::Quit)
            } else {
                (self, EffectView::Nothing)
            },
            _ => if self.selected == 3 {
                (self.at_main_menu(), EffectView::Nothing)
            } else {
                (self, EffectView::Nothing)
            },
        }
    }

    /// Escape, before the selection is brought back into range: it leaves
    /// the text field, else the screen, else the session.
    pub open spec fn on_escape(self) -> (AppView, EffectView) {
        match self.state {
            AppState::Auth => if self.editing() {
                (
                    AppView {
                        email_input: self.email_input.with_mode(InputMode::Normal),
                        ..self
                    },
                    EffectView::Nothing,
                )
            } else {
                (self.at_main_menu(), EffectView::Nothing)
            },
            AppState::MainMenu => (self, EffectView::Quit),
            _ => (self.at_main_menu(), EffectView::Nothing),
        }
    }

    /// Tab switches between the text field and the menu, on the sign-in
    /// screens only.
    pub open spec fn on_tab(self) -> AppView {
        if self.state == AppState::Auth {
            let mode = if self.editing() {
                InputMode::Normal
            } else {
                InputMode::Editing
            };
            AppView { email_input: self.email_input.with_mode(mode), ..self }
        } else {
            self
        }
    }

    /// Whether keys go to the text field: on the sign-in screens, while it
    /// is being edited.
    pub open spec fn typing(self) -> bool {
        self.state == AppState::Auth && self.editing()
    }

    /// A key that means nothing to the menus: the text field takes it
    /// while it is being edited.
    pub open spec fn on_text_key(self, key: KeyEvent) -> AppView {
        if self.typing() {
            AppView { email_input: self.email_input.after_key(key), ..self }
        } else {
            self
        }
    }

    /// The selection after Up, by the session's way of moving it.
    pub open spec fn moved_up(self) -> nat {
        if self.wrap_around {
            wrapped_up(self.selected, self.size())
        } else {
            selection_up(self.selected)
        }
    }

    /// The selection after Down, by the session's way of moving it.
    pub open spec fn moved_down(self) -> nat {
        if self.wrap_around {
            wrapped_down(self.selected, self.size())
        } else {
            selection_down(self.selected, self.size())
        }
    }

    /// A key press, before the selection is brought back into range.
    pub open spec fn on_press(self, key: KeyEvent) -> (AppView, EffectView) {
        match key.code {
            KeyCode::Char(c) => if c == 'q' && key.modifiers.control {
                (self, EffectView::Quit)
            } else if c == 'q' && self.state == AppState::MainMenu {
                (self, EffectView::Quit)
            } else {
                (self.on_text_key(key), EffectView::Nothing)
            },
            KeyCode::Up => if self.editing() {
                (self, EffectView::Nothing)
            } else {
                (AppView { selected: self.moved_up(), ..self }, EffectView::Nothing)
            },
            KeyCode::Down => if self.editing() {
                (self, EffectView::Nothing)
            } else {
                (AppView { selected: self.moved_down(), ..self }, EffectView::Nothing)
            },
            KeyCode::Enter => self.on_enter(),
            KeyCode::Tab => (self.on_tab(), EffectView::Nothing),
            KeyCode::Esc => self.on_escape(),
            _ => (self.on_text_key(key), EffectView::Nothing),
        }
    }

    /// A key event: only presses count, and whatever a press does, the
    /// selection afterwards names an entry of the menu then on screen.
    pub open spec fn on_key(self, key: KeyEvent) -> (AppView, EffectView) {
        if key.kind == KeyEventKind::Press {
            let (after, effect) = self.on_press(key);
            (after.clamped(), effect)
        } else {
            (self.clamped(), EffectView::Nothing)
        }
    }

    /// The mail service has dealt with a requested mail that carried
    /// `code`. Whether it took the mail or failed makes no difference here:
    /// the user can always ask for another.
    pub open spec fn on_email_dispatched(self, code: Seq<char>) -> AppView {
        if self.state != AppState::Auth {
            self
        } else {
            match self.auth_state {
                AuthState::InputEmail => AppView {
                    user_email: self.email_input.input,
                    verification_code: code,
                    auth_state: AuthState::VerifyEmail,
                    selected: 0,
                    email_input: self.email_input.cleared(),
                    ..self
                },
                AuthState::VerifyEmail => AppView {
                    verification_code: code,
                    email_input: self.email_input.cleared(),
                    ..self
                },
                AuthState::LoggedIn => self,
            }
        }
    }

    /// Whether one more failed attempt is still counted, rather than
    /// sending the user back to the start.
    pub open spec fn may_strike(self) -> bool {
        0 <= self.strikes < MAX_STRIKES - 1
    }

    /// The typed code was compared with the one sent.
    pub open spec fn on_code_checked(self, matched: bool) -> AppView {
        if self.state != AppState::Auth || self.auth_state != AuthState::VerifyEmail {
            self
        } else if matched {
            AppView {
                state: AppState::MainMenu,
                auth_state: AuthState::LoggedIn,
                selected: 0,
                strikes: 0,
                email_input: self.email_input.cleared(),
                ..self
            }
        } else if self.may_strike() {
            AppView {
                selected: 0,
                strikes: self.strikes + 1,
                email_input: self.email_input.cleared(),
                ..self
            }
        } else {
            AppView {
                auth_state: AuthState::InputEmail,
                selected: 0,
                strikes: 0,
                email_input: self.email_input.cleared(),
                ..self
            }
        }
    }

    /// The transition table: the session after `event`, and what the
    /// supervisor is asked to do.
    pub open spec fn next(self, event: SessionEventView) -> (AppView, EffectView) {
        match event {
            SessionEventView::Key(key) => self.on_key(key),
            SessionEventView::Resize { columns, rows } => (
                AppView { columns, rows, ..self }.clamped(),
                EffectView::Nothing,
            ),
            SessionEventView::EmailDispatched { code, delivered } => (
                self.on_email_dispatched(code).clamped(),
                EffectView::Nothing,
            ),
            SessionEventView::CodeChecked { matched } => (
                self.on_code_checked(matched).clamped(),
                EffectView::Nothing,
            ),
            SessionEventView::Tick => (self.clamped(), EffectView::Nothing),
        }
    }

    /// The session after all of `events`, in their order.
    pub open spec fn run(self, events: Seq<SessionEventView>) -> AppView
        decreases events.len(),
    {
        if events.len() == 0 {
            self
        } else {
            self.run(events.drop_last()).next(events.last()).0
        }
    }
}

/// Whether `event` is a press of the Up or the Down key.
pub open spec fn is_arrow(event: SessionEventView) -> bool {
    event matches SessionEventView::Key(key) && key.kind == KeyEventKind::Press && (key.code
        == KeyCode::Up || key.code == KeyCode::Down)
}

/// One step keeps a session well formed. Whatever the session was, the
/// selection afterwards names an entry of the menu then on screen.
pub proof fn lemma_next_keeps_wf(s: AppView, event: SessionEventView)
    ensures
        s.next(event).0.selected < s.next(event).0.size(),
        s.wf() ==> s.next(event).0.wf(),
{
}

/// A well-formed session stays well formed through any events.
pub proof fn lemma_run_keeps_wf(s: AppView, events: Seq<SessionEventView>)
    requires
        s.wf(),
    ensures
        s.run(events).wf(),
    decreases events.len(),
{
    if events.len() > 0 {
        lemma_run_keeps_wf(s, events.drop_last());
        lemma_next_keeps_wf(s.run(events.drop_last()), events.last());
    }
}

/// Through any presses of Up and Down the session stays on its screen, and
/// the selection stays on an entry of that screen's menu. Nothing but the
/// selection changes.
pub proof fn lemma_arrows_stay_in_menu(s: AppView, events: Seq<SessionEventView>)
    requires
        s.wf(),
        forall|i: int| 0 <= i < events.len() ==> is_arrow(#[trigger] events[i]),
    ensures
        s.run(events).selected < menu_size(s.state, s.auth_state),
        s.run(events) == (AppView { selected: s.run(events).selected, ..s }),
    decreases events.len(),
{
    if events.len() > 0 {
        lemma_arrows_stay_in_menu(s, events.drop_last());
    }
}

/// In a session whose selection stops at the ends of a menu, one press of
/// Up or Down moves the selection by one entry at most and keeps it in the
/// menu. Nothing else changes, and nothing is asked of the supervisor.
pub proof fn lemma_arrow_moves_by_one(s: AppView, event: SessionEventView)
    requires
        s.wf(),
        !s.wrap_around,
        is_arrow(event),
    ensures
        ({
            let (after, effect) = s.next(event);
            &&& effect == EffectView::Nothing
            &&& after == (AppView { selected: after.selected, ..s })
            &&& after.selected < menu_size(s.state, s.auth_state)
            &&& s.selected - 1 <= after.selected <= s.selected + 1
        }),
{
}

/// A failed attempt to verify, made while the code is asked for, is a
/// strike. Below the limit the count goes up by exactly one and the session
/// keeps asking for the code. The strike that reaches the limit puts the
/// count back to zero and the session back to asking for an address.
pub proof fn lemma_failed_attempt_is_a_strike(s: AppView)
    requires
        s.wf(),
        s.state == AppState::Auth,
        s.auth_state == AuthState::VerifyEmail,
    ensures
        ({
            let after = s.next(SessionEventView::CodeChecked { matched: false }).0;
            &&& s.strikes + 1 < MAX_STRIKES ==> after.strikes == s.strikes + 1 && after.auth_state
                == AuthState::VerifyEmail
            &&& s.strikes + 1 >= MAX_STRIKES ==> after.strikes == 0 && after.auth_state
                == AuthState::InputEmail
            &&& after.state == AppState::Auth
            &&& 0 <= after.strikes < MAX_STRIKES
        }),
{
}

/// The strikes are zero whenever a step brings the session back to asking
/// for an address, or signs the user in.
pub proof fn lemma_strikes_reset(s: AppView, event: SessionEventView)
    ensures
        ({
            let after = s.next(event).0;
            &&& s.auth_state != AuthState::InputEmail && after.auth_state == AuthState::InputEmail
                ==> after.strikes == 0
            &&& s.auth_state != AuthState::LoggedIn && after.auth_state == AuthState::LoggedIn
                ==> after.strikes == 0
        }),
{
}

/// The sign-in flow moves only along its arrows: from asking for an
/// address to asking for the code, from there back or on to signed in, and
/// nowhere else.
pub proof fn lemma_auth_flow(s: AppView, event: SessionEventView)
    ensures
        ({
            let after = s.next(event).0;
            ||| after.auth_state == s.auth_state
            ||| s.auth_state == AuthState::InputEmail && after.auth_state == AuthState::VerifyEmail
            ||| s.auth_state == AuthState::VerifyEmail && after.auth_state == AuthState::LoggedIn
            ||| s.auth_state == AuthState::VerifyEmail && after.auth_state == AuthState::InputEmail
        }),
{
}

/// Whether the mail service took a mail or failed, the session goes on in
/// the same way.
pub proof fn lemma_delivery_makes_no_difference(s: AppView, code: Seq<char>)
    ensures
        s.next(SessionEventView::EmailDispatched { code, delivered: true }) == s.next(
            SessionEventView::EmailDispatched { code, delivered: false },
        ),
{
}

/// Many sessions side by side, each under its client's identifier.
pub type Sessions = Map<nat, AppView>;

/// An event on its way to the session of one client.
pub type Addressed = (nat, SessionEventView);

/// `event` delivered to the session of `id`. With no such session nothing
/// happens.
pub open spec fn deliver(sessions: Sessions, id: nat, event: SessionEventView) -> Sessions {
    if sessions.dom().contains(id) {
        sessions.insert(id, sessions[id].next(event).0)
    } else {
        sessions
    }
}

/// All of `schedule` delivered, in its order.
pub open spec fn deliver_all(sessions: Sessions, schedule: Seq<Addressed>) -> Sessions
    decreases schedule.len(),
{
    if schedule.len() == 0 {
        sessions
    } else {
        deliver(
            deliver_all(sessions, schedule.drop_last()),
            schedule.last().0,
            schedule.last().1,
        )
    }
}

/// The events of `schedule` that are addressed to `id`, in their order.
pub open spec fn events_for(schedule: Seq<Addressed>, id: nat) -> Seq<SessionEventView>
    decreases schedule.len(),
{
    if schedule.len() == 0 {
        Seq::empty()
    } else if schedule.last().0 == id {
        events_for(schedule.drop_last(), id).push(schedule.last().1)
    } else {
        events_for(schedule.drop_last(), id)
    }
}

/// Sessions are isolated. However the events of many clients interleave,
/// each session ends where it would have ended had it run alone on its own
/// events: no session sees or changes another.
pub proof fn lemma_sessions_are_isolated(sessions: Sessions, schedule: Seq<Addressed>, id: nat)
    requires
        sessions.dom().contains(id),
    ensures
        deliver_all(sessions, schedule).dom() == sessions.dom(),
        deliver_all(sessions, schedule)[id] == sessions[id].run(events_for(schedule, id)),
    decreases schedule.len(),
{
    if schedule.len() > 0 {
        let before = schedule.drop_last();
        lemma_sessions_are_isolated(sessions, before, id);
        let mid = deliver_all(sessions, before);
        let (target, event) = schedule.last();
        if target == id {
            let own = events_for(before, id);
            assert(own.push(event).drop_last() =~= own);
        }
    }
}

impl View for App {
    type V = AppView;

    open spec fn view(&self) -> AppView {
        AppView {
            client_id: self.client_id as nat,
            selected: self.selected as nat,
            state: self.state,
            auth_state: self.auth_state,
            email_input: self.email_input@,
            user_email: self.user_email@,
            verification_code: self.verification_code@,
            strikes: self.strikes as int,
            columns: self.columns as nat,
            rows: self.rows as nat,
            wrap_around: self.wrap_around,
        }
    }
}

impl App {
    /// The state of a session that has just been opened for `client_id`.
    /// Its selection stops at the ends of a menu.
    pub fn new(client_id: usize) -> (app: App)
        ensures
            app@ == AppView::initial(client_id as nat),
            app@.wf(),
    {
        App::with_navigation(client_id, false)
    }

    /// The state of a session that has just been opened for `client_id`,
    /// whose selection goes around the ends of a menu if `wrap_around`
    /// says so.
    pub fn with_navigation(client_id: usize, wrap_around: bool) -> (app: App)
        ensures
            app@ == AppView::starting(client_id as nat, wrap_around),
            app@.wf(),
    {
        App {
            client_id,
            selected: 0,
            state: AppState::Auth,
            auth_state: AuthState::InputEmail,
            email_input: TextInputWidgetState::new(),
            user_email: String::new(),
            verification_code: String::new(),
            strikes: 0,
            columns: DEFAULT_COLUMNS,
            rows: DEFAULT_ROWS,
            wrap_around,
        }
    }
}

} // verus!
