//! What runs for one connected client: the sink that its screen is written
//! to, and the supervisor that takes its input through the decoder and the
//! state machine.

use crate::channel::{channel_of, clone_sender, try_send, SendOutcome};
use crate::decoder::events::InputEvent;
use crate::decoder::stream::{decoded, remainder, settled, InputDecoder};
use crate::keys::{KeyCode, KeyEvent, KeyEventKind};
use crate::session::{
    is_arrow, lemma_arrow_moves_by_one, menu_size, App, AppState, AppView, AuthState, Effect,
    EffectView, SessionEvent, SessionEventView, MAX_STRIKES,
};
use crate::state_machine::MenuStateMachine;
use crate::user_management::email_auth::verify_email;
use russh::CryptoVec;
use tokio::sync::mpsc::Sender;
use vstd::prelude::*;

verus! {

/// The byte buffer of the `russh` crate, in which the transport takes what
/// it is to send.
#[verifier::external_type_specification]
#[verifier::external_body]
pub struct ExCryptoVec(CryptoVec);

/// The bytes that a transport buffer holds.
pub uninterp spec fn transport_bytes(buffer: CryptoVec) -> Seq<u8>;

/// `russh::CryptoVec::from_slice` makes a buffer that holds a copy of the
/// slice.
pub assume_specification[ CryptoVec::from_slice ](s: &[u8]) -> (buffer: CryptoVec)
    ensures
        transport_bytes(buffer) == s@,
;

/// Why a flush failed.
#[derive(Clone, Copy, Debug, PartialEq, Eq, Structural)]
pub enum SinkError {
    /// The client has disconnected: the session is to be torn down.
    Disconnected,
}

/// What a flush that did not fail has done.
#[derive(Clone, Copy, Debug, PartialEq, Eq, Structural)]
pub enum Flushed {
    /// Nothing had been written, and nothing was sent.
    Idle,
    /// The bytes went to the channel.
    Sent,
    /// The channel was full. The bytes of this flush are dropped: drawing
    /// never waits for a slow client.
    Dropped,
}

/// What a flush reports, by what became of the bytes it offered.
pub open spec fn flush_report(outcome: SendOutcome) -> Result<Flushed, SinkError> {
    match outcome {
        SendOutcome::Sent => Ok(Flushed::Sent),
        SendOutcome::Full => Ok(Flushed::Dropped),
        SendOutcome::Closed => Err(SinkError::Disconnected),
    }
}

/// What a flush reports, by what became of the bytes it offered. A flush
/// fails if and only if the channel is closed; a full channel is no
/// failure.
pub fn flush_result(outcome: SendOutcome) -> (report: Result<Flushed, SinkError>)
    ensures
        report == flush_report(outcome),
        report is Err <==> outcome == SendOutcome::Closed,
{
    match outcome {
        SendOutcome::Sent => Ok(Flushed::Sent),
        SendOutcome::Full => Ok(Flushed::Dropped),
        SendOutcome::Closed => Err(SinkError::Disconnected),
    }
}

/// Collects what is drawn for one session and hands it to the session's
/// outbound channel in one piece.
pub struct TerminalHandle {
    output_sender: Sender<CryptoVec>,
    buffer: Vec<u8>,
}

/// A sink as a mathematical value.
pub struct SinkView {
    /// The bytes written and not yet flushed.
    pub written: Seq<u8>,
    /// The channel that the sink hands its messages to.
    pub channel: int,
}

impl View for TerminalHandle {
    type V = SinkView;

    closed spec fn view(&self) -> SinkView {
        SinkView { written: self.buffer@, channel: channel_of(self.output_sender) }
    }
}

impl TerminalHandle {
    /// A sink with nothing written, in front of the channel of
    /// `output_sender`.
    pub fn start(output_sender: Sender<CryptoVec>) -> (handle: Self)
        ensures
            handle@ == (SinkView { written: Seq::empty(), channel: channel_of(output_sender) }),
    {
        Self { output_sender, buffer: Vec::new() }
    }

    /// A second sink in front of the same channel, with nothing written.
    /// What is written to `self` and not yet flushed stays with `self`.
    pub fn fresh(&self) -> (handle: Self)
        ensures
            handle@ == (SinkView { written: Seq::empty(), channel: self@.channel }),
    {
        Self { output_sender: clone_sender(&self.output_sender), buffer: Vec::new() }
    }

    /// Puts `buf` behind what is already written. Nothing is sent.
    pub fn write(&mut self, buf: &[u8]) -> (written: usize)
        ensures
            final(self)@ == (SinkView { written: old(self)@.written + buf@, ..old(self)@ }),
            written == buf@.len(),
    {
        self.buffer.extend_from_slice(buf);
        assert(self@.written =~= old(self)@.written + buf@);
        buf.len()
    }

    /// Takes everything written so far out of the sink, as the one message
    /// that a flush offers to the channel. With nothing written there is no
    /// message.
    pub fn take_message(&mut self) -> (message: Option<CryptoVec>)
        ensures
            final(self)@ == (SinkView { written: Seq::empty(), ..old(self)@ }),
            match message {
                Some(buffer) => old(self)@.written.len() > 0 && transport_bytes(buffer) == old(self)@.written,
                None => old(self)@.written.len() == 0,
            },
    {
        if self.buffer.len() == 0 {
            assert(self.buffer@ =~= Seq::<u8>::empty());
            return None;
        }
        let data = CryptoVec::from_slice(self.buffer.as_slice());
        self.buffer.clear();
        Some(data)
    }

    /// Offers everything written so far to the channel as one message, and
    /// forgets it, whatever the channel does. With nothing written, nothing
    /// is offered. The call never waits.
    pub fn flush(&mut self) -> (report: Result<Flushed, SinkError>)
        ensures
            final(self)@ == (SinkView { written: Seq::empty(), ..old(self)@ }),
            old(self)@.written.len() == 0 ==> report == Ok::<Flushed, SinkError>(Flushed::Idle),
            old(self)@.written.len() > 0 ==> exists|outcome: SendOutcome|
                report == flush_report(outcome),
    {
        match self.take_message() {
            Some(message) => {
                let outcome = try_send(&self.output_sender, message);
                flush_result(outcome)
            },
            None => Ok(Flushed::Idle),
        }
    }
}

/// Where a connection stands in its life. It only ever moves forward.
#[derive(Clone, Copy, Debug, PartialEq, Eq, Structural)]
pub enum Lifecycle {
    /// The channel is being set up; nothing is drawn yet.
    Opening,
    /// The session takes input and draws.
    Active,
    /// The session has ended and waits to be taken out of the registry.
    Closing,
    /// All is released.
    Closed,
}

/// How far along its life a connection is.
pub open spec fn stage(phase: Lifecycle) -> nat {
    match phase {
        Lifecycle::Opening => 0,
        Lifecycle::Active => 1,
        Lifecycle::Closing => 2,
        Lifecycle::Closed => 3,
    }
}

/// What the supervisor asks of the task that runs it.
#[derive(Clone, Debug, PartialEq, Eq)]
pub enum Action {
    /// Nothing is to be done until more input comes.
    Wait,
    /// Draw the session and flush its sink.
    Render,
    /// Clear the screen and give the terminal this size.
    Resize { columns: u16, rows: u16 },
    /// Make up a verification code, mail it to `address`, and report the
    /// outcome with [`ClientHandler::email_done`].
    SendEmail { address: String },
    /// Take the session out of the registry, release its terminal, and
    /// report with [`ClientHandler::closed`].
    Close,
}

pub enum ActionView {
    Wait,
    Render,
    Resize { columns: u16, rows: u16 },
    SendEmail { address: Seq<char> },
    Close,
}

impl View for Action {
    type V = ActionView;

    open spec fn view(&self) -> ActionView {
        match self {
            Action::Wait => ActionView::Wait,
            Action::Render => ActionView::Render,
            Action::Resize { columns, rows } => ActionView::Resize {
                columns: *columns,
                rows: *rows,
            },
            Action::SendEmail { address } => ActionView::SendEmail { address: address@ },
            Action::Close => ActionView::Close,
        }
    }
}

/// The supervisor of one connection as a mathematical value.
pub struct SupervisorView {
    /// The session.
    pub app: AppView,
    /// The bytes that the decoder keeps back.
    pub pending: Seq<u8>,
    /// The events decoded and not yet acted on, the oldest first.
    pub queue: Seq<InputEvent>,
    pub phase: Lifecycle,
    /// Whether a mail has been asked for whose outcome is not in yet.
    pub awaiting: bool,
    /// Whether the screen no longer shows the session as it is.
    pub dirty: bool,
}

/// The event of the state machine that an input event is.
pub open spec fn session_event(event: InputEvent) -> SessionEventView {
    match event {
        InputEvent::Key(key) => SessionEventView::Key(key),
        InputEvent::Resized { columns, rows } => SessionEventView::Resize {
            columns: columns as nat,
            rows: rows as nat,
        },
    }
}

impl SupervisorView {
    /// The supervisor of a connection that is being opened.
    pub open spec fn initial(client_id: nat) -> SupervisorView {
        SupervisorView::starting(client_id, false)
    }

    /// The supervisor of a connection that is being opened, for a session
    /// with the given way of moving the selection.
    pub open spec fn starting(client_id: nat, wrap_around: bool) -> SupervisorView {
        SupervisorView {
            app: AppView::starting(client_id, wrap_around),
            pending: Seq::empty(),
            queue: Seq::empty(),
            phase: Lifecycle::Opening,
            awaiting: false,
            dirty: false,
        }
    }

    /// The connection is open: the session is shown for the first time.
    pub open spec fn opened(self) -> SupervisorView {
        if self.phase == Lifecycle::Opening {
            SupervisorView { phase: Lifecycle::Active, dirty: true, ..self }
        } else {
            self
        }
    }

    /// Bytes have come from the client: the events they complete join the
    /// queue. A connection that is not active takes no bytes.
    pub open spec fn fed(self, bytes: Seq<u8>) -> SupervisorView {
        if self.phase == Lifecycle::Active {
            SupervisorView {
                queue: self.queue + decoded(self.pending + bytes),
                pending: remainder(self.pending + bytes),
                ..self
            }
        } else {
            self
        }
    }

    /// Time has passed without bytes: what the decoder kept back is
    /// settled.
    pub open spec fn ticked(self) -> SupervisorView {
        if self.phase == Lifecycle::Active {
            SupervisorView {
                queue: self.queue + settled(self.pending),
                pending: Seq::empty(),
                ..self
            }
        } else {
            self
        }
    }

    /// The transport reports a new terminal size.
    pub open spec fn resized(self, columns: u16, rows: u16) -> SupervisorView {
        if self.phase == Lifecycle::Active {
            SupervisorView {
                queue: self.queue.push(InputEvent::Resized { columns, rows }),
                ..self
            }
        } else {
            self
        }
    }

    /// The supervisor after the state machine has taken `event` and asked
    /// for `effect`, with `app` the session after that step; and what the
    /// task is asked to do, if anything. A comparison of codes is made on
    /// the spot and its outcome fed back at once.
    pub open spec fn carried_out(self, app: AppView, effect: EffectView) -> (
        SupervisorView,
        Option<ActionView>,
    ) {
        match effect {
            EffectView::Nothing => (SupervisorView { app, dirty: true, ..self }, None),
            EffectView::Quit => (
                SupervisorView {
                    app,
                    dirty: true,
                    phase: Lifecycle::Closing,
                    queue: Seq::empty(),
                    ..self
                },
                Some(ActionView::Close),
            ),
            EffectView::RequestVerificationEmail { address } => (
                SupervisorView { app, dirty: true, awaiting: true, ..self },
                Some(ActionView::SendEmail { address }),
            ),
            EffectView::VerifyCode { expected, submitted } => (
                SupervisorView {
                    app: app.next(SessionEventView::CodeChecked { matched: expected == submitted }).0,
                    dirty: true,
                    ..self
                },
                None,
            ),
        }
    }

    /// The supervisor after acting on `event`, and what the task is asked
    /// to do, if anything.
    pub open spec fn act(self, event: InputEvent) -> (SupervisorView, Option<ActionView>) {
        let (app, effect) = self.app.next(session_event(event));
        match event {
            InputEvent::Key(key) => self.carried_out(app, effect),
            InputEvent::Resized { columns, rows } => (
                SupervisorView { app, dirty: true, ..self },
                Some(ActionView::Resize { columns, rows }),
            ),
        }
    }

    /// The next thing the task is to do, and the supervisor once it has
    /// been told. Events are acted on strictly in the order they came in,
    /// up to the first that needs the task. With the queue empty the
    /// screen is redrawn if it is stale. While a mail is out no event is
    /// touched.
    pub open spec fn poll(self) -> (SupervisorView, ActionView)
        decreases self.queue.len(),
    {
        if self.phase == Lifecycle::Closing {
            (self, ActionView::Close)
        } else if self.phase != Lifecycle::Active || self.awaiting {
            (self, ActionView::Wait)
        } else if self.queue.len() == 0 {
            if self.dirty {
                (SupervisorView { dirty: false, ..self }, ActionView::Render)
            } else {
                (self, ActionView::Wait)
            }
        } else {
            let (after, action) = SupervisorView { queue: self.queue.skip(1), ..self }.act(
                self.queue[0],
            );
            match action {
                Some(action) => (after, action),
                None => if after.queue.len() < self.queue.len() {
                    after.poll()
                } else {
                    (after, ActionView::Wait)
                },
            }
        }
    }

    /// The outcome of a mail is in.
    pub open spec fn email_done(self, code: Seq<char>, delivered: bool) -> SupervisorView {
        if self.phase == Lifecycle::Active && self.awaiting {
            SupervisorView {
                app: self.app.next(SessionEventView::EmailDispatched { code, delivered }).0,
                awaiting: false,
                dirty: true,
                ..self
            }
        } else {
            self
        }
    }

    /// The client is gone: its input has ended or its output is closed.
    pub open spec fn disconnected(self) -> SupervisorView {
        if self.phase == Lifecycle::Opening || self.phase == Lifecycle::Active {
            SupervisorView { phase: Lifecycle::Closing, queue: Seq::empty(), ..self }
        } else {
            self
        }
    }

    /// The session has been taken out of the registry.
    pub open spec fn closed(self) -> SupervisorView {
        if self.phase == Lifecycle::Closing {
            SupervisorView { phase: Lifecycle::Closed, ..self }
        } else {
            self
        }
    }
}

/// Acting on an event never lengthens the queue, and never moves an active
/// connection back in its life.
pub proof fn lemma_act_shortens(s: SupervisorView, event: InputEvent)
    ensures
        s.act(event).0.queue.len() <= s.queue.len(),
        s.phase == Lifecycle::Active ==> stage(s.phase) <= stage(s.act(event).0.phase),
{
}

/// Polling never moves a connection back in its life, and it asks to close
/// exactly when the connection is closing afterwards.
pub proof fn lemma_poll_moves_forward(s: SupervisorView)
    ensures
        stage(s.phase) <= stage(s.poll().0.phase),
        s.poll().1 == ActionView::Close <==> s.poll().0.phase == Lifecycle::Closing,
    decreases s.queue.len(),
{
    if s.phase == Lifecycle::Active && !s.awaiting && s.queue.len() > 0 {
        let rest = SupervisorView { queue: s.queue.skip(1), ..s };
        let (after, action) = rest.act(s.queue[0]);
        lemma_act_shortens(rest, s.queue[0]);
        if action is None {
            lemma_poll_moves_forward(after);
        }
    }
}

/// Whether `key` is a press of Enter.
pub open spec fn is_enter(key: KeyEvent) -> bool {
    key.code == KeyCode::Enter && key.kind == KeyEventKind::Press
}

/// One press of Up or Down, in a session whose selection stops at the ends
/// of a menu: the selection moves by one entry at most and stays in the
/// menu, nothing else in the session changes, and nothing is asked of the
/// task.
pub proof fn lemma_arrow_asks_nothing(s: SupervisorView, key: KeyEvent)
    requires
        s.app.wf(),
        !s.app.wrap_around,
        is_arrow(SessionEventView::Key(key)),
    ensures
        ({
            let (after, action) = s.act(InputEvent::Key(key));
            &&& action is None
            &&& after == (SupervisorView { app: after.app, dirty: true, ..s })
            &&& after.app == (AppView { selected: after.app.selected, ..s.app })
            &&& after.app.selected < menu_size(s.app.state, s.app.auth_state)
            &&& s.app.selected - 1 <= after.app.selected <= s.app.selected + 1
        }),
{
    lemma_arrow_moves_by_one(s.app, SessionEventView::Key(key));
}

/// Handing in a wrong code is a strike. With the session on the entry that
/// hands the code in, Enter compares what was typed with the code that was
/// sent, on the spot. Where they differ the count of strikes goes up by
/// one and the session keeps asking for the code; the strike that reaches
/// the limit, and any after it, puts the count back to zero and the session
/// back to asking for an address. Either way the session stays on the
/// sign-in screen with the text field emptied, and nothing is asked of the
/// task.
pub proof fn lemma_wrong_code_is_a_strike(s: SupervisorView, key: KeyEvent)
    requires
        s.app.wf(),
        s.app.state == AppState::Auth,
        s.app.auth_state == AuthState::VerifyEmail,
        s.app.selected == 0,
        s.app.email_input.input != s.app.verification_code,
        is_enter(key),
    ensures
        ({
            let (after, action) = s.act(InputEvent::Key(key));
            &&& action is None
            &&& after.phase == s.phase
            &&& after.app.state == AppState::Auth
            &&& after.app.email_input.input == Seq::<char>::empty()
            &&& s.app.strikes + 1 < MAX_STRIKES ==> after.app.strikes == s.app.strikes + 1
                && after.app.auth_state == AuthState::VerifyEmail
            &&& s.app.strikes + 1 >= MAX_STRIKES ==> after.app.strikes == 0
                && after.app.auth_state == AuthState::InputEmail
        }),
{
}

/// Sending the address. With the session asking for an address and on the
/// entry that sends it, Enter asks the task for exactly one mail, to the
/// address that was typed, and until the outcome is in the supervisor asks
/// for nothing more and touches no event. When the outcome is in, whether
/// the mail went out or not, the session asks for the code: the address and
/// the code are kept, the first entry is selected, and the text field is
/// empty with its cursor at the start.
pub proof fn lemma_sending_the_address(
    s: SupervisorView,
    key: KeyEvent,
    code: Seq<char>,
    delivered: bool,
)
    requires
        s.app.wf(),
        s.phase == Lifecycle::Active,
        !s.awaiting,
        s.app.state == AppState::Auth,
        s.app.auth_state == AuthState::InputEmail,
        s.app.selected == 0,
        is_enter(key),
    ensures
        ({
            let (asked, action) = s.act(InputEvent::Key(key));
            let after = asked.email_done(code, delivered);
            &&& action == Some(ActionView::SendEmail { address: s.app.email_input.input })
            &&& asked.awaiting
            &&& asked.app.auth_state == AuthState::InputEmail
            &&& asked.poll() == (asked, ActionView::Wait)
            &&& !after.awaiting
            &&& after.app.state == AppState::Auth
            &&& after.app.auth_state == AuthState::VerifyEmail
            &&& after.app.selected == 0
            &&& after.app.user_email == s.app.email_input.input
            &&& after.app.verification_code == code
            &&& after.app.email_input.input == Seq::<char>::empty()
            &&& after.app.email_input.cursor == 0
            &&& after.app.strikes == s.app.strikes
        }),
{
}

/// The supervisor of one connection: it owns the session and the decoder,
/// and tells the task around it what to do next.
pub struct ClientHandler {
    app: App,
    parser: InputDecoder,
    queue: Vec<InputEvent>,
    taken: usize,
    phase: Lifecycle,
    awaiting: bool,
    dirty: bool,
}

impl View for ClientHandler {
    type V = SupervisorView;

    closed spec fn view(&self) -> SupervisorView {
        SupervisorView {
            app: self.app@,
            pending: self.parser@,
            queue: if self.taken <= self.queue@.len() {
                self.queue@.skip(self.taken as int)
            } else {
                Seq::empty()
            },
            phase: self.phase,
            awaiting: self.awaiting,
            dirty: self.dirty,
        }
    }
}

impl ClientHandler {
    /// The supervisor of the connection of client `client_id`, before the
    /// connection is open.
    pub fn new(client_id: usize) -> (handler: Self)
        ensures
            handler@ == SupervisorView::initial(client_id as nat),
    {
        Self::with_navigation(client_id, false)
    }

    /// The supervisor of the connection of client `client_id`, for a
    /// session whose selection goes around the ends of a menu if
    /// `wrap_around` says so.
    pub fn with_navigation(client_id: usize, wrap_around: bool) -> (handler: Self)
        ensures
            handler@ == SupervisorView::starting(client_id as nat, wrap_around),
    {
        let handler = Self {
            app: App::with_navigation(client_id, wrap_around),
            parser: InputDecoder::new(),
            queue: Vec::new(),
            taken: 0,
            phase: Lifecycle::Opening,
            awaiting: false,
            dirty: false,
        };
        assert(handler.queue@.skip(0) =~= Seq::<InputEvent>::empty());
        handler
    }

    /// The session, to draw it.
    pub fn app(&self) -> (app: &App)
        ensures
            app@ == self@.app,
    {
        &self.app
    }

    /// Where the connection stands in its life.
    pub fn phase(&self) -> (phase: Lifecycle)
        ensures
            phase == self@.phase,
    {
        self.phase
    }

    /// Whether a mail is out whose outcome the supervisor waits for.
    pub fn is_awaiting(&self) -> (awaiting: bool)
        ensures
            awaiting == self@.awaiting,
    {
        self.awaiting
    }

    /// The connection is open.
    pub fn open(&mut self)
        ensures
            final(self)@ == old(self)@.opened(),
    {
        match self.phase {
            Lifecycle::Opening => {
                self.phase = Lifecycle::Active;
                self.dirty = true;
            },
            _ => {},
        }
    }

    fn is_active(&self) -> (active: bool)
        ensures
            active == (self@.phase == Lifecycle::Active),
    {
        match self.phase {
            Lifecycle::Active => true,
            _ => false,
        }
    }

    fn enqueue(&mut self, events: Vec<InputEvent>)
        ensures
            final(self)@ == (SupervisorView {
                queue: old(self)@.queue + events@,
                ..old(self)@
            }),
            final(self).parser == old(self).parser,
    {
        let ghost added = events@;
        let mut events = events;
        if self.taken >= self.queue.len() {
            self.queue.clear();
            self.taken = 0;
        }
        self.queue.append(&mut events);
        assert(self@.queue =~= old(self)@.queue + added);
    }

    /// Takes bytes that have come from the client.
    pub fn feed(&mut self, data: &[u8])
        ensures
            final(self)@ == old(self)@.fed(data@),
    {
        if self.is_active() {
            let events = self.parser.feed(data);
            self.enqueue(events);
        }
    }

    /// Takes note that time has passed and no bytes have come.
    pub fn tick(&mut self)
        ensures
            final(self)@ == old(self)@.ticked(),
    {
        if self.is_active() {
            let events = self.parser.finish();
            self.enqueue(events);
        }
    }

    /// Takes note that the client's terminal has a new size.
    pub fn resized(&mut self, columns: u16, rows: u16)
        ensures
            final(self)@ == old(self)@.resized(columns, rows),
    {
        if self.is_active() {
            let mut events: Vec<InputEvent> = Vec::new();
            events.push(InputEvent::Resized { columns, rows });
            self.enqueue(events);
            assert(self@.queue =~= old(self)@.queue.push(InputEvent::Resized { columns, rows }));
        }
    }

    fn carry_out(&mut self, effect: Effect) -> (action: Option<Action>)
        ensures
            (final(self)@, action_view(action)) == (SupervisorView {
                app: old(self)@.app,
                ..old(self)@
            }).carried_out(old(self)@.app, effect@),
    {
        self.dirty = true;
        match effect {
            Effect::Nothing => None,
            Effect::Quit => {
                self.phase = Lifecycle::Closing;
                self.queue.clear();
                self.taken = 0;
                assert(self.queue@.skip(0) =~= Seq::<InputEvent>::empty());
                Some(Action::Close)
            },
            Effect::RequestVerificationEmail { address } => {
                self.awaiting = true;
                Some(Action::SendEmail { address })
            },
            Effect::VerifyCode { expected, submitted } => {
                let matched = verify_email(
                    expected.as_str(),
                    self.app.user_email.as_str(),
                    submitted.as_str(),
                );
                let _ = MenuStateMachine::next(
                    &mut self.app,
                    &SessionEvent::CodeChecked { matched },
                );
                None
            },
        }
    }

    /// Acts on one key: the state machine takes it, and what it asks for
    /// is carried out as far as that can be done on the spot. The answer is
    /// what is left for the task to do, if anything.
    pub fn handle_input(&mut self, key: KeyEvent) -> (action: Option<Action>)
        ensures
            (final(self)@, action_view(action)) == old(self)@.act(
                InputEvent::Key(key),
            ),
    {
        let effect = MenuStateMachine::next(&mut self.app, &SessionEvent::Key(key));
        self.carry_out(effect)
    }

    fn act(&mut self, event: InputEvent) -> (action: Option<Action>)
        ensures
            (final(self)@, action_view(action)) == old(self)@.act(event),
    {
        match event {
            InputEvent::Key(key) => self.handle_input(key),
            InputEvent::Resized { columns, rows } => {
                let _ = MenuStateMachine::next(
                    &mut self.app,
                    &SessionEvent::Resize { columns, rows },
                );
                self.dirty = true;
                Some(Action::Resize { columns, rows })
            },
        }
    }

    /// Says what the task is to do next. See [`SupervisorView::poll`].
    pub fn poll(&mut self) -> (action: Action)
        ensures
            (final(self)@, action@) == old(self)@.poll(),
    {
        match self.phase {
            Lifecycle::Closing => {
                return Action::Close;
            },
            Lifecycle::Active => {},
            _ => {
                return Action::Wait;
            },
        }
        if self.awaiting {
            return Action::Wait;
        }
        while self.taken < self.queue.len()
            invariant
                self@.phase == Lifecycle::Active,
                !self@.awaiting,
                self@.poll() == old(self)@.poll(),
            decreases self@.queue.len(),
        {
            let event = self.queue[self.taken];
            let ghost before = self@;
            self.taken += 1;
            proof {
                assert(self@ == (SupervisorView { queue: before.queue.skip(1), ..before })) by {
                    assert(self@.queue =~= before.queue.skip(1));
                }
                lemma_act_shortens(self@, event);
            }
            match self.act(event) {
                Some(action) => {
                    return action;
                },
                None => {},
            }
        }
        if self.dirty {
            self.dirty = false;
            Action::Render
        } else {
            Action::Wait
        }
    }

    /// Takes the outcome of the mail that was asked for: the code it
    /// carried, and whether the mail service took it.
    pub fn email_done(&mut self, code: String, delivered: bool)
        ensures
            final(self)@ == old(self)@.email_done(code@, delivered),
    {
        if self.is_active() && self.awaiting {
            let _ = MenuStateMachine::next(
                &mut self.app,
                &SessionEvent::EmailDispatched { code, delivered },
            );
            self.awaiting = false;
            self.dirty = true;
        }
    }

    /// Takes note that the client is gone.
    pub fn disconnected(&mut self)
        ensures
            final(self)@ == old(self)@.disconnected(),
    {
        match self.phase {
            Lifecycle::Opening | Lifecycle::Active => {
                self.phase = Lifecycle::Closing;
                self.queue.clear();
                self.taken = 0;
                assert(self.queue@.skip(0) =~= Seq::<InputEvent>::empty());
            },
            _ => {},
        }
    }

    /// Takes note that the session is out of the registry and its terminal
    /// released.
    pub fn closed(&mut self)
        ensures
            final(self)@ == old(self)@.closed(),
    {
        match self.phase {
            Lifecycle::Closing => {
                self.phase = Lifecycle::Closed;
            },
            _ => {},
        }
    }
}

/// What an answer of the supervisor asks for, as a mathematical value.
pub open spec fn action_view(action: Option<Action>) -> Option<ActionView> {
    match action {
        Some(action) => Some(action@),
        None => None,
    }
}

} // verus!
