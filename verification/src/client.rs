//! The matchmaker's end of one signaling connection: heartbeat, framing, and
//! the passage between frames and routed envelopes.
//!
//! The endpoint owns no socket and no clock. It is told what happened and
//! when (in milliseconds of a monotonic clock), and answers with the actions
//! to perform, in order.

use vstd::prelude::*;
use crate::codec::{decode_message, decode_peer_message};
use crate::frame::{reason_view, CloseReason, CloseReasonView, Frame, FrameView, CLOSE_PROTOCOL_ERROR};
use crate::message::{ClientId, Message, MessageView, PeerMessage, PeerMessageView};
use crate::moderator::{Connect, Disconnect, Error};

verus! {

/// How often, in milliseconds, a ping is sent to the client.
pub const HEARTBEAT_INTERVAL: u64 = 5000;

/// How long, in milliseconds, a client may stay silent before it is dropped.
pub const CLIENT_TIMEOUT: u64 = 10000;

/// Where an endpoint stands in its life.
#[derive(Clone, Copy, Debug, PartialEq, Eq, Structural)]
pub enum SessionState {
    /// Created, not started.
    Connecting,
    /// Started: the client was told its identity and registration was asked
    /// for.
    Authenticated,
    /// Known to the registry.
    Registered,
    /// Stopping or stopped.
    Closing,
}

/// What the endpoint wants done.
#[derive(Debug, PartialEq, Eq)]
pub enum Action {
    /// Write the envelope to the client as a text frame.
    Text(Message),
    Ping(Vec<u8>),
    Pong(Vec<u8>),
    Binary(Vec<u8>),
    /// Close the transport, giving the reason.
    Close(Option<CloseReason>),
    /// Ask the registry to register this session.
    Connect(Connect),
    /// Ask the registry to pass the envelope on, as sent by this session.
    Route(PeerMessage),
    /// Stop the endpoint.
    Stop,
}

/// Mathematical value of an [`Action`].
pub enum ActionView {
    Text(MessageView),
    Ping(Seq<u8>),
    Pong(Seq<u8>),
    Binary(Seq<u8>),
    Close(Option<CloseReasonView>),
    Connect(ClientId),
    Route(PeerMessageView),
    Stop,
}

impl View for Action {
    type V = ActionView;

    open spec fn view(&self) -> ActionView {
        match *self {
            Action::Text(m) => ActionView::Text(m@),
            Action::Ping(b) => ActionView::Ping(b@),
            Action::Pong(b) => ActionView::Pong(b@),
            Action::Binary(b) => ActionView::Binary(b@),
            Action::Close(r) => ActionView::Close(reason_view(r)),
            Action::Connect(c) => ActionView::Connect(c.id),
            Action::Route(m) => ActionView::Route(m@),
            Action::Stop => ActionView::Stop,
        }
    }
}

/// The values of a list of actions, in order.
pub open spec fn action_views(actions: Seq<Action>) -> Seq<ActionView> {
    actions.map_values(|a: Action| a@)
}

/// What a text frame from the client asks for.
pub enum TextOutcome {
    /// An envelope to pass on.
    Route(PeerMessageView),
    /// An envelope that is addressed to nobody: noted, nothing to do.
    Ignore,
    /// Not a JSON document, no envelope, or an envelope that clients may not
    /// send to one another.
    Violation,
}

/// What the text of a frame asks for.
pub open spec fn text_outcome(text: Seq<char>) -> TextOutcome {
    match decode_peer_message(text) {
        Some(pm) => if pm.content.is_routable() {
            TextOutcome::Route(pm)
        } else {
            TextOutcome::Violation
        },
        None => if decode_message(text) is Some {
            TextOutcome::Ignore
        } else {
            TextOutcome::Violation
        },
    }
}

/// The close reason given to a client that broke the protocol.
pub open spec fn protocol_violation() -> CloseReasonView {
    CloseReasonView { code: CLOSE_PROTOCOL_ERROR, description: None }
}

/// Mathematical value of a [`WsClient`].
pub struct WsClientView {
    pub id: ClientId,
    /// When the client was last heard from.
    pub heartbeat: u64,
    pub state: SessionState,
    /// Whether the registry holds this session.
    pub registered: bool,
}

impl WsClientView {
    /// Whether the endpoint is started and not stopping.
    pub open spec fn running(self) -> bool {
        self.state == SessionState::Authenticated || self.state == SessionState::Registered
    }

    /// Whether the client has been silent for longer than the timeout.
    pub open spec fn timed_out(self, now: u64) -> bool {
        now > self.heartbeat && now - self.heartbeat > CLIENT_TIMEOUT
    }

    /// The endpoint, the client heard from at `now`.
    pub open spec fn touched(self, now: u64) -> WsClientView {
        WsClientView {
            id: self.id,
            heartbeat: now,
            state: self.state,
            registered: self.registered,
        }
    }

    /// The endpoint in the given state.
    pub open spec fn in_state(self, state: SessionState) -> WsClientView {
        WsClientView {
            id: self.id,
            heartbeat: self.heartbeat,
            state,
            registered: self.registered,
        }
    }

    /// The endpoint once it was started at `now`.
    pub open spec fn after_start(self, now: u64) -> WsClientView {
        if self.state == SessionState::Connecting {
            self.touched(now).in_state(SessionState::Authenticated)
        } else {
            self
        }
    }

    /// What starting the endpoint asks for: the client is told its identity
    /// first, then the registry is asked to register the session.
    pub open spec fn start_actions(self) -> Seq<ActionView> {
        if self.state == SessionState::Connecting {
            seq![ActionView::Text(MessageView::Id(self.id)), ActionView::Connect(self.id)]
        } else {
            Seq::empty()
        }
    }

    /// The endpoint once the registry answered the request to register.
    pub open spec fn after_connect_result(self, accepted: bool) -> WsClientView {
        if self.state == SessionState::Authenticated {
            if accepted {
                WsClientView {
                    id: self.id,
                    heartbeat: self.heartbeat,
                    state: SessionState::Registered,
                    registered: true,
                }
            } else {
                self.in_state(SessionState::Closing)
            }
        } else {
            self
        }
    }

    /// What the registry's answer asks for: a refused session stops.
    pub open spec fn connect_result_actions(self, accepted: bool) -> Seq<ActionView> {
        if self.state == SessionState::Authenticated && !accepted {
            seq![ActionView::Stop]
        } else {
            Seq::empty()
        }
    }

    /// The endpoint after the heartbeat timer fired at `now`.
    pub open spec fn after_heartbeat(self, now: u64) -> WsClientView {
        if self.running() && self.timed_out(now) {
            self.in_state(SessionState::Closing)
        } else {
            self
        }
    }

    /// What the heartbeat timer asks for at `now`: stop when the client
    /// timed out, an empty ping otherwise.
    pub open spec fn heartbeat_actions(self, now: u64) -> Seq<ActionView> {
        if !self.running() {
            Seq::empty()
        } else if self.timed_out(now) {
            seq![ActionView::Stop]
        } else {
            seq![ActionView::Ping(Seq::empty())]
        }
    }

    /// The endpoint after `frame` came in at `now`.
    pub open spec fn after_frame(self, frame: FrameView, now: u64) -> WsClientView {
        if !self.running() {
            self
        } else {
            match frame {
                FrameView::Ping(_) => self.touched(now),
                FrameView::Pong(_) => self.touched(now),
                FrameView::Text(t) => match text_outcome(t) {
                    TextOutcome::Violation => self.touched(now).in_state(SessionState::Closing),
                    _ => self.touched(now),
                },
                FrameView::Binary(_) => self,
                _ => self.in_state(SessionState::Closing),
            }
        }
    }

    /// What `frame` asks for.
    pub open spec fn frame_actions(self, frame: FrameView) -> Seq<ActionView> {
        if !self.running() {
            Seq::empty()
        } else {
            match frame {
                FrameView::Ping(p) => seq![ActionView::Pong(p)],
                FrameView::Pong(_) => Seq::empty(),
                FrameView::Text(t) => match text_outcome(t) {
                    TextOutcome::Route(pm) => if self.state == SessionState::Registered {
                        seq![ActionView::Route(pm)]
                    } else {
                        Seq::empty()
                    },
                    TextOutcome::Ignore => Seq::empty(),
                    TextOutcome::Violation => seq![
                        ActionView::Close(Some(protocol_violation())),
                        ActionView::Stop,
                    ],
                },
                FrameView::Binary(b) => seq![ActionView::Binary(b)],
                FrameView::Close(r) => seq![ActionView::Close(r), ActionView::Stop],
                _ => seq![ActionView::Stop],
            }
        }
    }

    /// What an envelope from the registry asks for: it is written to the
    /// client while the endpoint runs.
    pub open spec fn deliver_actions(self, envelope: MessageView) -> Seq<ActionView> {
        if self.running() {
            seq![ActionView::Text(envelope)]
        } else {
            Seq::empty()
        }
    }

    /// The endpoint once it stopped.
    pub open spec fn after_stop(self) -> WsClientView {
        WsClientView {
            id: self.id,
            heartbeat: self.heartbeat,
            state: SessionState::Closing,
            registered: false,
        }
    }
}

/// The matchmaker's end of one authenticated signaling connection.
#[derive(Debug)]
pub struct WsClient {
    id: ClientId,
    heartbeat: u64,
    state: SessionState,
    registered: bool,
}

impl View for WsClient {
    type V = WsClientView;

    closed spec fn view(&self) -> WsClientView {
        WsClientView {
            id: self.id,
            heartbeat: self.heartbeat,
            state: self.state,
            registered: self.registered,
        }
    }
}

impl WsClient {
    /// An endpoint for the client that authenticated as `id`, created at
    /// `now`.
    pub fn new(id: ClientId, now: u64) -> (r: Self)
        ensures
            r@ == (WsClientView {
                id,
                heartbeat: now,
                state: SessionState::Connecting,
                registered: false,
            }),
    {
        WsClient { id, heartbeat: now, state: SessionState::Connecting, registered: false }
    }

    /// The identity of the client.
    pub fn id(&self) -> (r: ClientId)
        ensures
            r == self@.id,
    {
        self.id
    }

    /// Where the endpoint stands.
    pub fn state(&self) -> (r: SessionState)
        ensures
            r == self@.state,
    {
        self.state
    }

    /// When the client was last heard from.
    pub fn last_heartbeat(&self) -> (r: u64)
        ensures
            r == self@.heartbeat,
    {
        self.heartbeat
    }

    /// Starts the endpoint. The first action writes the `Id` envelope with
    /// the client's identity; the second asks the registry to register the
    /// session.
    pub fn started(&mut self, now: u64) -> (r: Vec<Action>)
        ensures
            final(self)@ == old(self)@.after_start(now),
            action_views(r@) == old(self)@.start_actions(),
    {
        let mut out: Vec<Action> = Vec::new();
        if self.state == SessionState::Connecting {
            self.heartbeat = now;
            self.state = SessionState::Authenticated;
            out.push(Action::Text(Message::Id(self.id)));
            out.push(Action::Connect(Connect { id: self.id }));
        }
        assert(action_views(out@) =~= old(self)@.start_actions());
        out
    }

    /// Takes the registry's answer to the request to register. A session
    /// that was refused stops, and is never counted as registered.
    pub fn connect_result(&mut self, result: Result<(), Error>) -> (r: Vec<Action>)
        ensures
            final(self)@ == old(self)@.after_connect_result(result is Ok),
            action_views(r@) == old(self)@.connect_result_actions(result is Ok),
    {
        let mut out: Vec<Action> = Vec::new();
        if self.state == SessionState::Authenticated {
            match result {
                Ok(_) => {
                    self.state = SessionState::Registered;
                    self.registered = true;
                },
                Err(_) => {
                    self.state = SessionState::Closing;
                    out.push(Action::Stop);
                },
            }
        }
        assert(action_views(out@) =~= old(self)@.connect_result_actions(result is Ok));
        out
    }

    /// The heartbeat timer fired, as it does every [`HEARTBEAT_INTERVAL`]:
    /// a client that was silent for more than [`CLIENT_TIMEOUT`] is dropped,
    /// any other is pinged.
    pub fn heartbeat(&mut self, now: u64) -> (r: Vec<Action>)
        ensures
            final(self)@ == old(self)@.after_heartbeat(now),
            action_views(r@) == old(self)@.heartbeat_actions(now),
    {
        let mut out: Vec<Action> = Vec::new();
        if self.is_running() {
            if now > self.heartbeat && now - self.heartbeat > CLIENT_TIMEOUT {
                self.state = SessionState::Closing;
                out.push(Action::Stop);
            } else {
                let payload: Vec<u8> = Vec::new();
                out.push(Action::Ping(payload));
            }
        }
        assert(action_views(out@) =~= old(self)@.heartbeat_actions(now));
        out
    }

    fn is_running(&self) -> (r: bool)
        ensures
            r == self@.running(),
    {
        match self.state {
            SessionState::Authenticated => true,
            SessionState::Registered => true,
            _ => false,
        }
    }

    /// Handles a frame that came in from the client at `now`.
    ///
    /// A ping is answered with a pong of the same payload. Ping, pong and
    /// text count as a sign of life. A text frame that spells an addressed
    /// envelope which clients may exchange is handed to the registry; one
    /// that spells nothing known ends the session.
    pub fn handle_frame(&mut self, frame: Frame, now: u64) -> (r: Vec<Action>)
        ensures
            final(self)@ == old(self)@.after_frame(frame@, now),
            action_views(r@) == old(self)@.frame_actions(frame@),
    {
        let mut out: Vec<Action> = Vec::new();
        if self.is_running() {
            match frame {
                Frame::Ping(payload) => {
                    self.heartbeat = now;
                    out.push(Action::Pong(payload));
                },
                Frame::Pong(_) => {
                    self.heartbeat = now;
                },
                Frame::Text(text) => {
                    self.heartbeat = now;
                    match PeerMessage::from_json(text.as_str()) {
                        Some(pm) => {
                            if pm.content.is_routable() {
                                if self.state == SessionState::Registered {
                                    out.push(Action::Route(pm));
                                }
                            } else {
                                self.state = SessionState::Closing;
                                out.push(Action::Close(Some(Self::violation())));
                                out.push(Action::Stop);
                            }
                        },
                        None => {
                            if Message::from_json(text.as_str()).is_none() {
                                self.state = SessionState::Closing;
                                out.push(Action::Close(Some(Self::violation())));
                                out.push(Action::Stop);
                            }
                        },
                    }
                },
                Frame::Binary(payload) => {
                    out.push(Action::Binary(payload));
                },
                Frame::Close(reason) => {
                    self.state = SessionState::Closing;
                    out.push(Action::Close(reason));
                    out.push(Action::Stop);
                },
                _ => {
                    self.state = SessionState::Closing;
                    out.push(Action::Stop);
                },
            }
        }
        assert(action_views(out@) =~= old(self)@.frame_actions(frame@));
        out
    }

    fn violation() -> (r: CloseReason)
        ensures
            r@ == protocol_violation(),
    {
        CloseReason { code: CLOSE_PROTOCOL_ERROR, description: None }
    }

    /// Takes an envelope that the registry delivers to this session.
    pub fn deliver(&self, envelope: Message) -> (r: Vec<Action>)
        ensures
            action_views(r@) == self@.deliver_actions(envelope@),
    {
        let mut out: Vec<Action> = Vec::new();
        if self.is_running() {
            out.push(Action::Text(envelope));
        }
        assert(action_views(out@) =~= self@.deliver_actions(envelope@));
        out
    }

    /// The transport failed: the endpoint stops.
    pub fn transport_failed(&mut self) -> (r: Vec<Action>)
        ensures
            final(self)@ == old(self)@.in_state(SessionState::Closing),
            action_views(r@) == seq![ActionView::Stop],
    {
        self.state = SessionState::Closing;
        let mut out: Vec<Action> = Vec::new();
        out.push(Action::Stop);
        assert(action_views(out@) =~= seq![ActionView::Stop]);
        out
    }

    /// The endpoint stops. The registry is told, once, if it holds this
    /// session; a session that was refused leaves the registry alone.
    pub fn stopping(&mut self) -> (r: Option<Disconnect>)
        ensures
            final(self)@ == old(self)@.after_stop(),
            old(self)@.registered ==> r is Some && r.unwrap().id == old(self)@.id,
            !old(self)@.registered ==> r is None,
    {
        let was = self.registered;
        self.state = SessionState::Closing;
        self.registered = false;
        if was {
            Some(Disconnect { id: self.id })
        } else {
            None
        }
    }
}

impl Action {
    /// The frame that performs this action on the transport, if it is one
    /// for the transport. An envelope is written as JSON text that spells
    /// it.
    pub fn into_frame(self) -> (r: Option<Frame>)
        ensures
            match self@ {
                ActionView::Text(m) => r is Some && r.unwrap()@ is Text && decode_message(
                    r.unwrap()@->Text_0,
                ) == Some(m),
                ActionView::Ping(p) => r is Some && r.unwrap()@ == FrameView::Ping(p),
                ActionView::Pong(p) => r is Some && r.unwrap()@ == FrameView::Pong(p),
                ActionView::Binary(b) => r is Some && r.unwrap()@ == FrameView::Binary(b),
                ActionView::Close(reason) => r is Some && r.unwrap()@ == FrameView::Close(reason),
                _ => r is None,
            },
    {
        match self {
            Action::Text(m) => Some(Frame::Text(m.to_json())),
            Action::Ping(p) => Some(Frame::Ping(p)),
            Action::Pong(p) => Some(Frame::Pong(p)),
            Action::Binary(b) => Some(Frame::Binary(b)),
            Action::Close(reason) => Some(Frame::Close(reason)),
            _ => None,
        }
    }
}

/// First message: whatever identity the client authenticated as, starting
/// its endpoint writes the `Id` envelope with that identity before anything
/// else, and only then asks the registry to register the session.
pub proof fn law_first_message(id: ClientId, now: u64, started: u64)
    ensures
        (WsClientView {
            id,
            heartbeat: now,
            state: SessionState::Connecting,
            registered: false,
        }).start_actions() == seq![
            ActionView::Text(MessageView::Id(id)),
            ActionView::Connect(id),
        ],
        (WsClientView {
            id,
            heartbeat: now,
            state: SessionState::Connecting,
            registered: false,
        }).after_start(started).state == SessionState::Authenticated,
{
}

} // verus!
