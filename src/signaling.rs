//! The signaling session: the per-client state machine that offers a peer
//! connection, applies the browser's answer, trades network candidates, and
//! owns the bridge once both data channels are open.
//!
//! Messages on the signaling transport are JSON text frames of the shape
//! `{"event": string, "data": json}`. The session is server-initiated: it sends
//! the offer, the browser answers.

use crate::json::{json_member, json_str_member, json_string_literal, json_text, quote_json};
use crate::text::str_eq;
use vstd::prelude::*;
use vstd::string::StringExecFns;

verus! {

/// Where a session stands.
#[derive(Clone, Copy, Debug, PartialEq, Eq, Structural)]
pub enum SignalingState {
    /// The peer connection and its channels exist; no offer was sent yet.
    Created,
    /// The offer went out; the answer is awaited.
    OfferSent,
    /// The browser's answer is the remote description.
    AnswerApplied,
    /// Both channels opened and the bridge runs.
    Bridging,
    /// The session is over.
    Closed,
}

/// The event names of the signaling exchange.
#[derive(Clone, Copy, Debug, PartialEq, Eq, Structural)]
pub enum SignalKind {
    Offer,
    Answer,
    Candidate,
    /// Any other event name.
    Other,
}

/// The event name of each kind.
pub open spec fn kind_of(event: Seq<char>) -> SignalKind {
    if event == "offer"@ {
        SignalKind::Offer
    } else if event == "answer"@ {
        SignalKind::Answer
    } else if event == "candidate"@ {
        SignalKind::Candidate
    } else {
        SignalKind::Other
    }
}

/// The kind of a signaling event name.
pub fn signal_kind(event: &str) -> (k: SignalKind)
    ensures
        k == kind_of(event@),
{
    if str_eq(event, "offer") {
        SignalKind::Offer
    } else if str_eq(event, "answer") {
        SignalKind::Answer
    } else if str_eq(event, "candidate") {
        SignalKind::Candidate
    } else {
        SignalKind::Other
    }
}

/// Why a session ended in failure.
#[derive(Clone, Copy, Debug, PartialEq, Eq, Structural)]
pub enum SignalingError {
    /// An answer came before any offer was made.
    NoActiveSession,
    /// An answer without a session description string.
    MalformedAnswer,
    /// The peer connection refused the answer.
    AnswerRejected,
    /// The peer connection refused a well-formed remote candidate.
    CandidateRejected,
    /// The offer could not be written as JSON.
    OfferEncoding,
    /// The signaling transport failed.
    Transport,
}

/// Why a message was dropped without ending the session.
#[derive(Clone, Copy, Debug, PartialEq, Eq, Structural)]
pub enum IgnoreReason {
    /// The frame is not a signaling message.
    InvalidFrame,
    /// The event name is not one the session takes.
    UnknownEvent,
    /// A remote candidate that does not parse.
    MalformedCandidate,
}

/// What came of handing a remote candidate to the peer connection.
#[derive(Clone, Copy, Debug, PartialEq, Eq, Structural)]
pub enum CandidateOutcome {
    Added,
    /// The candidate payload did not parse.
    Malformed,
    /// The peer connection refused it.
    Failed,
}

/// What the session is told, in the model.
pub enum SessionInput {
    /// The local offer was created; its session description written as a JSON
    /// string literal, or `None` when that failed.
    OfferReady(Option<Seq<char>>),
    /// A signaling message arrived: its kind, and for an answer the `sdp`
    /// string of its data, if any.
    Signal(SignalKind, Option<Seq<char>>),
    /// A text frame that is not a signaling message arrived.
    InvalidFrame,
    /// Applying the answer succeeded (true) or failed.
    AnswerApplied(bool),
    /// The outcome of adding a remote candidate.
    CandidateDone(CandidateOutcome),
    /// A local candidate was found, as JSON text; `None` marks the end of
    /// candidates.
    LocalCandidate(Option<Seq<char>>),
    /// The bridge was built (true) or could not be.
    BridgeStarted(bool),
    /// The browser closed the signaling transport.
    TransportClosed,
    /// The signaling transport failed.
    TransportError,
}

/// What the session asks for, in the model.
pub enum SessionOutput {
    /// Send this text frame to the browser.
    Send(Seq<char>),
    /// Apply this session description as the remote answer.
    ApplyAnswer(Seq<char>),
    /// Parse the message's data as a candidate and add it.
    AddCandidate,
    /// Nothing to do.
    Idle,
    /// Drop the message, with a diagnostic.
    Ignore(IgnoreReason),
    /// Stop the bridge that was just built: one already runs, or the session
    /// is over.
    ShutdownBridge,
    /// The session ends: stop the bridge first when the flag says so.
    End(bool, Option<SignalingError>),
}

/// The text frame of the offer, given its session description as a JSON
/// string literal.
pub open spec fn offer_text(quoted_sdp: Seq<char>) -> Seq<char> {
    "{\"event\":\"offer\",\"data\":{\"sdp\":"@ + quoted_sdp + ",\"type\":\"offer\"}}"@
}

/// The text frame of a local candidate, given the candidate as JSON text.
pub open spec fn candidate_text(candidate_json: Seq<char>) -> Seq<char> {
    "{\"event\":\"candidate\",\"data\":"@ + candidate_json + "}"@
}

/// The characters of an optional text.
pub open spec fn opt_text(t: Option<String>) -> Option<Seq<char>> {
    match t {
        Some(s) => Some(s@),
        None => None,
    }
}

/// The characters of an optional text slice.
pub open spec fn opt_str(t: Option<&str>) -> Option<Seq<char>> {
    match t {
        Some(s) => Some(s@),
        None => None,
    }
}

/// The state of a session.
pub struct SessionView {
    pub state: SignalingState,
    /// Whether the session owns a running bridge.
    pub bridge: bool,
}

impl SessionView {
    pub open spec fn fresh() -> SessionView {
        SessionView { state: SignalingState::Created, bridge: false }
    }

    pub open spec fn ended(self, error: Option<SignalingError>) -> (SessionView, SessionOutput) {
        (
            SessionView { state: SignalingState::Closed, bridge: false },
            SessionOutput::End(self.bridge, error),
        )
    }

    /// One step of the session.
    pub open spec fn step(self, input: SessionInput) -> (SessionView, SessionOutput) {
        if self.state == SignalingState::Closed {
            match input {
                SessionInput::BridgeStarted(true) => (self, SessionOutput::ShutdownBridge),
                _ => (self, SessionOutput::Idle),
            }
        } else {
            match input {
                SessionInput::OfferReady(q) => if self.state == SignalingState::Created {
                    match q {
                        Some(q) => (
                            SessionView { state: SignalingState::OfferSent, ..self },
                            SessionOutput::Send(offer_text(q)),
                        ),
                        None => self.ended(Some(SignalingError::OfferEncoding)),
                    }
                } else {
                    (self, SessionOutput::Idle)
                },
                SessionInput::Signal(kind, sdp) => match kind {
                    SignalKind::Answer => if self.state == SignalingState::Created {
                        self.ended(Some(SignalingError::NoActiveSession))
                    } else {
                        match sdp {
                            Some(s) => (self, SessionOutput::ApplyAnswer(s)),
                            None => self.ended(Some(SignalingError::MalformedAnswer)),
                        }
                    },
                    SignalKind::Candidate => (self, SessionOutput::AddCandidate),
                    _ => (self, SessionOutput::Ignore(IgnoreReason::UnknownEvent)),
                },
                SessionInput::InvalidFrame => (self, SessionOutput::Ignore(IgnoreReason::InvalidFrame)),
                SessionInput::AnswerApplied(ok) => if !ok {
                    self.ended(Some(SignalingError::AnswerRejected))
                } else if self.state == SignalingState::OfferSent {
                    (SessionView { state: SignalingState::AnswerApplied, ..self }, SessionOutput::Idle)
                } else {
                    (self, SessionOutput::Idle)
                },
                SessionInput::CandidateDone(outcome) => match outcome {
                    CandidateOutcome::Added => (self, SessionOutput::Idle),
                    CandidateOutcome::Malformed => (
                        self,
                        SessionOutput::Ignore(IgnoreReason::MalformedCandidate),
                    ),
                    CandidateOutcome::Failed => self.ended(Some(SignalingError::CandidateRejected)),
                },
                SessionInput::LocalCandidate(c) => match c {
                    Some(d) => (self, SessionOutput::Send(candidate_text(d))),
                    None => (self, SessionOutput::Idle),
                },
                SessionInput::BridgeStarted(ok) => if !ok {
                    (self, SessionOutput::Idle)
                } else if self.bridge {
                    (self, SessionOutput::ShutdownBridge)
                } else {
                    (SessionView { state: SignalingState::Bridging, bridge: true }, SessionOutput::Idle)
                },
                SessionInput::TransportClosed => self.ended(None),
                SessionInput::TransportError => self.ended(Some(SignalingError::Transport)),
            }
        }
    }
}

/// A signaling message: an event name and its JSON data.
pub struct SignalMessage {
    pub event: String,
    pub data: serde_json::Value,
}

/// What the session asks the caller to do.
pub enum SessionAction {
    /// Send this text frame to the browser.
    Send(String),
    /// Apply this session description as the remote answer, then report the
    /// outcome with `on_answer_applied`.
    ApplyAnswer(String),
    /// Parse this data as a candidate and add it to the peer connection, then
    /// report the outcome with `on_candidate_done`.
    AddCandidate(serde_json::Value),
    /// Nothing to do.
    Idle,
    /// Drop the message, with a diagnostic.
    Ignore(IgnoreReason),
    /// Stop the bridge that was just built.
    ShutdownBridge,
    /// The session ends; stop the bridge first when `shutdown_bridge` is set.
    End { shutdown_bridge: bool, error: Option<SignalingError> },
}

impl SessionAction {
    pub open spec fn view(self) -> SessionOutput {
        match self {
            SessionAction::Send(t) => SessionOutput::Send(t@),
            SessionAction::ApplyAnswer(s) => SessionOutput::ApplyAnswer(s@),
            SessionAction::AddCandidate(_) => SessionOutput::AddCandidate,
            SessionAction::Idle => SessionOutput::Idle,
            SessionAction::Ignore(r) => SessionOutput::Ignore(r),
            SessionAction::ShutdownBridge => SessionOutput::ShutdownBridge,
            SessionAction::End { shutdown_bridge, error } => SessionOutput::End(
                shutdown_bridge,
                error,
            ),
        }
    }

    /// Whether the session ends with this action.
    pub fn is_end(&self) -> (r: bool)
        ensures
            r == (self.view() is End),
    {
        match self {
            SessionAction::End { .. } => true,
            _ => false,
        }
    }
}

/// The text frame of the offer, given its session description written as a
/// JSON string literal.
pub fn offer_frame(quoted_sdp: &str) -> (r: String)
    ensures
        r@ == offer_text(quoted_sdp@),
{
    let mut r = String::from_str("{\"event\":\"offer\",\"data\":{\"sdp\":");
    r.append(quoted_sdp);
    r.append(",\"type\":\"offer\"}}");
    r
}

/// The text frame of a local candidate, given the candidate as JSON text.
pub fn candidate_frame(candidate_json: &str) -> (r: String)
    ensures
        r@ == candidate_text(candidate_json@),
{
    let mut r = String::from_str("{\"event\":\"candidate\",\"data\":");
    r.append(candidate_json);
    r.append("}");
    r
}

/// The `sdp` string of an answer's data, if it has one.
fn answer_sdp(data: &serde_json::Value) -> (r: Option<String>)
    ensures
        opt_text(r) == json_str_member(*data, "sdp"@),
{
    match json_member(data, "sdp") {
        Some(v) => json_text(v),
        None => None,
    }
}

/// One client's signaling session.
pub struct SignalingSession {
    state: SignalingState,
    bridge: bool,
    client_id: String,
}

impl View for SignalingSession {
    type V = SessionView;

    closed spec fn view(&self) -> SessionView {
        SessionView { state: self.state, bridge: self.bridge }
    }
}

impl SignalingSession {
    /// A new session for the client named `client_id` (for diagnostics only).
    pub fn new(client_id: String) -> (s: Self)
        ensures
            s@ == SessionView::fresh(),
            s.spec_client_id() == client_id@,
    {
        SignalingSession { state: SignalingState::Created, bridge: false, client_id }
    }

    pub closed spec fn spec_client_id(&self) -> Seq<char> {
        self.client_id@
    }

    pub fn client_id(&self) -> (r: &str)
        ensures
            r@ == self.spec_client_id(),
    {
        self.client_id.as_str()
    }

    pub fn state(&self) -> (r: SignalingState)
        ensures
            r == self@.state,
    {
        self.state
    }

    /// Whether the session owns a running bridge.
    pub fn has_bridge(&self) -> (r: bool)
        ensures
            r == self@.bridge,
    {
        self.bridge
    }

    fn end(&mut self, error: Option<SignalingError>) -> (a: SessionAction)
        ensures
            (final(self)@, a.view()) == old(self)@.ended(error),
            final(self).spec_client_id() == old(self).spec_client_id(),
    {
        let shutdown_bridge = self.bridge;
        self.state = SignalingState::Closed;
        self.bridge = false;
        SessionAction::End { shutdown_bridge, error }
    }

    /// The offer was created: its session description, written as a JSON
    /// string literal (or `None` when writing it failed), goes out in the
    /// offer frame.
    pub fn on_offer_quoted(&mut self, quoted_sdp: Option<String>) -> (a: SessionAction)
        ensures
            (final(self)@, a.view()) == old(self)@.step(
                SessionInput::OfferReady(
                    opt_text(quoted_sdp),
                ),
            ),
    {
        if self.state == SignalingState::Closed || self.state != SignalingState::Created {
            return SessionAction::Idle;
        }
        match quoted_sdp {
            Some(q) => {
                self.state = SignalingState::OfferSent;
                SessionAction::Send(offer_frame(q.as_str()))
            },
            None => self.end(Some(SignalingError::OfferEncoding)),
        }
    }

    /// The offer was created with session description `sdp`: the offer frame
    /// goes out, or the session ends when the description cannot be written
    /// as JSON.
    pub fn on_offer(&mut self, sdp: &str) -> (a: SessionAction)
        ensures
            (final(self)@, a.view()) == old(self)@.step(
                SessionInput::OfferReady(Some(json_string_literal(sdp@))),
            ),
    {
        match quote_json(sdp) {
            Ok(q) => self.on_offer_quoted(Some(q)),
            Err(_) => self.on_offer_quoted(None),
        }
    }

    /// A signaling message of kind `kind` arrived with data `data`; `sdp` is
    /// the `sdp` string of the data, if any. An answer is applied (or ends the
    /// session when it has no description, or comes before the offer); a
    /// candidate is handed on; anything else is dropped.
    pub fn on_signal(&mut self, kind: SignalKind, sdp: Option<String>, data: serde_json::Value) -> (a:
        SessionAction)
        ensures
            (final(self)@, a.view()) == old(self)@.step(
                SessionInput::Signal(
                    kind,
                    opt_text(sdp),
                ),
            ),
            a matches SessionAction::AddCandidate(d) ==> d == data,
    {
        if self.state == SignalingState::Closed {
            return SessionAction::Idle;
        }
        match kind {
            SignalKind::Answer => {
                if self.state == SignalingState::Created {
                    return self.end(Some(SignalingError::NoActiveSession));
                }
                match sdp {
                    Some(s) => SessionAction::ApplyAnswer(s),
                    None => self.end(Some(SignalingError::MalformedAnswer)),
                }
            },
            SignalKind::Candidate => SessionAction::AddCandidate(data),
            _ => SessionAction::Ignore(IgnoreReason::UnknownEvent),
        }
    }

    /// A signaling message arrived. Its event name decides its kind; for an
    /// answer, the `sdp` string member of its data is the description applied
    /// (an answer without one ends the session).
    pub fn on_message(&mut self, msg: SignalMessage) -> (a: SessionAction)
        ensures
            kind_of(msg.event@) != SignalKind::Answer ==> (final(self)@, a.view()) == old(
                self,
            )@.step(SessionInput::Signal(kind_of(msg.event@), None)),
            kind_of(msg.event@) == SignalKind::Answer ==> (final(self)@, a.view()) == old(
                self,
            )@.step(SessionInput::Signal(SignalKind::Answer, json_str_member(msg.data, "sdp"@))),
            a matches SessionAction::AddCandidate(d) ==> d == msg.data,
    {
        let kind = signal_kind(msg.event.as_str());
        let sdp = match kind {
            SignalKind::Answer => answer_sdp(&msg.data),
            _ => None,
        };
        let ghost sdp_view = opt_text(sdp);
        let a = self.on_signal(kind, sdp, msg.data);
        assert((final(self)@, a.view()) == old(self)@.step(SessionInput::Signal(kind, sdp_view)));
        a
    }

    /// A text frame arrived that is not a signaling message: dropped.
    pub fn on_invalid_frame(&mut self) -> (a: SessionAction)
        ensures
            (final(self)@, a.view()) == old(self)@.step(SessionInput::InvalidFrame),
    {
        if self.state == SignalingState::Closed {
            SessionAction::Idle
        } else {
            SessionAction::Ignore(IgnoreReason::InvalidFrame)
        }
    }

    /// Applying the answer succeeded (`ok`) or failed; a failure ends the
    /// session.
    pub fn on_answer_applied(&mut self, ok: bool) -> (a: SessionAction)
        ensures
            (final(self)@, a.view()) == old(self)@.step(SessionInput::AnswerApplied(ok)),
    {
        if self.state == SignalingState::Closed {
            return SessionAction::Idle;
        }
        if !ok {
            return self.end(Some(SignalingError::AnswerRejected));
        }
        if self.state == SignalingState::OfferSent {
            self.state = SignalingState::AnswerApplied;
        }
        SessionAction::Idle
    }

    /// A remote candidate was handed to the peer connection. One that does not
    /// parse is dropped; one the connection refuses ends the session.
    pub fn on_candidate_done(&mut self, outcome: CandidateOutcome) -> (a: SessionAction)
        ensures
            (final(self)@, a.view()) == old(self)@.step(SessionInput::CandidateDone(outcome)),
    {
        if self.state == SignalingState::Closed {
            return SessionAction::Idle;
        }
        match outcome {
            CandidateOutcome::Added => SessionAction::Idle,
            CandidateOutcome::Malformed => SessionAction::Ignore(IgnoreReason::MalformedCandidate),
            CandidateOutcome::Failed => self.end(Some(SignalingError::CandidateRejected)),
        }
    }

    /// A local candidate was found, as JSON text: it goes to the browser in a
    /// candidate frame. The end-of-candidates mark (`None`) is dropped.
    pub fn on_local_candidate(&mut self, candidate_json: Option<&str>) -> (a: SessionAction)
        ensures
            (final(self)@, a.view()) == old(self)@.step(
                SessionInput::LocalCandidate(
                    opt_str(candidate_json),
                ),
            ),
    {
        if self.state == SignalingState::Closed {
            return SessionAction::Idle;
        }
        match candidate_json {
            Some(c) => SessionAction::Send(candidate_frame(c)),
            None => SessionAction::Idle,
        }
    }

    /// Both channels opened and the bridge was built (`ok`) or could not be.
    /// The session owns at most one bridge; one built after the session ended,
    /// or beside a running one, is to be stopped at once.
    pub fn on_bridge_started(&mut self, ok: bool) -> (a: SessionAction)
        ensures
            (final(self)@, a.view()) == old(self)@.step(SessionInput::BridgeStarted(ok)),
    {
        if self.state == SignalingState::Closed {
            return if ok {
                SessionAction::ShutdownBridge
            } else {
                SessionAction::Idle
            };
        }
        if !ok {
            SessionAction::Idle
        } else if self.bridge {
            SessionAction::ShutdownBridge
        } else {
            self.state = SignalingState::Bridging;
            self.bridge = true;
            SessionAction::Idle
        }
    }

    /// The browser closed the signaling transport: the session ends.
    pub fn on_transport_closed(&mut self) -> (a: SessionAction)
        ensures
            (final(self)@, a.view()) == old(self)@.step(SessionInput::TransportClosed),
    {
        if self.state == SignalingState::Closed {
            return SessionAction::Idle;
        }
        self.end(None)
    }

    /// The signaling transport failed: the session ends.
    pub fn on_transport_error(&mut self) -> (a: SessionAction)
        ensures
            (final(self)@, a.view()) == old(self)@.step(SessionInput::TransportError),
    {
        if self.state == SignalingState::Closed {
            return SessionAction::Idle;
        }
        self.end(Some(SignalingError::Transport))
    }
}

/// A candidate message, and a candidate that does not parse, never end an open
/// session; an answer without a session description always ends it, with
/// `MalformedAnswer` once the offer went out.
pub proof fn lemma_candidate_not_fatal_answer_fatal(v: SessionView, sdp: Option<Seq<char>>)
    requires
        v.state != SignalingState::Closed,
    ensures
        v.step(SessionInput::Signal(SignalKind::Candidate, sdp)) == (v, SessionOutput::AddCandidate),
        v.step(SessionInput::CandidateDone(CandidateOutcome::Malformed)) == (
            v,
            SessionOutput::Ignore(IgnoreReason::MalformedCandidate),
        ),
        v.step(SessionInput::Signal(SignalKind::Answer, None)).0.state == SignalingState::Closed,
        v.step(SessionInput::Signal(SignalKind::Answer, None)).1 is End,
        v.state != SignalingState::Created ==> v.step(SessionInput::Signal(SignalKind::Answer, None))
            == (
            SessionView { state: SignalingState::Closed, bridge: false },
            SessionOutput::End(v.bridge, Some(SignalingError::MalformedAnswer)),
        ),
{
}

/// Whenever a step ends the session, it asks to stop the bridge exactly when
/// the session owned one, and leaves the session closed without a bridge; a
/// closed session stays closed and ends no more.
pub proof fn lemma_end_stops_bridge(v: SessionView, input: SessionInput)
    ensures
        v.step(input).1 matches SessionOutput::End(stop, _) ==> {
            &&& stop == v.bridge
            &&& v.step(input).0 == (SessionView { state: SignalingState::Closed, bridge: false })
        },
        v.state == SignalingState::Closed ==> {
            &&& v.step(input).0 == v
            &&& !(v.step(input).1 is End)
        },
{
}

} // verus!
