//! The session orchestrator: one sharing session from start to stop.
//!
//! The orchestrator owns the capture source, the negotiation engine, the
//! signaling client and the frame pipeline, and it alone changes the
//! session's state. The driver tells it what happened; it answers with the
//! envelope to send, if any, and with the fault that ended the session, if
//! one did.

use crate::pipeline::{FramePipeline, DEFAULT_QUEUE_DEPTH};
use crate::screen_capture::ScreenCapture;
use crate::session_id::{generate_session_id, is_session_id, is_valid_session_id};
use crate::signaling::{
    membership_envelope, signaling_fault_text, Envelope, EnvelopeKind, Membership, Role,
    SignalingClient, SignalingError, SignalingFault,
};
use crate::webrtc_client::{negotiation_fault_text, NegotiationFault, WebRTCClient, WebRTCError};
use vstd::prelude::*;

verus! {

/// Why a session did not start, or why it ended.
#[derive(Debug, Clone, Copy, PartialEq, Eq, Structural)]
pub enum SessionFault {
    /// A session is under way already.
    AlreadyActive,
    /// The last session failed and has not been stopped yet.
    StopRequired,
    /// The session id or the user id cannot be used.
    Configuration,
    /// No viewer joined within the time allowed.
    NoPeerJoined,
    /// The event does not fit the state the session is in.
    UnexpectedEvent,
    /// The signaling transport gave up.
    Signaling(SignalingFault),
    /// The negotiation failed, and so did the one further attempt.
    Negotiation(NegotiationFault),
}

/// A fault of the session, as `start` and the event handlers report it.
#[derive(Debug, Clone, Copy, PartialEq, Eq, Structural)]
pub struct SessionError {
    pub kind: SessionFault,
}

/// The text that goes with each fault. A fault of one of the parts reads as
/// the part words it.
pub open spec fn session_fault_text(kind: SessionFault) -> Seq<char> {
    match kind {
        SessionFault::AlreadyActive => "A session is already active"@,
        SessionFault::StopRequired => "The failed session has to be stopped first"@,
        SessionFault::Configuration => "Session id or user id is not valid"@,
        SessionFault::NoPeerJoined => "No viewer joined the session"@,
        SessionFault::UnexpectedEvent => "Event does not fit the session state"@,
        SessionFault::Signaling(fault) => signaling_fault_text(fault),
        SessionFault::Negotiation(fault) => negotiation_fault_text(fault),
    }
}

impl SessionError {
    /// The fault in words, without the type's name in front.
    pub fn message(&self) -> (text: String)
        ensures
            text@ == session_fault_text(self.kind),
    {
        match self.kind {
            SessionFault::AlreadyActive => "A session is already active".to_owned(),
            SessionFault::StopRequired => "The failed session has to be stopped first".to_owned(),
            SessionFault::Configuration => "Session id or user id is not valid".to_owned(),
            SessionFault::NoPeerJoined => "No viewer joined the session".to_owned(),
            SessionFault::UnexpectedEvent => "Event does not fit the session state".to_owned(),
            SessionFault::Signaling(kind) => (SignalingError { kind }).message(),
            SessionFault::Negotiation(kind) => (WebRTCError { kind }).message(),
        }
    }

    /// The fault as it is shown to a user: the type's name, a colon, the message.
    pub fn describe(&self) -> (text: String)
        ensures
            text@ == "SessionError: "@ + session_fault_text(self.kind),
    {
        let head = "SessionError: ".to_owned();
        let tail = self.message();
        head.concat(tail.as_str())
    }
}

/// Where a session stands.
#[derive(Debug, Clone, Copy, PartialEq, Eq, Structural)]
pub enum SessionState {
    Idle,
    Connecting,
    Negotiating,
    Streaming,
    Stopping,
    Failed(SessionFault),
}

impl SessionState {
    /// Whether a session is under way: connecting, negotiating or streaming.
    pub open spec fn is_active(&self) -> bool {
        *self is Connecting || *self is Negotiating || *self is Streaming
    }

    /// Whether a session is under way.
    pub fn active(&self) -> (active: bool)
        ensures
            active == self.is_active(),
    {
        match self {
            SessionState::Connecting | SessionState::Negotiating | SessionState::Streaming => true,
            _ => false,
        }
    }
}

/// Whether a session may pass from one state to the other in one step.
///
/// A session starts from idle, finds its viewer, negotiates and streams, in
/// this order; from streaming it may go back to negotiating. From any state
/// it may fail, and from any state a stop brings it to idle.
pub open spec fn may_follow(before: SessionState, after: SessionState) -> bool {
    ||| after == before
    ||| after is Failed
    ||| after is Idle
    ||| before is Idle && after is Connecting
    ||| before is Connecting && after is Negotiating
    ||| before is Negotiating && after is Streaming
    ||| before is Streaming && after is Negotiating
}

/// No step reaches streaming but from negotiating: a session never streams
/// over a connection that was not negotiated.
pub proof fn lemma_streaming_follows_negotiating(before: SessionState, after: SessionState)
    requires
        may_follow(before, after),
        after is Streaming,
    ensures
        before is Negotiating || before is Streaming,
{
}

/// The state of a session and which of its parts exist, at one moment.
///
/// `is_sharing` is the record's flag of that name: set from a start to the
/// stop that follows it, in a failed session too.
#[derive(Debug, Clone, Copy, PartialEq, Eq, Structural)]
pub struct SessionSnapshot {
    pub state: SessionState,
    pub is_sharing: bool,
    pub has_screen_capture: bool,
    pub has_webrtc: bool,
    pub has_signaling: bool,
}

/// The address of the rendezvous service.
pub const SIGNALING_URL: &'static str = "ws://localhost:3001/signaling";

/// The one record of a session: its state and its parts.
///
/// `is_sharing` is set by a start and cleared by a stop, and by nothing
/// else: in a session that has failed it stays `true` until the stop.
/// `peer_id` is the viewer that joined. `negotiation_retried` says whether
/// the one further attempt at negotiating has been used.
pub struct AppState {
    pub screen_capture: Option<ScreenCapture>,
    pub webrtc_client: Option<WebRTCClient>,
    pub signaling_client: Option<SignalingClient>,
    pub pipeline: Option<FramePipeline>,
    pub is_sharing: bool,
    pub state: SessionState,
    pub peer_id: Option<String>,
    pub negotiation_retried: bool,
}

impl AppState {
    /// Whether no session is under way and nothing is held: the state is
    /// idle and every part is released.
    pub open spec fn is_released(&self) -> bool {
        &&& self.state is Idle
        &&& !self.is_sharing
        &&& self.screen_capture is None
        &&& self.webrtc_client is None
        &&& self.signaling_client is None
        &&& self.pipeline is None
        &&& self.peer_id is None
        &&& !self.negotiation_retried
    }

    /// Whether the record has what its state needs: all parts while a session
    /// is under way, and the viewer once one has joined.
    pub open spec fn well_formed(&self) -> bool {
        &&& self.state.is_active() ==> {
            &&& self.screen_capture is Some
            &&& self.webrtc_client is Some
            &&& self.signaling_client is Some
            &&& self.pipeline is Some
        }
        &&& (self.state is Negotiating || self.state is Streaming) ==> self.peer_id is Some
    }

    /// The record of an agent that shares nothing.
    pub fn new() -> (state: Self)
        ensures
            state.is_released(),
    {
        AppState {
            screen_capture: None,
            webrtc_client: None,
            signaling_client: None,
            pipeline: None,
            is_sharing: false,
            state: SessionState::Idle,
            peer_id: None,
            negotiation_retried: false,
        }
    }

    /// Whether the record has what its state needs.
    pub fn is_well_formed(&self) -> (ok: bool)
        ensures
            ok == self.well_formed(),
    {
        let parts: bool = self.screen_capture.is_some() && self.webrtc_client.is_some()
            && self.signaling_client.is_some() && self.pipeline.is_some();
        match self.state {
            SessionState::Connecting => parts,
            SessionState::Negotiating | SessionState::Streaming => parts && self.peer_id.is_some(),
            _ => true,
        }
    }
}

/// The session's state and which of its parts exist. Never fails, and reads
/// a failed session as it reads any other.
pub fn get_status(state: &AppState) -> (snapshot: SessionSnapshot)
    ensures
        snapshot == (SessionSnapshot {
            state: state.state,
            is_sharing: state.is_sharing,
            has_screen_capture: state.screen_capture is Some,
            has_webrtc: state.webrtc_client is Some,
            has_signaling: state.signaling_client is Some,
        }),
{
    SessionSnapshot {
        state: state.state,
        is_sharing: state.is_sharing,
        has_screen_capture: state.screen_capture.is_some(),
        has_webrtc: state.webrtc_client.is_some(),
        has_signaling: state.signaling_client.is_some(),
    }
}

/// The membership whose leave goes out when the session stops: the
/// signaling client's, where there is a link to tell the service over.
pub open spec fn farewell_of(state: &AppState) -> Option<Membership> {
    match state.signaling_client {
        Some(client) => if client.is_connected {
            client.membership()
        } else {
            None
        },
        None => None,
    }
}

/// What a stop makes of a record: everything released, and the leave
/// envelope to send, if there is one to send.
pub open spec fn is_stopped(
    before: &AppState,
    after: &AppState,
    farewell: Result<Option<Envelope>, SessionError>,
) -> bool {
    &&& after.is_released()
    &&& farewell matches Ok(sent)
    &&& match farewell_of(before) {
        Some(member) => sent matches Some(envelope) && envelope@ == membership_envelope(
            EnvelopeKind::Leave,
            member,
        ),
        None => sent is None,
    }
}

/// Stops the session, from whatever state it is in, a failed one too.
///
/// The pipeline, the negotiation engine, the signaling client and the capture
/// source are shut down in this order and released, and the session is idle.
/// Never fails. The envelope that comes back is the leave to send to the
/// service.
pub fn stop_screen_share(state: &mut AppState) -> (farewell: Result<Option<Envelope>, SessionError>)
    ensures
        is_stopped(old(state), final(state), farewell),
        may_follow(old(state).state, final(state).state),
{
    state.state = SessionState::Stopping;
    state.is_sharing = false;
    match state.pipeline.take() {
        Some(mut pipeline) => {
            pipeline.stop();
        },
        None => {},
    }
    match state.webrtc_client.take() {
        Some(mut engine) => {
            let _ = engine.disconnect();
        },
        None => {},
    }
    let mut farewell: Option<Envelope> = None;
    match state.signaling_client.take() {
        Some(mut client) => {
            match client.leave_session() {
                Ok(sent) => {
                    farewell = sent;
                },
                Err(_) => {},
            }
            let _ = client.disconnect();
        },
        None => {},
    }
    match state.screen_capture.take() {
        Some(mut capture) => {
            let _ = capture.stop_capture();
        },
        None => {},
    }
    state.peer_id = None;
    state.negotiation_retried = false;
    state.state = SessionState::Idle;
    Ok(farewell)
}

/// The fault that keeps a session from starting, if there is one.
///
/// A session under way comes first, then a failed one that was not stopped,
/// then ids that cannot be used: a session id that is given and is not one,
/// or an empty user id. No session id given means that one is to be drawn.
pub open spec fn start_fault(
    state: &AppState,
    session_id: Option<Seq<char>>,
    user_id: Seq<char>,
) -> Option<SessionFault> {
    if state.state.is_active() {
        Some(SessionFault::AlreadyActive)
    } else if !(state.state is Idle) {
        Some(SessionFault::StopRequired)
    } else if (session_id matches Some(id) && !is_session_id(id)) || user_id.len() == 0 {
        Some(SessionFault::Configuration)
    } else {
        None
    }
}

/// What a start makes of a record: the session is connecting, every part
/// exists and is at its beginning, and the signaling client's join of the
/// session as host waits for the link.
pub open spec fn is_started(after: &AppState, session_id: Seq<char>, user_id: Seq<char>) -> bool {
    &&& after.state is Connecting
    &&& after.is_sharing
    &&& after.peer_id is None
    &&& !after.negotiation_retried
    &&& after.screen_capture matches Some(capture)
    &&& capture.is_default()
    &&& after.webrtc_client matches Some(engine)
    &&& engine.is_reset()
    &&& engine.role is Host
    &&& engine.glare_ignored == 0
    &&& after.signaling_client matches Some(client)
    &&& client.server_url@ == SIGNALING_URL@
    &&& !client.is_connected
    &&& client.failed_dials == 0
    &&& client.session_id is None
    &&& client.user_id is None
    &&& client.role is None
    &&& client.previous is None
    &&& client.waiting() == Some(Membership { session_id, user_id, role: Role::Host })
    &&& after.pipeline matches Some(pipeline)
    &&& !pipeline.running()
    &&& pipeline.is_clear()
    &&& pipeline.depth_limit() == DEFAULT_QUEUE_DEPTH
}

/// Starts a session under the given session id.
///
/// From idle and with ids that can be used, the parts are made, the signaling
/// client is asked to join the session as host, and the session is
/// connecting; the id comes back. The link itself is the driver's to bring
/// up, with the signaling client's `connect`; the join goes out when a dial
/// gets through. Any fault leaves the record as it was.
pub fn start_with_session_id(session_id: &str, user_id: &str, state: &mut AppState) -> (started:
    Result<String, SessionError>)
    ensures
        started is Ok <==> start_fault(old(state), Some(session_id@), user_id@) is None,
        started matches Ok(id) ==> id@ == session_id@ && is_started(
            final(state),
            session_id@,
            user_id@,
        ),
        started matches Err(e) ==> {
            &&& *final(state) == *old(state)
            &&& Some(e.kind) == start_fault(old(state), Some(session_id@), user_id@)
        },
        may_follow(old(state).state, final(state).state),
        old(state).well_formed() ==> final(state).well_formed(),
{
    if state.state.active() {
        return Err(SessionError { kind: SessionFault::AlreadyActive });
    }
    match state.state {
        SessionState::Idle => {},
        _ => {
            return Err(SessionError { kind: SessionFault::StopRequired });
        },
    }
    if !is_valid_session_id(session_id) || user_id.is_empty() {
        return Err(SessionError { kind: SessionFault::Configuration });
    }
    let capture = ScreenCapture::new().unwrap();
    let engine = WebRTCClient::new().unwrap();
    let mut client = SignalingClient::new(SIGNALING_URL).unwrap();
    let _ = client.join_session(session_id, user_id, Role::Host);
    state.screen_capture = Some(capture);
    state.webrtc_client = Some(engine);
    state.signaling_client = Some(client);
    state.pipeline = Some(FramePipeline::new(DEFAULT_QUEUE_DEPTH));
    state.is_sharing = true;
    state.peer_id = None;
    state.negotiation_retried = false;
    state.state = SessionState::Connecting;
    Ok(session_id.to_owned())
}

/// Starts a session, under the session id given or under one drawn now.
///
/// Which id is drawn is open; it is a session id, and it is the one that
/// comes back and that the session runs under. All else is as in
/// `start_with_session_id`.
pub fn start_screen_share(
    session_id: Option<String>,
    user_id: String,
    state: &mut AppState,
) -> (started: Result<String, SessionError>)
    ensures
        started is Ok <==> start_fault(old(state), text_given(session_id), user_id@) is None,
        started matches Ok(id) ==> {
            &&& is_session_id(id@)
            &&& session_id matches Some(given) ==> id@ == given@
            &&& is_started(final(state), id@, user_id@)
        },
        started matches Err(e) ==> {
            &&& *final(state) == *old(state)
            &&& Some(e.kind) == start_fault(old(state), text_given(session_id), user_id@)
        },
        may_follow(old(state).state, final(state).state),
        old(state).well_formed() ==> final(state).well_formed(),
{
    match session_id {
        Some(given) => start_with_session_id(given.as_str(), user_id.as_str(), state),
        None => {
            if state.state.active() {
                return Err(SessionError { kind: SessionFault::AlreadyActive });
            }
            match state.state {
                SessionState::Idle => {},
                _ => {
                    return Err(SessionError { kind: SessionFault::StopRequired });
                },
            }
            if user_id.as_str().is_empty() {
                return Err(SessionError { kind: SessionFault::Configuration });
            }
            let drawn = generate_session_id();
            start_with_session_id(drawn.as_str(), user_id.as_str(), state)
        },
    }
}

/// The characters of a session id that may not be given.
pub open spec fn text_given(session_id: Option<String>) -> Option<Seq<char>> {
    match session_id {
        Some(id) => Some(id@),
        None => None,
    }
}

/// A start that is followed at once by a stop leaves the session idle and
/// every part released, whatever the ids were.
pub proof fn lemma_start_then_stop_releases(
    started: AppState,
    stopped: AppState,
    session_id: Seq<char>,
    user_id: Seq<char>,
    farewell: Result<Option<Envelope>, SessionError>,
)
    requires
        is_started(&started, session_id, user_id),
        is_stopped(&started, &stopped, farewell),
    ensures
        stopped.state is Idle,
        !stopped.is_sharing,
        stopped.screen_capture is None,
        stopped.webrtc_client is None,
        stopped.signaling_client is None,
        stopped.pipeline is None,
        farewell matches Ok(None),
{
}

/// A second stop changes nothing: the record after it is the record after
/// the first, and there is no envelope to send.
pub proof fn lemma_stop_is_idempotent(
    before: AppState,
    once: AppState,
    twice: AppState,
    first: Result<Option<Envelope>, SessionError>,
    second: Result<Option<Envelope>, SessionError>,
)
    requires
        is_stopped(&before, &once, first),
        is_stopped(&once, &twice, second),
    ensures
        twice == once,
        second matches Ok(None),
{
}

/// A stop of a session whose host is a member over a link hands back the
/// leave to send: it names the session and the host, so that the viewer
/// learns that the host has left. The session is idle after it.
pub proof fn lemma_stop_sends_the_leave(
    before: AppState,
    after: AppState,
    farewell: Result<Option<Envelope>, SessionError>,
)
    requires
        is_stopped(&before, &after, farewell),
        before.signaling_client matches Some(client) && client.is_connected
            && client.membership() is Some,
    ensures
        after.state is Idle,
        after.signaling_client is None,
        farewell matches Ok(Some(envelope)) && {
            let member = before.signaling_client->0.membership()->0;
            &&& envelope@.kind == EnvelopeKind::Leave
            &&& envelope@.session_id == Some(member.session_id)
            &&& envelope@.from_id == Some(member.user_id)
            &&& envelope@.to_id is None
        },
{
}

} // verus!
