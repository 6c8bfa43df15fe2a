//! What happens to a session under way: the events that the driver reports,
//! and what the orchestrator makes of each.
//!
//! Every handler takes the record of the session and answers with the
//! envelope to send, if any. An event that does not fit the session's state
//! is refused and changes nothing.

use crate::counter::one_more;
use crate::session::{may_follow, AppState, SessionError, SessionFault, SessionState};
use crate::signaling::{
    is_dial_taken, is_drop_taken, role_named, Envelope, EnvelopeKind, EnvelopeView, LinkAction,
    Role, SignalingError, SignalingFault,
};
use crate::webrtc_client::{
    is_descriptor, Connectivity, NegotiationFault, OfferOutcome, LOCAL_ANSWER, LOCAL_OFFER,
};
use vstd::prelude::*;

verus! {

/// How long the host waits for a viewer to join, in milliseconds.
pub const PEER_WAIT_TIMEOUT_MS: u64 = 30_000;

/// How long the connectivity checks of one negotiation may take, in
/// milliseconds.
pub const NEGOTIATION_TIMEOUT_MS: u64 = 10_000;

/// Whether two records hold the same parts, the same viewer and the same
/// sharing flag: they differ at most in the state and in whether the further
/// attempt was used.
pub open spec fn same_parts(before: &AppState, after: &AppState) -> bool {
    &&& after.screen_capture == before.screen_capture
    &&& after.webrtc_client == before.webrtc_client
    &&& after.signaling_client == before.signaling_client
    &&& after.pipeline == before.pipeline
    &&& after.is_sharing == before.is_sharing
    &&& after.peer_id == before.peer_id
}

/// Whether the record has failed with the fault, coming from `before`, and
/// differs from it in nothing but the state.
pub open spec fn has_failed(before: &AppState, after: &AppState, fault: SessionFault) -> bool {
    &&& after.state == SessionState::Failed(fault)
    &&& after.negotiation_retried == before.negotiation_retried
    &&& same_parts(before, after)
}

/// What the begin of a negotiation attempt makes of the engine and of the
/// state, and the envelope that comes of it.
///
/// The engine starts the attempt afresh and holds its offer, waiting for the
/// answer. Over a link the offer goes to the viewer and the session is
/// negotiating; without a link the session has failed.
pub open spec fn is_offer_sent(
    before: &AppState,
    after: &AppState,
    reply: Result<Option<Envelope>, SessionError>,
) -> bool {
    &&& before.webrtc_client matches Some(was)
    &&& before.signaling_client matches Some(client)
    &&& before.peer_id matches Some(peer)
    &&& after.signaling_client == before.signaling_client
    &&& after.peer_id == before.peer_id
    &&& after.is_sharing == before.is_sharing
    &&& after.webrtc_client matches Some(engine)
    &&& engine.awaits_answer()
    &&& engine.local_session_description->0@ == LOCAL_OFFER@
    &&& !engine.is_connected
    &&& engine.pending_candidates@ == Seq::<String>::empty()
    &&& engine.applied_candidates@ == Seq::<String>::empty()
    &&& engine.role == was.role
    &&& engine.glare_ignored == was.glare_ignored
    &&& if client.is_connected {
        &&& after.state is Negotiating
        &&& reply matches Ok(Some(envelope))
        &&& envelope@ == client.outbound(EnvelopeKind::Offer, peer@, LOCAL_OFFER@)
    } else {
        &&& after.state == SessionState::Failed(
            SessionFault::Signaling(SignalingFault::NotConnected),
        )
        &&& reply matches Err(e)
        &&& e.kind == SessionFault::Signaling(SignalingFault::NotConnected)
    }
}

/// What a failed negotiation attempt comes to.
///
/// The first failure of a session is followed by one further attempt, begun
/// at once. A failure after that ends the session with the fault.
pub open spec fn is_retried_or_failed(
    before: &AppState,
    after: &AppState,
    fault: NegotiationFault,
    reply: Result<Option<Envelope>, SessionError>,
) -> bool {
    if before.negotiation_retried {
        &&& has_failed(before, after, SessionFault::Negotiation(fault))
        &&& reply matches Err(e)
        &&& e.kind == SessionFault::Negotiation(fault)
    } else {
        &&& after.negotiation_retried
        &&& after.screen_capture == before.screen_capture
        &&& after.pipeline == before.pipeline
        &&& is_offer_sent(before, after, reply)
    }
}

/// Begins a negotiation attempt with the viewer that joined.
fn begin_negotiation(state: &mut AppState) -> (reply: Result<Option<Envelope>, SessionError>)
    requires
        old(state).webrtc_client is Some,
        old(state).signaling_client is Some,
        old(state).peer_id is Some,
    ensures
        is_offer_sent(old(state), final(state), reply),
        final(state).screen_capture == old(state).screen_capture,
        final(state).pipeline == old(state).pipeline,
        final(state).negotiation_retried == old(state).negotiation_retried,
{
    let mut engine = state.webrtc_client.take().unwrap();
    let _ = engine.disconnect();
    let offer = engine.create_offer().unwrap();
    state.webrtc_client = Some(engine);
    let sent = match (&state.signaling_client, &state.peer_id) {
        (Some(client), Some(peer)) => client.send_offer(peer.as_str(), offer.as_str()),
        _ => Err(SignalingError { kind: SignalingFault::NotConnected }),
    };
    match sent {
        Ok(envelope) => {
            state.state = SessionState::Negotiating;
            Ok(Some(envelope))
        },
        Err(e) => {
            state.state = SessionState::Failed(SessionFault::Signaling(e.kind));
            Err(SessionError { kind: SessionFault::Signaling(e.kind) })
        },
    }
}

/// Follows a failed negotiation attempt with the one further attempt, or
/// ends the session if that was used.
fn retry_or_fail(fault: NegotiationFault, state: &mut AppState) -> (reply: Result<
    Option<Envelope>,
    SessionError,
>)
    requires
        old(state).webrtc_client is Some,
        old(state).signaling_client is Some,
        old(state).peer_id is Some,
    ensures
        is_retried_or_failed(old(state), final(state), fault, reply),
{
    if state.negotiation_retried {
        state.state = SessionState::Failed(SessionFault::Negotiation(fault));
        return Err(SessionError { kind: SessionFault::Negotiation(fault) });
    }
    state.negotiation_retried = true;
    begin_negotiation(state)
}

/// What an event that does not fit the state comes to: it is refused, and
/// nothing changes.
pub open spec fn is_refused(
    before: &AppState,
    after: &AppState,
    reply: Result<Option<Envelope>, SessionError>,
) -> bool {
    &&& reply matches Err(e)
    &&& e.kind == SessionFault::UnexpectedEvent
    &&& *after == *before
}

/// What a viewer's join makes of a record.
///
/// A connecting session has found its viewer and begins to negotiate with
/// it. In any other state the join does not fit.
pub open spec fn is_peer_joined(
    before: &AppState,
    after: &AppState,
    peer_id: Seq<char>,
    reply: Result<Option<Envelope>, SessionError>,
) -> bool {
    if before.state is Connecting {
        &&& after.peer_id matches Some(peer)
        &&& peer@ == peer_id
        &&& after.screen_capture == before.screen_capture
        &&& after.pipeline == before.pipeline
        &&& after.negotiation_retried == before.negotiation_retried
        &&& after.is_sharing == before.is_sharing
        &&& after.signaling_client == before.signaling_client
        &&& before.webrtc_client matches Some(was)
        &&& before.signaling_client matches Some(client)
        &&& after.webrtc_client matches Some(engine)
        &&& engine.awaits_answer()
        &&& engine.local_session_description->0@ == LOCAL_OFFER@
        &&& !engine.is_connected
        &&& engine.pending_candidates@ == Seq::<String>::empty()
        &&& engine.applied_candidates@ == Seq::<String>::empty()
        &&& engine.role == was.role
        &&& engine.glare_ignored == was.glare_ignored
        &&& if client.is_connected {
            &&& after.state is Negotiating
            &&& reply matches Ok(Some(envelope))
            &&& envelope@ == client.outbound(EnvelopeKind::Offer, peer_id, LOCAL_OFFER@)
        } else {
            &&& after.state == SessionState::Failed(
                SessionFault::Signaling(SignalingFault::NotConnected),
            )
            &&& reply matches Err(e)
            &&& e.kind == SessionFault::Signaling(SignalingFault::NotConnected)
        }
    } else {
        is_refused(before, after, reply)
    }
}

/// Takes in that a viewer joined the session.
///
/// A connecting session has found its viewer: the engine makes its offer,
/// the offer goes to the viewer, and the session is negotiating. Without a
/// link to send the offer over, the session fails. In any other state the
/// event does not fit and changes nothing.
pub fn peer_joined(peer_id: &str, state: &mut AppState) -> (reply: Result<
    Option<Envelope>,
    SessionError,
>)
    requires
        old(state).well_formed(),
    ensures
        final(state).well_formed(),
        may_follow(old(state).state, final(state).state),
        is_peer_joined(old(state), final(state), peer_id@, reply),
{
    match state.state {
        SessionState::Connecting => {},
        _ => {
            return Err(SessionError { kind: SessionFault::UnexpectedEvent });
        },
    }
    state.peer_id = Some(peer_id.to_owned());
    begin_negotiation(state)
}

/// Takes in how long the session has waited for a viewer.
///
/// `Ok(true)`: the session is connecting and the time is not up, so the
/// driver waits on. `Ok(false)`: the session is not waiting for a viewer.
/// When the time is up for a connecting session, it fails for want of a
/// viewer.
pub fn peer_wait_tick(waited_ms: u64, state: &mut AppState) -> (waiting: Result<
    bool,
    SessionError,
>)
    ensures
        old(state).well_formed() ==> final(state).well_formed(),
        may_follow(old(state).state, final(state).state),
        !(old(state).state is Connecting) ==> waiting == Ok::<bool, SessionError>(false)
            && *final(state) == *old(state),
        old(state).state is Connecting && waited_ms < PEER_WAIT_TIMEOUT_MS ==> waiting == Ok::<
            bool,
            SessionError,
        >(true) && *final(state) == *old(state),
        old(state).state is Connecting && waited_ms >= PEER_WAIT_TIMEOUT_MS ==> {
            &&& waiting matches Err(e)
            &&& e.kind == SessionFault::NoPeerJoined
            &&& has_failed(old(state), final(state), SessionFault::NoPeerJoined)
        },
{
    match state.state {
        SessionState::Connecting => {},
        _ => {
            return Ok(false);
        },
    }
    if waited_ms < PEER_WAIT_TIMEOUT_MS {
        return Ok(true);
    }
    state.state = SessionState::Failed(SessionFault::NoPeerJoined);
    Err(SessionError { kind: SessionFault::NoPeerJoined })
}

/// Whether two records differ in the signaling client and the state alone.
pub open spec fn same_but_link(before: &AppState, after: &AppState) -> bool {
    &&& after.screen_capture == before.screen_capture
    &&& after.webrtc_client == before.webrtc_client
    &&& after.pipeline == before.pipeline
    &&& after.is_sharing == before.is_sharing
    &&& after.peer_id == before.peer_id
    &&& after.negotiation_retried == before.negotiation_retried
}

/// The reply of the orchestrator as the signaling client gave it: the action
/// as it is, and a fault of the transport without its wrapping.
pub open spec fn link_reply(reply: Result<LinkAction, SessionError>) -> Result<
    LinkAction,
    SignalingError,
> {
    match reply {
        Ok(action) => Ok(action),
        Err(e) => Err(
            SignalingError {
                kind: match e.kind {
                    SessionFault::Signaling(fault) => fault,
                    _ => SignalingFault::Unreachable,
                },
            },
        ),
    }
}

/// What the result of a dial makes of a record.
///
/// The signaling client takes the result in. When it gives the run of dials
/// up, a session under way fails with the client's fault.
pub open spec fn is_dial_reported(
    before: &AppState,
    after: &AppState,
    up: bool,
    reply: Result<LinkAction, SessionError>,
) -> bool {
    match before.signaling_client {
        Some(was) => {
            &&& same_but_link(before, after)
            &&& after.signaling_client matches Some(client)
            &&& is_dial_taken(&was, &client, up, link_reply(reply))
            &&& reply matches Err(e) ==> e.kind is Signaling
            &&& after.state == if reply is Err && before.state.is_active() {
                SessionState::Failed(reply->Err_0.kind)
            } else {
                before.state
            }
        },
        None => {
            &&& reply matches Err(e)
            &&& e.kind == SessionFault::UnexpectedEvent
            &&& *after == *before
        },
    }
}

/// Takes in the result of the dial that the driver made for the signaling
/// client, and says what the driver does next.
///
/// A run of dials that ends without a link fails a session under way.
/// Without a signaling client there is nothing to dial for.
pub fn dial_finished(up: bool, state: &mut AppState) -> (reply: Result<LinkAction, SessionError>)
    ensures
        old(state).well_formed() ==> final(state).well_formed(),
        may_follow(old(state).state, final(state).state),
        is_dial_reported(old(state), final(state), up, reply),
{
    let mut client = match state.signaling_client.take() {
        Some(client) => client,
        None => {
            return Err(SessionError { kind: SessionFault::UnexpectedEvent });
        },
    };
    let next = client.dial_finished(up);
    state.signaling_client = Some(client);
    match next {
        Ok(action) => Ok(action),
        Err(e) => {
            if state.state.active() {
                state.state = SessionState::Failed(SessionFault::Signaling(e.kind));
            }
            Err(SessionError { kind: SessionFault::Signaling(e.kind) })
        },
    }
}

/// Takes in that the link to the service was lost, and says what the driver
/// does next.
///
/// The session stays as it is while the signaling client dials again under
/// the ids it has. Without a signaling client nothing is done.
pub fn link_dropped(state: &mut AppState) -> (action: LinkAction)
    ensures
        old(state).well_formed() ==> final(state).well_formed(),
        final(state).state == old(state).state,
        same_but_link(old(state), final(state)),
        match old(state).signaling_client {
            Some(was) => final(state).signaling_client matches Some(client) && is_drop_taken(
                &was,
                &client,
                action,
            ),
            None => action is Idle && final(state).signaling_client is None,
        },
{
    let mut client = match state.signaling_client.take() {
        Some(client) => client,
        None => {
            return LinkAction::Idle;
        },
    };
    let action = client.link_dropped();
    state.signaling_client = Some(client);
    action
}

/// Takes in that the signaling transport gave up.
///
/// A session under way fails with the transport's fault. Without one there
/// is nothing to fail.
pub fn signaling_failed(fault: SignalingFault, state: &mut AppState)
    ensures
        old(state).well_formed() ==> final(state).well_formed(),
        may_follow(old(state).state, final(state).state),
        old(state).state.is_active() ==> has_failed(
            old(state),
            final(state),
            SessionFault::Signaling(fault),
        ),
        !old(state).state.is_active() ==> *final(state) == *old(state),
{
    if state.state.active() {
        state.state = SessionState::Failed(SessionFault::Signaling(fault));
    }
}

/// Whether the record differs from `before` in the engine alone.
pub open spec fn same_but_engine(before: &AppState, after: &AppState) -> bool {
    &&& after.state == before.state
    &&& after.negotiation_retried == before.negotiation_retried
    &&& after.screen_capture == before.screen_capture
    &&& after.signaling_client == before.signaling_client
    &&& after.pipeline == before.pipeline
    &&& after.is_sharing == before.is_sharing
    &&& after.peer_id == before.peer_id
    &&& after.webrtc_client is Some
}

/// What the viewer's answer makes of a record.
///
/// While negotiating, an answer that the engine takes becomes the remote
/// descriptor, and the candidates that waited for it are applied; one that
/// the engine refuses fails the attempt. In any other state the answer does
/// not fit.
pub open spec fn is_answer_taken(
    before: &AppState,
    after: &AppState,
    answer: Seq<char>,
    reply: Result<Option<Envelope>, SessionError>,
) -> bool {
    if before.state is Negotiating {
        let was = before.webrtc_client->0;
        if was.awaits_answer() && is_descriptor(answer) {
            &&& reply matches Ok(None)
            &&& same_but_engine(before, after)
            &&& after.webrtc_client matches Some(engine)
            &&& engine.remote_session_description matches Some(remote)
            &&& remote@ == answer
            &&& engine.local_session_description == was.local_session_description
            &&& engine.local_is_offer
            &&& engine.has_applied_pending(&was)
            &&& engine.same_standing(&was)
        } else {
            is_retried_or_failed(
                before,
                after,
                if was.awaits_answer() {
                    NegotiationFault::InvalidDescriptor
                } else {
                    NegotiationFault::UnexpectedState
                },
                reply,
            )
        }
    } else {
        is_refused(before, after, reply)
    }
}

/// Takes in the viewer's answer to the engine's offer.
///
/// While negotiating, an answer that the engine takes becomes the remote
/// descriptor, and the candidates that waited for it are applied. One that
/// the engine refuses fails the attempt. In any other state the event does
/// not fit and changes nothing.
pub fn answer_received(answer: &str, state: &mut AppState) -> (reply: Result<
    Option<Envelope>,
    SessionError,
>)
    requires
        old(state).well_formed(),
    ensures
        final(state).well_formed(),
        may_follow(old(state).state, final(state).state),
        is_answer_taken(old(state), final(state), answer@, reply),
{
    match state.state {
        SessionState::Negotiating => {},
        _ => {
            return Err(SessionError { kind: SessionFault::UnexpectedEvent });
        },
    }
    let mut engine = state.webrtc_client.take().unwrap();
    let set = engine.set_remote_description(answer);
    state.webrtc_client = Some(engine);
    match set {
        Ok(()) => Ok(None),
        Err(e) => retry_or_fail(e.kind, state),
    }
}

/// What one candidate of the viewer makes of a record.
///
/// While negotiating or streaming the engine takes the candidate in, and
/// there is nothing to send. In any other state the candidate does not fit.
pub open spec fn is_candidate_taken(
    before: &AppState,
    after: &AppState,
    candidate: Seq<char>,
    reply: Result<Option<Envelope>, SessionError>,
) -> bool {
    if before.state is Negotiating || before.state is Streaming {
        &&& reply matches Ok(None)
        &&& same_but_engine(before, after)
        &&& after.webrtc_client->0.has_added(&before.webrtc_client->0, candidate)
    } else {
        is_refused(before, after, reply)
    }
}

/// Takes in one candidate of the viewer.
///
/// While negotiating or streaming the engine takes the candidate in, to
/// apply it now or once the remote descriptor is set. In any other state the
/// event does not fit and changes nothing.
pub fn candidate_received(candidate: &str, state: &mut AppState) -> (reply: Result<
    Option<Envelope>,
    SessionError,
>)
    requires
        old(state).well_formed(),
    ensures
        final(state).well_formed(),
        may_follow(old(state).state, final(state).state),
        is_candidate_taken(old(state), final(state), candidate@, reply),
{
    match state.state {
        SessionState::Negotiating | SessionState::Streaming => {},
        _ => {
            return Err(SessionError { kind: SessionFault::UnexpectedEvent });
        },
    }
    let mut engine = state.webrtc_client.take().unwrap();
    let _ = engine.add_ice_candidate(candidate);
    state.webrtc_client = Some(engine);
    Ok(None)
}

/// Whether an offer of the viewer crosses the host's own: the session is
/// negotiating, and the host's engine holds an offer that waits for its
/// answer.
pub open spec fn is_glare(state: &AppState) -> bool {
    &&& state.state is Negotiating
    &&& state.webrtc_client matches Some(engine)
    &&& engine.role is Host
    &&& engine.awaits_answer()
}

/// What becomes of a record on which an offer crossed the host's own: the
/// offer is counted as dropped, and nothing else differs. The host's offer
/// stands, and the session goes on negotiating.
pub open spec fn is_glare_ignored(before: &AppState, after: &AppState) -> bool {
    &&& same_but_engine(before, after)
    &&& before.webrtc_client matches Some(was)
    &&& after.webrtc_client matches Some(engine)
    &&& engine.glare_ignored == one_more(was.glare_ignored)
    &&& engine.is_connected == was.is_connected
    &&& engine.role == was.role
    &&& engine.local_session_description == was.local_session_description
    &&& engine.remote_session_description == was.remote_session_description
    &&& engine.local_is_offer == was.local_is_offer
    &&& engine.same_candidates(&was)
}

/// What an offer of the viewer makes of a record.
///
/// While negotiating, an offer that crosses the host's own is dropped,
/// which is no error. An offer that the engine takes is answered, and the
/// answer goes to the viewer over the link; without a link the session
/// fails. One that the engine refuses fails the attempt. In any other state
/// the offer does not fit.
pub open spec fn is_offer_taken(
    before: &AppState,
    after: &AppState,
    offer: Seq<char>,
    reply: Result<Option<Envelope>, SessionError>,
) -> bool {
    if !(before.state is Negotiating) {
        is_refused(before, after, reply)
    } else if is_glare(before) {
        &&& reply matches Ok(None)
        &&& is_glare_ignored(before, after)
    } else {
        let was = before.webrtc_client->0;
        let client = before.signaling_client->0;
        let fits = was.awaits_answer() || was.has_no_descriptor();
        if fits && is_descriptor(offer) {
            &&& after.webrtc_client matches Some(engine)
            &&& engine.has_answered(&was, offer)
            &&& after.negotiation_retried == before.negotiation_retried
            &&& after.screen_capture == before.screen_capture
            &&& after.signaling_client == before.signaling_client
            &&& after.pipeline == before.pipeline
            &&& after.is_sharing == before.is_sharing
            &&& after.peer_id == before.peer_id
            &&& if client.is_connected {
                &&& after.state is Negotiating
                &&& reply matches Ok(Some(envelope))
                &&& envelope@ == client.outbound(
                    EnvelopeKind::Answer,
                    before.peer_id->0@,
                    LOCAL_ANSWER@,
                )
            } else {
                &&& after.state == SessionState::Failed(
                    SessionFault::Signaling(SignalingFault::NotConnected),
                )
                &&& reply matches Err(e)
                &&& e.kind == SessionFault::Signaling(SignalingFault::NotConnected)
            }
        } else {
            is_retried_or_failed(
                before,
                after,
                if fits {
                    NegotiationFault::InvalidDescriptor
                } else {
                    NegotiationFault::UnexpectedState
                },
                reply,
            )
        }
    }
}

/// Takes in an offer that the viewer sent.
///
/// While negotiating, an offer that crosses the host's own is dropped and
/// counted; that is no error, and the session goes on negotiating on the
/// host's offer. An offer that the engine takes is answered, and the answer
/// goes to the viewer, if there is a link; without one the session fails.
/// One that the engine refuses fails the attempt. In any other state the
/// event does not fit and changes nothing.
pub fn offer_received(offer: &str, state: &mut AppState) -> (reply: Result<
    Option<Envelope>,
    SessionError,
>)
    requires
        old(state).well_formed(),
    ensures
        final(state).well_formed(),
        may_follow(old(state).state, final(state).state),
        is_offer_taken(old(state), final(state), offer@, reply),
{
    match state.state {
        SessionState::Negotiating => {},
        _ => {
            return Err(SessionError { kind: SessionFault::UnexpectedEvent });
        },
    }
    let mut engine = state.webrtc_client.take().unwrap();
    let taken = engine.receive_offer(offer);
    state.webrtc_client = Some(engine);
    match taken {
        Ok(OfferOutcome::GlareIgnored) => Ok(None),
        Ok(OfferOutcome::Answered(answer)) => {
            let sent = match (&state.signaling_client, &state.peer_id) {
                (Some(client), Some(peer)) => client.send_answer(peer.as_str(), answer.as_str()),
                _ => Err(SignalingError { kind: SignalingFault::NotConnected }),
            };
            match sent {
                Ok(envelope) => Ok(Some(envelope)),
                Err(e) => {
                    state.state = SessionState::Failed(SessionFault::Signaling(e.kind));
                    Err(SessionError { kind: SessionFault::Signaling(e.kind) })
                },
            }
        },
        Err(e) => retry_or_fail(e.kind, state),
    }
}

/// The handler that an envelope goes to.
pub enum Route {
    /// The envelope is not meant for this session, or says nothing to a host.
    Dropped,
    /// The service refuses the membership.
    Refused,
    /// A viewer joined.
    Joined,
    /// The viewer offers.
    Offer,
    /// The viewer answers.
    Answer,
    /// The viewer names a candidate.
    Candidate,
}

/// Where an envelope that arrived goes.
///
/// Only an envelope that the signaling client accepts goes anywhere. An
/// error envelope is the service's refusal. A join counts when a viewer
/// sends it and says who it is. A leave changes nothing for the host.
pub open spec fn route_of(state: &AppState, envelope: EnvelopeView) -> Route {
    match state.signaling_client {
        Some(client) => if !client.is_addressed(envelope) {
            Route::Dropped
        } else {
            match envelope.kind {
                EnvelopeKind::Error => Route::Refused,
                EnvelopeKind::Join => if role_named(envelope.payload) == Some(Role::Viewer)
                    && envelope.from_id is Some {
                    Route::Joined
                } else {
                    Route::Dropped
                },
                EnvelopeKind::Leave => Route::Dropped,
                EnvelopeKind::Offer => Route::Offer,
                EnvelopeKind::Answer => Route::Answer,
                EnvelopeKind::Candidate => Route::Candidate,
            }
        },
        None => Route::Dropped,
    }
}

/// What the service's refusal makes of a record: the signaling client is
/// back at the membership it had before the join that was refused, and a
/// session under way has failed with the refusal.
pub open spec fn is_refusal_taken(
    before: &AppState,
    after: &AppState,
    reply: Result<Option<Envelope>, SessionError>,
) -> bool {
    &&& reply matches Err(e)
    &&& e.kind == SessionFault::Signaling(SignalingFault::Rejected)
    &&& after.state == if before.state.is_active() {
        SessionState::Failed(SessionFault::Signaling(SignalingFault::Rejected))
    } else {
        before.state
    }
    &&& before.signaling_client matches Some(was)
    &&& after.signaling_client matches Some(client)
    &&& client.refused_from(&was)
    &&& after.screen_capture == before.screen_capture
    &&& after.webrtc_client == before.webrtc_client
    &&& after.pipeline == before.pipeline
    &&& after.is_sharing == before.is_sharing
    &&& after.peer_id == before.peer_id
    &&& after.negotiation_retried == before.negotiation_retried
}

/// Takes in an envelope that arrived over the link, and hands it to the
/// handler it is for.
///
/// An envelope that is not meant for this session is dropped, and so is a
/// leave and a join that no viewer sent; nothing changes then. The service's
/// refusal ends the membership and fails a session under way. A viewer's
/// join, offer, answer and candidate are taken in as `peer_joined`,
/// `offer_received`, `answer_received` and `candidate_received` take them.
pub fn envelope_received(envelope: Envelope, state: &mut AppState) -> (reply: Result<
    Option<Envelope>,
    SessionError,
>)
    requires
        old(state).well_formed(),
    ensures
        final(state).well_formed(),
        may_follow(old(state).state, final(state).state),
        match route_of(old(state), envelope@) {
            Route::Dropped => reply matches Ok(None) && *final(state) == *old(state),
            Route::Refused => is_refusal_taken(old(state), final(state), reply),
            Route::Joined => is_peer_joined(
                old(state),
                final(state),
                envelope@.from_id->0,
                reply,
            ),
            Route::Offer => is_offer_taken(old(state), final(state), envelope@.payload, reply),
            Route::Answer => is_answer_taken(old(state), final(state), envelope@.payload, reply),
            Route::Candidate => is_candidate_taken(
                old(state),
                final(state),
                envelope@.payload,
                reply,
            ),
        },
{
    let mut client = match state.signaling_client.take() {
        Some(client) => client,
        None => {
            return Ok(None);
        },
    };
    let delivered = client.on_envelope(envelope);
    state.signaling_client = Some(client);
    let envelope = match delivered {
        Ok(Some(envelope)) => envelope,
        Ok(None) => {
            return Ok(None);
        },
        Err(e) => {
            if state.state.active() {
                state.state = SessionState::Failed(SessionFault::Signaling(e.kind));
            }
            return Err(SessionError { kind: SessionFault::Signaling(e.kind) });
        },
    };
    match envelope.kind {
        EnvelopeKind::Join => {
            match (Role::from_wire_name(envelope.payload.as_str()), &envelope.from_id) {
                (Some(Role::Viewer), Some(peer)) => peer_joined(peer.as_str(), state),
                _ => Ok(None),
            }
        },
        EnvelopeKind::Offer => offer_received(envelope.payload.as_str(), state),
        EnvelopeKind::Answer => answer_received(envelope.payload.as_str(), state),
        EnvelopeKind::Candidate => candidate_received(envelope.payload.as_str(), state),
        EnvelopeKind::Leave | EnvelopeKind::Error => Ok(None),
    }
}

/// What becomes of a record whose negotiation ended with a connected
/// transport: the capture source begins a run on the default display, the
/// pipeline runs, the further attempt is there to be used again, and the
/// session is streaming.
pub open spec fn is_streaming_begun(before: &AppState, after: &AppState) -> bool {
    &&& after.state is Streaming
    &&& !after.negotiation_retried
    &&& after.signaling_client == before.signaling_client
    &&& after.is_sharing == before.is_sharing
    &&& after.peer_id == before.peer_id
    &&& before.webrtc_client matches Some(was)
    &&& after.webrtc_client matches Some(engine)
    &&& engine.is_connected
    &&& engine.same_negotiation(&was)
    &&& before.screen_capture matches Some(idle)
    &&& after.screen_capture matches Some(capture)
    &&& capture.is_capturing
    &&& capture.display_id is None
    &&& capture.next_sequence == 0
    &&& capture.displays == idle.displays
    &&& before.pipeline matches Some(waiting)
    &&& after.pipeline matches Some(pipeline)
    &&& pipeline.running()
    &&& pipeline.depth_limit() == waiting.depth_limit()
    &&& if waiting.running() {
        pipeline == waiting
    } else {
        pipeline.is_clear()
    }
}

/// What a report of the connectivity checks makes of a record.
///
/// While negotiating, the engine takes the report in, within the time that
/// a negotiation is allowed. A connected transport begins the streaming; a
/// wait that goes on changes nothing; a failure fails the attempt. In any
/// other state the report does not fit.
pub open spec fn is_connectivity_taken(
    before: &AppState,
    after: &AppState,
    report: Connectivity,
    waited_ms: u64,
    reply: Result<Option<Envelope>, SessionError>,
) -> bool {
    if before.state is Negotiating {
        match before.webrtc_client->0.connect_outcome(report, waited_ms, NEGOTIATION_TIMEOUT_MS) {
            Ok(true) => reply matches Ok(None) && is_streaming_begun(before, after),
            Ok(false) => reply matches Ok(None) && *after == *before,
            Err(e) => is_retried_or_failed(before, after, e.kind, reply),
        }
    } else {
        is_refused(before, after, reply)
    }
}

/// Takes in what the connectivity checks report after `waited_ms`.
///
/// While negotiating, a connected transport begins the streaming. A report
/// that leaves the engine waiting changes nothing: the checks still run, or
/// the viewer's answer is still to come, and the time is not up. Checks
/// that failed, or a wait whose time is up, fail the attempt. In any other
/// state the event does not fit and changes nothing.
pub fn connectivity_reported(report: Connectivity, waited_ms: u64, state: &mut AppState) -> (reply:
    Result<Option<Envelope>, SessionError>)
    requires
        old(state).well_formed(),
    ensures
        final(state).well_formed(),
        may_follow(old(state).state, final(state).state),
        is_connectivity_taken(old(state), final(state), report, waited_ms, reply),
{
    match state.state {
        SessionState::Negotiating => {},
        _ => {
            return Err(SessionError { kind: SessionFault::UnexpectedEvent });
        },
    }
    let mut engine = state.webrtc_client.take().unwrap();
    let outcome = engine.connect(report, waited_ms, NEGOTIATION_TIMEOUT_MS);
    state.webrtc_client = Some(engine);
    match outcome {
        Ok(true) => {
            let mut capture = state.screen_capture.take().unwrap();
            let _ = capture.start_capture(None);
            state.screen_capture = Some(capture);
            let mut pipeline = state.pipeline.take().unwrap();
            pipeline.start();
            state.pipeline = Some(pipeline);
            state.negotiation_retried = false;
            state.state = SessionState::Streaming;
            Ok(None)
        },
        Ok(false) => Ok(None),
        Err(e) => retry_or_fail(e.kind, state),
    }
}

/// What becomes of a streaming record that negotiates again: the pipeline
/// and the capture run end, and a negotiation attempt begins.
pub open spec fn is_renegotiating(
    before: &AppState,
    after: &AppState,
    reply: Result<Option<Envelope>, SessionError>,
) -> bool {
    &&& is_offer_sent(before, after, reply)
    &&& before.pipeline matches Some(streaming)
    &&& after.pipeline matches Some(pipeline)
    &&& !pipeline.running()
    &&& pipeline.in_flight() is None
    &&& pipeline.depth_limit() == streaming.depth_limit()
    &&& pipeline.sent_sequences() == streaming.sent_sequences()
    &&& pipeline.dropped() == streaming.dropped()
    &&& before.screen_capture matches Some(capturing)
    &&& after.screen_capture matches Some(capture)
    &&& !capture.is_capturing
    &&& capture.display_id is None
    &&& capture.displays == capturing.displays
    &&& capture.next_sequence == capturing.next_sequence
}

/// Ends the streaming and begins a negotiation attempt.
fn renegotiate(state: &mut AppState) -> (reply: Result<Option<Envelope>, SessionError>)
    requires
        old(state).well_formed(),
        old(state).state is Streaming,
    ensures
        is_renegotiating(old(state), final(state), reply),
        final(state).negotiation_retried == old(state).negotiation_retried,
{
    let mut pipeline = state.pipeline.take().unwrap();
    pipeline.stop();
    state.pipeline = Some(pipeline);
    let mut capture = state.screen_capture.take().unwrap();
    let _ = capture.stop_capture();
    state.screen_capture = Some(capture);
    begin_negotiation(state)
}

/// Takes in that the transport did not take a unit.
///
/// That ends the streaming phase, not the session: a streaming session goes
/// back to negotiating, on the one attempt it has; should that fail, the
/// session does. In any other state the event does not fit and changes
/// nothing.
pub fn send_failed(state: &mut AppState) -> (reply: Result<Option<Envelope>, SessionError>)
    requires
        old(state).well_formed(),
    ensures
        final(state).well_formed(),
        may_follow(old(state).state, final(state).state),
        !(old(state).state is Streaming) ==> is_refused(old(state), final(state), reply),
        old(state).state is Streaming ==> {
            &&& final(state).negotiation_retried
            &&& is_renegotiating(old(state), final(state), reply)
        },
{
    match state.state {
        SessionState::Streaming => {},
        _ => {
            return Err(SessionError { kind: SessionFault::UnexpectedEvent });
        },
    }
    state.negotiation_retried = true;
    renegotiate(state)
}

/// Takes in that the network path to the viewer changed.
///
/// A streaming session goes back to negotiating without leaving the session,
/// and has its further attempt to use. In any other state the event does not
/// fit and changes nothing.
pub fn path_changed(state: &mut AppState) -> (reply: Result<Option<Envelope>, SessionError>)
    requires
        old(state).well_formed(),
    ensures
        final(state).well_formed(),
        may_follow(old(state).state, final(state).state),
        !(old(state).state is Streaming) ==> is_refused(old(state), final(state), reply),
        old(state).state is Streaming ==> {
            &&& !final(state).negotiation_retried
            &&& is_renegotiating(old(state), final(state), reply)
        },
{
    match state.state {
        SessionState::Streaming => {},
        _ => {
            return Err(SessionError { kind: SessionFault::UnexpectedEvent });
        },
    }
    state.negotiation_retried = false;
    renegotiate(state)
}

/// An offer that crosses the host's own does not fail the session. Whatever
/// the offer holds, no error comes back, the session goes on negotiating,
/// the host's offer stands as it was, the transport is as connected as it
/// was, and the crossing is counted once.
pub proof fn lemma_glare_keeps_negotiating(
    before: AppState,
    after: AppState,
    offer: Seq<char>,
    reply: Result<Option<Envelope>, SessionError>,
)
    requires
        is_glare(&before),
        is_offer_taken(&before, &after, offer, reply),
    ensures
        reply matches Ok(None),
        after.state is Negotiating,
        after.negotiation_retried == before.negotiation_retried,
        after.webrtc_client matches Some(engine) && {
            let was = before.webrtc_client->0;
            &&& engine.awaits_answer()
            &&& engine.local_session_description == was.local_session_description
            &&& engine.is_connected == was.is_connected
            &&& engine.glare_ignored == one_more(was.glare_ignored)
        },
        is_glare(&after),
{
}

/// Once offer and answer are exchanged, a report that a path was found
/// brings the session to streaming, however long the checks took: the
/// transport is connected, the capture run and the pipeline are under way,
/// and there is nothing to send.
pub proof fn lemma_connected_report_streams(
    before: AppState,
    after: AppState,
    waited_ms: u64,
    reply: Result<Option<Envelope>, SessionError>,
)
    requires
        before.state is Negotiating,
        before.webrtc_client matches Some(engine) && engine.is_negotiated(),
        is_connectivity_taken(&before, &after, Connectivity::Connected, waited_ms, reply),
    ensures
        reply matches Ok(None),
        after.state is Streaming,
        after.webrtc_client matches Some(engine) && engine.is_connected,
        after.screen_capture matches Some(capture) && capture.is_capturing,
        after.pipeline matches Some(pipeline) && pipeline.running(),
{
}

/// A report that comes while the viewer's answer is still out does not fail
/// the attempt before the time is up: the session waits, unchanged.
pub proof fn lemma_report_before_the_answer_waits(
    before: AppState,
    after: AppState,
    report: Connectivity,
    waited_ms: u64,
    reply: Result<Option<Envelope>, SessionError>,
)
    requires
        before.state is Negotiating,
        before.webrtc_client matches Some(engine) && !engine.is_connected
            && !engine.is_negotiated(),
        !(report is Failed),
        waited_ms < NEGOTIATION_TIMEOUT_MS,
        is_connectivity_taken(&before, &after, report, waited_ms, reply),
    ensures
        reply matches Ok(None),
        after == before,
{
}

} // verus!
