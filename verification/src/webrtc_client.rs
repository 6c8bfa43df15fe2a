//! The negotiation engine: one peer connection's way from nothing to a
//! connected transport, by offer, answer and candidates.
//!
//! Descriptors and candidates are opaque texts. The engine keeps at most one
//! local and one remote descriptor per attempt, holds candidates back until
//! the remote descriptor is set, and settles offers that cross.

use crate::counter::{count_one_more, one_more};
use crate::signaling::Role;
use vstd::prelude::*;

verus! {

/// Why the engine refused a step or gave an attempt up.
#[derive(Debug, Clone, Copy, PartialEq, Eq, Structural)]
pub enum NegotiationFault {
    /// A local offer exists already in this attempt.
    AlreadyOffered,
    /// The descriptor is malformed.
    InvalidDescriptor,
    /// The step is out of order in this attempt.
    UnexpectedState,
    /// The connectivity checks did not end within the time allowed.
    Timeout,
    /// The connectivity checks ended without a path.
    ConnectivityFailed,
    /// There is no connected transport.
    NotConnected,
}

/// A fault of the negotiation engine.
#[derive(Debug, Clone, Copy, PartialEq, Eq, Structural)]
pub struct WebRTCError {
    pub kind: NegotiationFault,
}

/// The text that goes with each fault.
pub open spec fn negotiation_fault_text(kind: NegotiationFault) -> Seq<char> {
    match kind {
        NegotiationFault::AlreadyOffered => "An offer was already created"@,
        NegotiationFault::InvalidDescriptor => "Session description is malformed"@,
        NegotiationFault::UnexpectedState => "Negotiation step is out of order"@,
        NegotiationFault::Timeout => "Connectivity checks timed out"@,
        NegotiationFault::ConnectivityFailed => "Connectivity checks failed"@,
        NegotiationFault::NotConnected => "WebRTC peer is not connected"@,
    }
}

impl WebRTCError {
    /// The fault in words, without the type's name in front.
    pub fn message(&self) -> (text: String)
        ensures
            text@ == negotiation_fault_text(self.kind),
    {
        match self.kind {
            NegotiationFault::AlreadyOffered => "An offer was already created".to_owned(),
            NegotiationFault::InvalidDescriptor => "Session description is malformed".to_owned(),
            NegotiationFault::UnexpectedState => "Negotiation step is out of order".to_owned(),
            NegotiationFault::Timeout => "Connectivity checks timed out".to_owned(),
            NegotiationFault::ConnectivityFailed => "Connectivity checks failed".to_owned(),
            NegotiationFault::NotConnected => "WebRTC peer is not connected".to_owned(),
        }
    }

    /// The fault as it is shown to a user: the type's name, a colon, the message.
    pub fn describe(&self) -> (text: String)
        ensures
            text@ == "WebRTCError: "@ + negotiation_fault_text(self.kind),
    {
        let head = "WebRTCError: ".to_owned();
        let tail = self.message();
        head.concat(tail.as_str())
    }
}

/// The descriptor that the engine offers.
pub const LOCAL_OFFER: &'static str = r#"{
            "type": "offer",
            "sdp": "v=0\r\no=- 0 0 IN IP4 127.0.0.1\r\ns=-\r\nt=0 0\r\nm=video 9 UDP/TLS/RTP/SAVPF 96\r\nc=IN IP4 0.0.0.0\r\na=rtcp:9 IN IP4 0.0.0.0\r\na=ice-ufrag:mock\r\na=ice-pwd:mock\r\na=fingerprint:sha-256 00:00:00:00:00:00:00:00:00:00:00:00:00:00:00:00:00:00:00:00:00:00:00:00:00:00:00:00:00:00:00:00\r\na=setup:actpass\r\na=mid:0\r\na=sendonly\r\na=rtcp-mux\r\na=rtpmap:96 VP8/90000\r\n"
        }"#;

/// The descriptor that the engine answers with.
pub const LOCAL_ANSWER: &'static str = r#"{
            "type": "answer",
            "sdp": "v=0\r\no=- 0 0 IN IP4 127.0.0.1\r\ns=-\r\nt=0 0\r\nm=video 9 UDP/TLS/RTP/SAVPF 96\r\nc=IN IP4 0.0.0.0\r\na=rtcp:9 IN IP4 0.0.0.0\r\na=ice-ufrag:mock\r\na=ice-pwd:mock\r\na=fingerprint:sha-256 00:00:00:00:00:00:00:00:00:00:00:00:00:00:00:00:00:00:00:00:00:00:00:00:00:00:00:00:00:00:00:00\r\na=setup:active\r\na=mid:0\r\na=recvonly\r\na=rtcp-mux\r\na=rtpmap:96 VP8/90000\r\n"
        }"#;

/// Whether a descriptor is well formed. Descriptors are opaque, so all that
/// is asked is that there is one.
pub open spec fn is_descriptor(text: Seq<char>) -> bool {
    text.len() > 0
}

/// What the transport's connectivity checks report.
#[derive(Debug, Clone, Copy, PartialEq, Eq, Structural)]
pub enum Connectivity {
    /// The checks are still running.
    Checking,
    /// A path was found.
    Connected,
    /// The checks ended without a path.
    Failed,
}

/// What became of an offer that a peer sent.
#[derive(Debug, PartialEq, Eq)]
pub enum OfferOutcome {
    /// The offer was taken, and this is the answer to send back.
    Answered(String),
    /// The offer crossed the host's own and was dropped.
    GlareIgnored,
}

/// One peer connection's negotiation.
///
/// `local_is_offer` says whether the local descriptor is an offer.
/// Candidates wait in `pending_candidates` while there is no remote
/// descriptor; `applied_candidates` are those handed to the connection, in
/// the order they came. `glare_ignored` counts the offers dropped because
/// they crossed the host's own.
pub struct WebRTCClient {
    pub is_connected: bool,
    pub local_session_description: Option<String>,
    pub remote_session_description: Option<String>,
    pub role: Role,
    pub local_is_offer: bool,
    pub pending_candidates: Vec<String>,
    pub applied_candidates: Vec<String>,
    pub glare_ignored: u64,
}

impl WebRTCClient {
    /// Whether a local offer exists.
    pub open spec fn has_local_offer(&self) -> bool {
        self.local_session_description is Some && self.local_is_offer
    }

    /// Whether the attempt has no descriptor yet, local or remote.
    pub open spec fn has_no_descriptor(&self) -> bool {
        self.local_session_description is None && self.remote_session_description is None
    }

    /// Whether a local offer is waiting for the peer's answer.
    pub open spec fn awaits_answer(&self) -> bool {
        self.has_local_offer() && self.remote_session_description is None
    }

    /// Whether both descriptors are set.
    pub open spec fn is_negotiated(&self) -> bool {
        self.local_session_description is Some && self.remote_session_description is Some
    }

    /// Whether the engine agrees with `before` in all but the descriptors and
    /// the candidates.
    pub open spec fn same_standing(&self, before: &WebRTCClient) -> bool {
        &&& self.is_connected == before.is_connected
        &&& self.role == before.role
        &&& self.glare_ignored == before.glare_ignored
    }

    /// Whether the engine holds the candidates that `before` held, each where
    /// it was.
    pub open spec fn same_candidates(&self, before: &WebRTCClient) -> bool {
        &&& self.pending_candidates == before.pending_candidates
        &&& self.applied_candidates == before.applied_candidates
    }

    /// Whether the candidates that waited in `before` are applied now, behind
    /// those that were applied already and in the order they came.
    pub open spec fn has_applied_pending(&self, before: &WebRTCClient) -> bool {
        &&& self.pending_candidates@ == Seq::<String>::empty()
        &&& self.applied_candidates@ == before.applied_candidates@ + before.pending_candidates@
    }

    /// Whether the engine agrees with `before` in all but the connected flag.
    pub open spec fn same_negotiation(&self, before: &WebRTCClient) -> bool {
        &&& self.local_session_description == before.local_session_description
        &&& self.remote_session_description == before.remote_session_description
        &&& self.local_is_offer == before.local_is_offer
        &&& self.role == before.role
        &&& self.glare_ignored == before.glare_ignored
        &&& self.same_candidates(before)
    }

    /// Whether the engine has taken the offer and answered it, coming from
    /// `before`.
    pub open spec fn has_answered(&self, before: &WebRTCClient, offer: Seq<char>) -> bool {
        &&& self.remote_session_description matches Some(remote)
        &&& remote@ == offer
        &&& self.local_session_description matches Some(local)
        &&& local@ == LOCAL_ANSWER@
        &&& !self.local_is_offer
        &&& self.has_applied_pending(before)
        &&& self.same_standing(before)
    }

    /// Whether the engine has taken in one more candidate, coming from
    /// `before`: applied behind those applied if the remote descriptor is set,
    /// else waiting behind those that wait. Nothing else differs.
    pub open spec fn has_added(&self, before: &WebRTCClient, candidate: Seq<char>) -> bool {
        &&& self.same_standing(before)
        &&& self.local_session_description == before.local_session_description
        &&& self.remote_session_description == before.remote_session_description
        &&& self.local_is_offer == before.local_is_offer
        &&& if before.remote_session_description is Some {
            &&& self.pending_candidates == before.pending_candidates
            &&& self.applied_candidates@.len() == before.applied_candidates@.len() + 1
            &&& self.applied_candidates@.drop_last() =~= before.applied_candidates@
            &&& self.applied_candidates@.last()@ == candidate
        } else {
            &&& self.applied_candidates == before.applied_candidates
            &&& self.pending_candidates@.len() == before.pending_candidates@.len() + 1
            &&& self.pending_candidates@.drop_last() =~= before.pending_candidates@
            &&& self.pending_candidates@.last()@ == candidate
        }
    }

    /// Whether the engine is at the start of an attempt: not connected, no
    /// descriptor, no candidate.
    pub open spec fn is_reset(&self) -> bool {
        &&& !self.is_connected
        &&& self.has_no_descriptor()
        &&& !self.local_is_offer
        &&& self.pending_candidates@ == Seq::<String>::empty()
        &&& self.applied_candidates@ == Seq::<String>::empty()
    }

    /// What a report of the connectivity checks comes to, after `waited_ms`
    /// of at most `timeout_ms`: `Ok(true)` for a connected transport,
    /// `Ok(false)` to go on waiting.
    ///
    /// A path that was found connects the transport once both descriptors
    /// are set. Until then, and while the checks run, the wait goes on as
    /// long as the time is not up. Checks that failed end the wait at once.
    pub open spec fn connect_outcome(
        &self,
        report: Connectivity,
        waited_ms: u64,
        timeout_ms: u64,
    ) -> Result<bool, WebRTCError> {
        if self.is_connected {
            Ok(true)
        } else if report is Failed {
            Err(WebRTCError { kind: NegotiationFault::ConnectivityFailed })
        } else if report is Connected && self.is_negotiated() {
            Ok(true)
        } else if waited_ms >= timeout_ms {
            Err(WebRTCError { kind: NegotiationFault::Timeout })
        } else {
            Ok(false)
        }
    }

    /// An engine for the given role, at the start of an attempt.
    pub fn with_role(role: Role) -> (engine: Self)
        ensures
            engine.is_reset(),
            engine.role == role,
            engine.glare_ignored == 0,
    {
        WebRTCClient {
            is_connected: false,
            local_session_description: None,
            remote_session_description: None,
            role,
            local_is_offer: false,
            pending_candidates: Vec::new(),
            applied_candidates: Vec::new(),
            glare_ignored: 0,
        }
    }

    /// An engine for the host, at the start of an attempt.
    pub fn new() -> (made: Result<Self, WebRTCError>)
        ensures
            made matches Ok(engine) && engine.is_reset() && engine.role == Role::Host
                && engine.glare_ignored == 0,
    {
        Ok(WebRTCClient::with_role(Role::Host))
    }

    /// Makes the local offer.
    ///
    /// Once per attempt: a second offer is refused as already made, and an
    /// offer after any other descriptor as out of order.
    pub fn create_offer(&mut self) -> (made: Result<String, WebRTCError>)
        ensures
            made is Ok <==> old(self).has_no_descriptor(),
            made matches Ok(offer) ==> {
                &&& offer@ == LOCAL_OFFER@
                &&& final(self).local_session_description matches Some(local)
                &&& local@ == LOCAL_OFFER@
                &&& final(self).local_is_offer
                &&& final(self).remote_session_description is None
                &&& final(self).same_standing(old(self))
                &&& final(self).same_candidates(old(self))
            },
            made matches Err(e) ==> {
                &&& *final(self) == *old(self)
                &&& e.kind == if old(self).has_local_offer() {
                    NegotiationFault::AlreadyOffered
                } else {
                    NegotiationFault::UnexpectedState
                }
            },
    {
        if self.local_session_description.is_some() && self.local_is_offer {
            return Err(WebRTCError { kind: NegotiationFault::AlreadyOffered });
        }
        if self.local_session_description.is_some() || self.remote_session_description.is_some() {
            return Err(WebRTCError { kind: NegotiationFault::UnexpectedState });
        }
        self.local_session_description = Some(LOCAL_OFFER.to_owned());
        self.local_is_offer = true;
        Ok(LOCAL_OFFER.to_owned())
    }

    /// Takes the peer's offer as the remote descriptor and makes the answer.
    ///
    /// Only at the start of an attempt; with any descriptor set the call is
    /// out of order. An empty offer is malformed. The candidates that waited
    /// for the remote descriptor are applied.
    pub fn create_answer(&mut self, offer: &str) -> (made: Result<String, WebRTCError>)
        ensures
            made is Ok <==> old(self).has_no_descriptor() && is_descriptor(offer@),
            made matches Ok(answer) ==> answer@ == LOCAL_ANSWER@ && final(self).has_answered(
                old(self),
                offer@,
            ),
            made matches Err(e) ==> {
                &&& *final(self) == *old(self)
                &&& e.kind == if old(self).has_no_descriptor() {
                    NegotiationFault::InvalidDescriptor
                } else {
                    NegotiationFault::UnexpectedState
                }
            },
    {
        if self.local_session_description.is_some() || self.remote_session_description.is_some() {
            return Err(WebRTCError { kind: NegotiationFault::UnexpectedState });
        }
        if offer.is_empty() {
            return Err(WebRTCError { kind: NegotiationFault::InvalidDescriptor });
        }
        self.remote_session_description = Some(offer.to_owned());
        self.local_session_description = Some(LOCAL_ANSWER.to_owned());
        self.local_is_offer = false;
        self.applied_candidates.append(&mut self.pending_candidates);
        Ok(LOCAL_ANSWER.to_owned())
    }

    /// Takes in an offer that a peer sent.
    ///
    /// While the engine's own offer waits for its answer the offers have
    /// crossed, and the host's wins. The host drops the peer's offer, counts
    /// it and goes on as before; that is no error. A viewer gives its own
    /// offer up and answers the host's. Without a crossing the offer is
    /// answered as `create_answer` does.
    pub fn receive_offer(&mut self, offer: &str) -> (taken: Result<OfferOutcome, WebRTCError>)
        ensures
            old(self).awaits_answer() && old(self).role is Host ==> {
                &&& taken matches Ok(OfferOutcome::GlareIgnored)
                &&& final(self).glare_ignored == one_more(old(self).glare_ignored)
                &&& final(self).is_connected == old(self).is_connected
                &&& final(self).role == old(self).role
                &&& final(self).local_session_description == old(self).local_session_description
                &&& final(self).remote_session_description == old(self).remote_session_description
                &&& final(self).local_is_offer == old(self).local_is_offer
                &&& final(self).same_candidates(old(self))
            },
            !(old(self).awaits_answer() && old(self).role is Host) ==> {
                &&& taken is Ok <==> (old(self).awaits_answer() || old(self).has_no_descriptor())
                    && is_descriptor(offer@)
                &&& taken matches Ok(outcome) ==> {
                    &&& outcome matches OfferOutcome::Answered(answer)
                    &&& answer@ == LOCAL_ANSWER@
                    &&& final(self).has_answered(old(self), offer@)
                }
                &&& taken matches Err(e) ==> {
                    &&& *final(self) == *old(self)
                    &&& e.kind == if old(self).awaits_answer() || old(self).has_no_descriptor() {
                        NegotiationFault::InvalidDescriptor
                    } else {
                        NegotiationFault::UnexpectedState
                    }
                }
            },
    {
        let crossing: bool = self.local_session_description.is_some() && self.local_is_offer
            && self.remote_session_description.is_none();
        if crossing {
            match self.role {
                Role::Host => {
                    self.glare_ignored = count_one_more(self.glare_ignored);
                    return Ok(OfferOutcome::GlareIgnored);
                },
                Role::Viewer => {
                    if offer.is_empty() {
                        return Err(WebRTCError { kind: NegotiationFault::InvalidDescriptor });
                    }
                    self.local_session_description = None;
                    self.local_is_offer = false;
                },
            }
        }
        match self.create_answer(offer) {
            Ok(answer) => Ok(OfferOutcome::Answered(answer)),
            Err(e) => Err(e),
        }
    }

    /// Takes the peer's answer as the remote descriptor.
    ///
    /// Only while the engine's own offer waits for it; at any other time the
    /// call is out of order. An empty descriptor is malformed. The candidates
    /// that waited for the remote descriptor are applied.
    pub fn set_remote_description(&mut self, sdp: &str) -> (set: Result<(), WebRTCError>)
        ensures
            set is Ok <==> old(self).awaits_answer() && is_descriptor(sdp@),
            set is Ok ==> {
                &&& final(self).remote_session_description matches Some(remote)
                &&& remote@ == sdp@
                &&& final(self).local_session_description == old(self).local_session_description
                &&& final(self).local_is_offer
                &&& final(self).has_applied_pending(old(self))
                &&& final(self).same_standing(old(self))
            },
            set matches Err(e) ==> {
                &&& *final(self) == *old(self)
                &&& e.kind == if old(self).awaits_answer() {
                    NegotiationFault::InvalidDescriptor
                } else {
                    NegotiationFault::UnexpectedState
                }
            },
    {
        let waiting: bool = self.local_session_description.is_some() && self.local_is_offer
            && self.remote_session_description.is_none();
        if !waiting {
            return Err(WebRTCError { kind: NegotiationFault::UnexpectedState });
        }
        if sdp.is_empty() {
            return Err(WebRTCError { kind: NegotiationFault::InvalidDescriptor });
        }
        self.remote_session_description = Some(sdp.to_owned());
        self.applied_candidates.append(&mut self.pending_candidates);
        Ok(())
    }

    /// Takes in one candidate of the peer. Never fails.
    ///
    /// With the remote descriptor set the candidate is applied; until then it
    /// waits, behind those that came before it.
    pub fn add_ice_candidate(&mut self, candidate: &str) -> (added: Result<(), WebRTCError>)
        ensures
            added is Ok,
            final(self).has_added(old(self), candidate@),
    {
        if self.remote_session_description.is_some() {
            self.applied_candidates.push(candidate.to_owned());
        } else {
            self.pending_candidates.push(candidate.to_owned());
        }
        Ok(())
    }

    /// Takes in what the connectivity checks report after `waited_ms`.
    ///
    /// `Ok(true)`: the transport is connected, which takes both descriptors
    /// and a path that the checks found. `Ok(false)`: there is no connected
    /// transport yet and the time is not up, so the driver waits on; that is
    /// so while the checks run, and while a descriptor is still missing. The
    /// attempt fails when the checks fail, and when the time is up.
    pub fn connect(&mut self, report: Connectivity, waited_ms: u64, timeout_ms: u64) -> (outcome:
        Result<bool, WebRTCError>)
        ensures
            outcome == old(self).connect_outcome(report, waited_ms, timeout_ms),
            final(self).is_connected == (outcome == Ok::<bool, WebRTCError>(true)),
            final(self).same_negotiation(old(self)),
    {
        if self.is_connected {
            return Ok(true);
        }
        let negotiated: bool = self.local_session_description.is_some()
            && self.remote_session_description.is_some();
        match report {
            Connectivity::Failed => {
                return Err(WebRTCError { kind: NegotiationFault::ConnectivityFailed });
            },
            Connectivity::Connected => {
                if negotiated {
                    self.is_connected = true;
                    return Ok(true);
                }
            },
            Connectivity::Checking => {},
        }
        if waited_ms >= timeout_ms {
            Err(WebRTCError { kind: NegotiationFault::Timeout })
        } else {
            Ok(false)
        }
    }

    /// Ends the attempt and puts the engine back at the start of one. Never
    /// fails; a second call changes nothing.
    pub fn disconnect(&mut self) -> (done: Result<(), WebRTCError>)
        ensures
            done is Ok,
            final(self).is_reset(),
            final(self).role == old(self).role,
            final(self).glare_ignored == old(self).glare_ignored,
    {
        self.is_connected = false;
        self.local_session_description = None;
        self.remote_session_description = None;
        self.local_is_offer = false;
        self.pending_candidates.clear();
        self.applied_candidates.clear();
        Ok(())
    }

    /// Whether the transport is connected.
    pub fn is_connected(&self) -> (connected: bool)
        ensures
            connected == self.is_connected,
    {
        self.is_connected
    }

    /// Whether a frame can go out now: only over a connected transport.
    pub fn send_frame(&self, frame_data: &[u8]) -> (sent: Result<(), WebRTCError>)
        ensures
            sent is Ok <==> self.is_connected,
            sent matches Err(e) ==> e.kind == NegotiationFault::NotConnected,
    {
        if !self.is_connected {
            return Err(WebRTCError { kind: NegotiationFault::NotConnected });
        }
        Ok(())
    }
}

} // verus!
