//! The signaling transport: the link to the rendezvous service, the agent's
//! membership of one session, and the envelopes that go over the link.
//!
//! The client dials nothing and sends nothing itself. Its methods answer with
//! a [`LinkAction`] or an [`Envelope`] that the driver carries out, and the
//! driver reports back what came of it.

use vstd::prelude::*;

verus! {

/// The part an endpoint plays in a session.
#[derive(Debug, Clone, Copy, PartialEq, Eq, Structural)]
pub enum Role {
    Host,
    Viewer,
}

/// The type of an envelope.
#[derive(Debug, Clone, Copy, PartialEq, Eq, Structural)]
pub enum EnvelopeKind {
    Join,
    Leave,
    Offer,
    Answer,
    Candidate,
    Error,
}

/// The name of a role on the wire.
pub open spec fn role_name(role: Role) -> Seq<char> {
    match role {
        Role::Host => "host"@,
        Role::Viewer => "viewer"@,
    }
}

/// The name of an envelope type on the wire.
pub open spec fn kind_name(kind: EnvelopeKind) -> Seq<char> {
    match kind {
        EnvelopeKind::Join => "join"@,
        EnvelopeKind::Leave => "leave"@,
        EnvelopeKind::Offer => "offer"@,
        EnvelopeKind::Answer => "answer"@,
        EnvelopeKind::Candidate => "candidate"@,
        EnvelopeKind::Error => "error"@,
    }
}

/// The role that a wire name stands for, if it stands for one.
pub open spec fn role_named(name: Seq<char>) -> Option<Role> {
    if name == "host"@ {
        Some(Role::Host)
    } else if name == "viewer"@ {
        Some(Role::Viewer)
    } else {
        None
    }
}

/// The envelope type that a wire name stands for, if it stands for one.
pub open spec fn kind_named(name: Seq<char>) -> Option<EnvelopeKind> {
    if name == "join"@ {
        Some(EnvelopeKind::Join)
    } else if name == "leave"@ {
        Some(EnvelopeKind::Leave)
    } else if name == "offer"@ {
        Some(EnvelopeKind::Offer)
    } else if name == "answer"@ {
        Some(EnvelopeKind::Answer)
    } else if name == "candidate"@ {
        Some(EnvelopeKind::Candidate)
    } else if name == "error"@ {
        Some(EnvelopeKind::Error)
    } else {
        None
    }
}

/// Whether two texts are the same.
fn same_text(a: &str, b: &str) -> (same: bool)
    ensures
        same == (a@ == b@),
{
    let left = a.to_owned();
    let right = b.to_owned();
    left == right
}

impl Role {
    /// The role's name on the wire.
    pub fn wire_name(&self) -> (name: String)
        ensures
            name@ == role_name(*self),
    {
        match self {
            Role::Host => "host".to_owned(),
            Role::Viewer => "viewer".to_owned(),
        }
    }

    /// Reads a role's wire name. Any other text is no role.
    pub fn from_wire_name(name: &str) -> (role: Option<Role>)
        ensures
            role == role_named(name@),
    {
        if same_text(name, "host") {
            Some(Role::Host)
        } else if same_text(name, "viewer") {
            Some(Role::Viewer)
        } else {
            None
        }
    }
}

impl EnvelopeKind {
    /// The type's name on the wire.
    pub fn wire_name(&self) -> (name: String)
        ensures
            name@ == kind_name(*self),
    {
        match self {
            EnvelopeKind::Join => "join".to_owned(),
            EnvelopeKind::Leave => "leave".to_owned(),
            EnvelopeKind::Offer => "offer".to_owned(),
            EnvelopeKind::Answer => "answer".to_owned(),
            EnvelopeKind::Candidate => "candidate".to_owned(),
            EnvelopeKind::Error => "error".to_owned(),
        }
    }

    /// Reads a type's wire name. An envelope of any other type is to be
    /// ignored, so an unknown name gives no type and no error.
    pub fn from_wire_name(name: &str) -> (kind: Option<EnvelopeKind>)
        ensures
            kind == kind_named(name@),
    {
        if same_text(name, "join") {
            Some(EnvelopeKind::Join)
        } else if same_text(name, "leave") {
            Some(EnvelopeKind::Leave)
        } else if same_text(name, "offer") {
            Some(EnvelopeKind::Offer)
        } else if same_text(name, "answer") {
            Some(EnvelopeKind::Answer)
        } else if same_text(name, "candidate") {
            Some(EnvelopeKind::Candidate)
        } else if same_text(name, "error") {
            Some(EnvelopeKind::Error)
        } else {
            None
        }
    }
}

/// Reading a role's wire name gives the role back.
pub proof fn lemma_role_name_round_trip(role: Role)
    ensures
        role_named(role_name(role)) == Some(role),
{
    reveal_strlit("host");
    reveal_strlit("viewer");
    assert("host"@.len() != "viewer"@.len());
}

/// Reading an envelope type's wire name gives the type back.
pub proof fn lemma_kind_name_round_trip(kind: EnvelopeKind)
    ensures
        kind_named(kind_name(kind)) == Some(kind),
{
    reveal_strlit("join");
    reveal_strlit("leave");
    reveal_strlit("offer");
    reveal_strlit("answer");
    reveal_strlit("candidate");
    reveal_strlit("error");
    assert("join"@.len() == 4 && "leave"@.len() == 5 && "offer"@.len() == 5);
    assert("answer"@.len() == 6 && "candidate"@.len() == 9 && "error"@.len() == 5);
    assert("leave"@[0] == 'l' && "offer"@[0] == 'o' && "error"@[0] == 'e');
}

/// Why the signaling transport refused or gave up.
#[derive(Debug, Clone, Copy, PartialEq, Eq, Structural)]
pub enum SignalingFault {
    /// The service could not be reached in any of the attempts allowed.
    Unreachable,
    /// There is no link to the service.
    NotConnected,
    /// The service refused the agent's membership of the session.
    Rejected,
}

/// A fault of the signaling transport.
#[derive(Debug, Clone, Copy, PartialEq, Eq, Structural)]
pub struct SignalingError {
    pub kind: SignalingFault,
}

/// The text that goes with each fault.
pub open spec fn signaling_fault_text(kind: SignalingFault) -> Seq<char> {
    match kind {
        SignalingFault::Unreachable => "Signaling server is unreachable"@,
        SignalingFault::NotConnected => "Not connected to signaling server"@,
        SignalingFault::Rejected => "Signaling server rejected the session"@,
    }
}

impl SignalingError {
    /// The fault in words, without the type's name in front.
    pub fn message(&self) -> (text: String)
        ensures
            text@ == signaling_fault_text(self.kind),
    {
        match self.kind {
            SignalingFault::Unreachable => "Signaling server is unreachable".to_owned(),
            SignalingFault::NotConnected => "Not connected to signaling server".to_owned(),
            SignalingFault::Rejected => "Signaling server rejected the session".to_owned(),
        }
    }

    /// The fault as it is shown to a user: the type's name, a colon, the message.
    pub fn describe(&self) -> (text: String)
        ensures
            text@ == "SignalingError: "@ + signaling_fault_text(self.kind),
    {
        let head = "SignalingError: ".to_owned();
        let tail = self.message();
        head.concat(tail.as_str())
    }
}

/// What the agent tells the service about the machine it runs on.
#[derive(Debug, Clone)]
pub struct DeviceInfo {
    pub agent_id: String,
    pub host_id: String,
    pub platform: String,
    pub arch: String,
    pub hostname: String,
    pub version: String,
}

/// One message to or from the rendezvous service.
///
/// A join or leave envelope carries the role's wire name as its payload, an
/// offer or answer a descriptor, a candidate envelope one candidate.
#[derive(Debug, Clone, PartialEq, Eq)]
pub struct Envelope {
    pub kind: EnvelopeKind,
    pub session_id: Option<String>,
    pub from_id: Option<String>,
    pub to_id: Option<String>,
    pub payload: String,
}

/// An envelope as plain values.
pub struct EnvelopeView {
    pub kind: EnvelopeKind,
    pub session_id: Option<Seq<char>>,
    pub from_id: Option<Seq<char>>,
    pub to_id: Option<Seq<char>>,
    pub payload: Seq<char>,
}

/// The characters of a text that may be absent.
pub open spec fn text_of(text: Option<String>) -> Option<Seq<char>> {
    match text {
        Some(t) => Some(t@),
        None => None,
    }
}

impl View for Envelope {
    type V = EnvelopeView;

    open spec fn view(&self) -> EnvelopeView {
        EnvelopeView {
            kind: self.kind,
            session_id: text_of(self.session_id),
            from_id: text_of(self.from_id),
            to_id: text_of(self.to_id),
            payload: self.payload@,
        }
    }
}

/// What the driver of the link has to do next.
#[derive(Debug, PartialEq, Eq)]
pub enum LinkAction {
    /// Nothing.
    Idle,
    /// Wait for the delay, dial the service, and report with `dial_finished`.
    Dial { delay_ms: u64 },
    /// Send the envelope.
    Send(Envelope),
}

/// The number of dials after which the service counts as unreachable.
pub const MAX_DIAL_ATTEMPTS: u32 = 3;

/// The wait before the second dial, in milliseconds.
pub const INITIAL_BACKOFF_MS: u64 = 500;

/// The wait before the next dial after `failed` dials in a row have failed:
/// the initial wait after the first, and twice the wait before with each
/// further one.
pub open spec fn backoff_delay(failed: nat) -> nat
    decreases failed,
{
    if failed <= 1 {
        INITIAL_BACKOFF_MS as nat
    } else {
        2 * backoff_delay((failed - 1) as nat)
    }
}

/// The wait grows with every failed dial.
pub proof fn lemma_backoff_grows(failed: nat)
    requires
        failed >= 1,
    ensures
        backoff_delay(failed + 1) == 2 * backoff_delay(failed),
        backoff_delay(failed) >= INITIAL_BACKOFF_MS,
    decreases failed,
{
    if failed > 1 {
        lemma_backoff_grows((failed - 1) as nat);
    }
}

/// The wait in milliseconds before the next dial.
fn backoff_delay_ms(failed: u32) -> (delay: u64)
    requires
        1 <= failed < MAX_DIAL_ATTEMPTS,
    ensures
        delay == backoff_delay(failed as nat),
{
    let mut delay: u64 = INITIAL_BACKOFF_MS;
    let mut n: u32 = 1;
    while n < failed
        invariant
            1 <= n <= failed < MAX_DIAL_ATTEMPTS,
            delay == backoff_delay(n as nat),
            delay <= INITIAL_BACKOFF_MS * 4,
        decreases failed - n,
    {
        proof {
            lemma_backoff_grows(n as nat);
            reveal_with_fuel(backoff_delay, 4);
        }
        delay = delay * 2;
        n += 1;
    }
    delay
}

/// A copy of a text that may be absent.
fn copy_of(text: &Option<String>) -> (copy: Option<String>)
    ensures
        copy == *text,
{
    match text {
        Some(t) => Some(t.clone()),
        None => None,
    }
}

/// A membership that is asked for: the session, the id under which the agent
/// joins it, and the role it plays there.
#[derive(Debug, Clone, PartialEq, Eq)]
pub struct JoinRequest {
    pub session_id: String,
    pub user_id: String,
    pub role: Role,
}

/// The agent's end of the signaling link.
///
/// The agent is a member of a session while all of `session_id`, `user_id`
/// and `role` are set; a membership is one that the service was told of.
/// `pending_join` is a join that waits for the link: it becomes the
/// membership when a dial gets through, and it is given up when none does.
/// `previous` is the membership that the last join took the place of; the
/// agent returns to it if the service refuses that join. `failed_dials`
/// counts the dials that have failed in a row.
pub struct SignalingClient {
    pub server_url: String,
    pub is_connected: bool,
    pub session_id: Option<String>,
    pub user_id: Option<String>,
    pub role: Option<Role>,
    pub failed_dials: u32,
    pub pending_join: Option<JoinRequest>,
    pub previous: Option<JoinRequest>,
}

/// A membership as plain values.
pub struct Membership {
    pub session_id: Seq<char>,
    pub user_id: Seq<char>,
    pub role: Role,
}

/// The membership that a request asks for, if there is a request.
pub open spec fn asked_by(request: Option<JoinRequest>) -> Option<Membership> {
    match request {
        Some(r) => Some(
            Membership { session_id: r.session_id@, user_id: r.user_id@, role: r.role },
        ),
        None => None,
    }
}

/// The envelope that announces or ends a membership.
pub open spec fn membership_envelope(kind: EnvelopeKind, member: Membership) -> EnvelopeView {
    EnvelopeView {
        kind,
        session_id: Some(member.session_id),
        from_id: Some(member.user_id),
        to_id: None,
        payload: role_name(member.role),
    }
}

/// What the result of a dial makes of a client, and what is to be done next.
///
/// Over a link a result changes nothing. A dial that got through gives the
/// link: a join that waited becomes the membership and goes out, and
/// without one a member announces itself again under the ids it has. A dial
/// that failed is followed by the next after the wait that is due, or, when
/// as many as allowed have failed, by the fault that ends the run. A join
/// that waited is given up then, and the client is a member of what it was
/// a member of before that join.
pub open spec fn is_dial_taken(
    before: &SignalingClient,
    after: &SignalingClient,
    up: bool,
    next: Result<LinkAction, SignalingError>,
) -> bool {
    if before.is_connected {
        &&& next matches Ok(LinkAction::Idle)
        &&& *after == *before
    } else if up {
        &&& after.is_connected
        &&& after.failed_dials == 0
        &&& after.server_url == before.server_url
        &&& after.pending_join is None
        &&& match before.waiting() {
            Some(asked) => {
                &&& after.membership() == Some(asked)
                &&& asked_by(after.previous) == before.membership()
                &&& next matches Ok(LinkAction::Send(envelope))
                &&& envelope@ == membership_envelope(EnvelopeKind::Join, asked)
            },
            None => {
                &&& after.same_membership(before)
                &&& match before.membership() {
                    Some(member) => {
                        &&& next matches Ok(LinkAction::Send(envelope))
                        &&& envelope@ == membership_envelope(EnvelopeKind::Join, member)
                    },
                    None => next matches Ok(LinkAction::Idle),
                }
            },
        }
    } else if before.failed_dials + 1 < MAX_DIAL_ATTEMPTS {
        &&& !after.is_connected
        &&& after.failed_dials == before.failed_dials + 1
        &&& after.server_url == before.server_url
        &&& after.same_membership(before)
        &&& after.pending_join == before.pending_join
        &&& next matches Ok(LinkAction::Dial { delay_ms })
        &&& delay_ms == backoff_delay((before.failed_dials + 1) as nat)
    } else {
        &&& !after.is_connected
        &&& after.failed_dials == MAX_DIAL_ATTEMPTS
        &&& after.server_url == before.server_url
        &&& after.same_membership(before)
        &&& after.pending_join is None
        &&& next matches Err(e)
        &&& e.kind == before.exhausted_fault()
    }
}

/// What the loss of the link makes of a client, and what is to be done next.
///
/// Without a link nothing was lost. A member of a session dials again at
/// once, under the ids it has, and so does a client whose join waits;
/// without either nothing is done.
pub open spec fn is_drop_taken(
    before: &SignalingClient,
    after: &SignalingClient,
    action: LinkAction,
) -> bool {
    if !before.is_connected {
        &&& action is Idle
        &&& *after == *before
    } else {
        &&& !after.is_connected
        &&& after.server_url == before.server_url
        &&& after.same_membership(before)
        &&& after.pending_join == before.pending_join
        &&& if before.membership() is Some || before.pending_join is Some {
            &&& action == (LinkAction::Dial { delay_ms: 0 })
            &&& after.failed_dials == 0
        } else {
            &&& action is Idle
            &&& after.failed_dials == before.failed_dials
        }
    }
}

/// What a join makes of a client, and what is to be done next.
///
/// Over a link the client is a member of the session at once, the join
/// goes out, and the membership it had is kept to return to. Without a
/// link the join waits and a fresh run of dials begins; the client stays a
/// member of what it was a member of.
pub open spec fn is_join_taken(
    before: &SignalingClient,
    after: &SignalingClient,
    asked: Membership,
    action: LinkAction,
) -> bool {
    &&& after.server_url == before.server_url
    &&& after.is_connected == before.is_connected
    &&& if before.is_connected {
        &&& after.membership() == Some(asked)
        &&& asked_by(after.previous) == before.membership()
        &&& after.pending_join is None
        &&& after.failed_dials == before.failed_dials
        &&& action matches LinkAction::Send(envelope)
        &&& envelope@ == membership_envelope(EnvelopeKind::Join, asked)
    } else {
        &&& after.same_membership(before)
        &&& after.waiting() == Some(asked)
        &&& after.failed_dials == 0
        &&& action == (LinkAction::Dial { delay_ms: 0 })
    }
}

/// A join that never gets a link leaves the client a member of what it was
/// a member of: after a join without a link and as many failed dials as
/// are allowed, the run ends for want of a connection, the join is given
/// up, and the membership is the one from before the join.
pub proof fn lemma_failed_join_keeps_the_membership(
    before: SignalingClient,
    joined: SignalingClient,
    first: SignalingClient,
    second: SignalingClient,
    last: SignalingClient,
    asked: Membership,
    action: LinkAction,
    next: (
        Result<LinkAction, SignalingError>,
        Result<LinkAction, SignalingError>,
        Result<LinkAction, SignalingError>,
    ),
)
    requires
        !before.is_connected,
        is_join_taken(&before, &joined, asked, action),
        is_dial_taken(&joined, &first, false, next.0),
        is_dial_taken(&first, &second, false, next.1),
        is_dial_taken(&second, &last, false, next.2),
    ensures
        next.2 matches Err(e) && e.kind == SignalingFault::NotConnected,
        last.membership() == before.membership(),
        last.same_membership(&before),
        last.pending_join is None,
        !last.is_connected,
{
}

impl SignalingClient {
    /// The membership, if the agent is a member of a session.
    pub open spec fn membership(&self) -> Option<Membership> {
        match (self.session_id, self.user_id, self.role) {
            (Some(session_id), Some(user_id), Some(role)) => Some(
                Membership { session_id: session_id@, user_id: user_id@, role },
            ),
            _ => None,
        }
    }

    /// The membership that a join asks for while it waits for the link.
    pub open spec fn waiting(&self) -> Option<Membership> {
        asked_by(self.pending_join)
    }

    /// Whether the client is a member of what `before` is a member of, and
    /// would return to what `before` would return to.
    pub open spec fn same_membership(&self, before: &SignalingClient) -> bool {
        &&& self.session_id == before.session_id
        &&& self.user_id == before.user_id
        &&& self.role == before.role
        &&& self.previous == before.previous
    }

    /// Whether the client is no member of any session, has no join waiting
    /// and none to return to.
    pub open spec fn has_no_membership(&self) -> bool {
        &&& self.session_id is None
        &&& self.user_id is None
        &&& self.role is None
        &&& self.pending_join is None
        &&& self.previous is None
    }

    /// Whether the client has no link, no membership and no failed dial.
    pub open spec fn is_fresh(&self) -> bool {
        &&& !self.is_connected
        &&& self.failed_dials == 0
        &&& self.has_no_membership()
    }

    /// The fault that ends a run of dials without a link: a join that was
    /// waiting for the link fails for want of a connection, anything else
    /// because the service cannot be reached.
    pub open spec fn exhausted_fault(&self) -> SignalingFault {
        if self.pending_join is Some {
            SignalingFault::NotConnected
        } else {
            SignalingFault::Unreachable
        }
    }

    /// Whether the client differs from `before` only in that it has left:
    /// it is no member of any session, has no join waiting and none to
    /// return to.
    pub open spec fn left_from(&self, before: &SignalingClient) -> bool {
        &&& self.server_url == before.server_url
        &&& self.is_connected == before.is_connected
        &&& self.failed_dials == before.failed_dials
        &&& self.has_no_membership()
    }

    /// Whether the client differs from `before` only in that its last join
    /// was refused: it is a member of what it was a member of before that
    /// join, and of nothing if it was a member of nothing.
    pub open spec fn refused_from(&self, before: &SignalingClient) -> bool {
        &&& self.server_url == before.server_url
        &&& self.is_connected == before.is_connected
        &&& self.failed_dials == before.failed_dials
        &&& self.pending_join == before.pending_join
        &&& self.previous is None
        &&& self.membership() == asked_by(before.previous)
        &&& before.previous is None ==> {
            &&& self.session_id is None
            &&& self.user_id is None
            &&& self.role is None
        }
    }

    /// Whether an envelope that arrived is meant for this member: it belongs
    /// to the member's session, it is addressed to the member or to nobody,
    /// and the member did not send it.
    pub open spec fn is_addressed(&self, envelope: EnvelopeView) -> bool {
        &&& self.membership() matches Some(member)
        &&& envelope.session_id == Some(member.session_id)
        &&& (envelope.to_id is None || envelope.to_id == Some(member.user_id))
        &&& envelope.from_id != Some(member.user_id)
    }

    /// The envelope that carries a payload from this client to a peer.
    pub open spec fn outbound(
        &self,
        kind: EnvelopeKind,
        target_id: Seq<char>,
        payload: Seq<char>,
    ) -> EnvelopeView {
        EnvelopeView {
            kind,
            session_id: text_of(self.session_id),
            from_id: text_of(self.user_id),
            to_id: Some(target_id),
            payload,
        }
    }

    /// A client for the service at the given address, with no link yet.
    pub fn new(server_url: &str) -> (made: Result<Self, SignalingError>)
        ensures
            made matches Ok(client) && client.server_url@ == server_url@ && client.is_fresh(),
    {
        Ok(
            SignalingClient {
                server_url: server_url.to_owned(),
                is_connected: false,
                session_id: None,
                user_id: None,
                role: None,
                failed_dials: 0,
                pending_join: None,
                previous: None,
            },
        )
    }

    /// The envelope that announces or ends the current membership.
    fn envelope_of_membership(&self, kind: EnvelopeKind) -> (envelope: Option<Envelope>)
        ensures
            envelope is Some <==> self.membership() is Some,
            envelope matches Some(e) ==> e@ == membership_envelope(kind, self.membership()->0),
    {
        match (&self.session_id, &self.user_id, &self.role) {
            (Some(session_id), Some(user_id), Some(role)) => Some(
                Envelope {
                    kind,
                    session_id: Some(session_id.clone()),
                    from_id: Some(user_id.clone()),
                    to_id: None,
                    payload: role.wire_name(),
                },
            ),
            _ => None,
        }
    }

    /// Makes the request the membership and keeps the membership that it
    /// takes the place of; gives the join envelope of the new membership.
    fn take_up(&mut self, request: JoinRequest) -> (envelope: Envelope)
        ensures
            final(self).membership() == asked_by(Some(request)),
            asked_by(final(self).previous) == old(self).membership(),
            envelope@ == membership_envelope(EnvelopeKind::Join, asked_by(Some(request))->0),
            final(self).server_url == old(self).server_url,
            final(self).is_connected == old(self).is_connected,
            final(self).failed_dials == old(self).failed_dials,
            final(self).pending_join == old(self).pending_join,
    {
        let replaced = match (self.session_id.take(), self.user_id.take(), self.role) {
            (Some(session_id), Some(user_id), Some(role)) => Some(
                JoinRequest { session_id, user_id, role },
            ),
            _ => None,
        };
        let envelope = Envelope {
            kind: EnvelopeKind::Join,
            session_id: Some(request.session_id.clone()),
            from_id: Some(request.user_id.clone()),
            to_id: None,
            payload: request.role.wire_name(),
        };
        self.previous = replaced;
        self.session_id = Some(request.session_id);
        self.user_id = Some(request.user_id);
        self.role = Some(request.role);
        envelope
    }

    /// Asks for a link to the service.
    ///
    /// With a link there is nothing to do. Without one a fresh run of dials
    /// begins, the first of them at once.
    pub fn connect(&mut self) -> (action: LinkAction)
        ensures
            final(self).server_url == old(self).server_url,
            final(self).is_connected == old(self).is_connected,
            final(self).same_membership(old(self)),
            final(self).pending_join == old(self).pending_join,
            old(self).is_connected ==> {
                &&& action is Idle
                &&& final(self).failed_dials == old(self).failed_dials
            },
            !old(self).is_connected ==> {
                &&& action == (LinkAction::Dial { delay_ms: 0 })
                &&& final(self).failed_dials == 0
            },
    {
        if self.is_connected {
            LinkAction::Idle
        } else {
            self.failed_dials = 0;
            LinkAction::Dial { delay_ms: 0 }
        }
    }

    /// Takes in the result of the dial that the driver made.
    ///
    /// A dial that got through gives the link. A join that waited for it
    /// becomes the membership and goes out; without one a member of a
    /// session announces itself again, under the ids it had. A dial that
    /// failed is followed by the next one after a wait that doubles each
    /// time, until as many as allowed have failed: then the run ends with a
    /// fault. A join that waited is given up with it, and the client is a
    /// member of what it was a member of before that join.
    pub fn dial_finished(&mut self, up: bool) -> (next: Result<LinkAction, SignalingError>)
        ensures
            is_dial_taken(old(self), final(self), up, next),
    {
        if self.is_connected {
            return Ok(LinkAction::Idle);
        }
        if up {
            self.is_connected = true;
            self.failed_dials = 0;
            return match self.pending_join.take() {
                Some(request) => Ok(LinkAction::Send(self.take_up(request))),
                None => match self.envelope_of_membership(EnvelopeKind::Join) {
                    Some(envelope) => Ok(LinkAction::Send(envelope)),
                    None => Ok(LinkAction::Idle),
                },
            };
        }
        if self.failed_dials >= MAX_DIAL_ATTEMPTS - 1 {
            self.failed_dials = MAX_DIAL_ATTEMPTS;
            return match self.pending_join.take() {
                Some(_) => Err(SignalingError { kind: SignalingFault::NotConnected }),
                None => Err(SignalingError { kind: SignalingFault::Unreachable }),
            };
        }
        self.failed_dials = self.failed_dials + 1;
        Ok(LinkAction::Dial { delay_ms: backoff_delay_ms(self.failed_dials) })
    }

    /// Takes in that the link to the service was lost.
    ///
    /// A member of a session dials again at once and keeps its ids, and so
    /// does a client whose join waits; without either nothing is done.
    /// Without a link nothing was lost.
    pub fn link_dropped(&mut self) -> (action: LinkAction)
        ensures
            is_drop_taken(old(self), final(self), action),
    {
        if !self.is_connected {
            return LinkAction::Idle;
        }
        self.is_connected = false;
        let member: bool = self.session_id.is_some() && self.user_id.is_some()
            && self.role.is_some();
        if member || self.pending_join.is_some() {
            self.failed_dials = 0;
            LinkAction::Dial { delay_ms: 0 }
        } else {
            LinkAction::Idle
        }
    }

    /// Drops the link and the membership. Never fails; a second call changes
    /// nothing.
    pub fn disconnect(&mut self) -> (done: Result<(), SignalingError>)
        ensures
            done is Ok,
            final(self).is_fresh(),
            final(self).server_url == old(self).server_url,
    {
        self.is_connected = false;
        self.session_id = None;
        self.user_id = None;
        self.role = None;
        self.failed_dials = 0;
        self.pending_join = None;
        self.previous = None;
        Ok(())
    }

    /// Asks for the membership of the session under the given id and role.
    ///
    /// Over a link the agent is a member at once, and the join envelope is
    /// to be sent now. Without a link the join waits and a run of dials
    /// begins; the join goes out when one of them gets through. Should none,
    /// `dial_finished` reports the missing connection, and the agent is a
    /// member of what it was a member of before. A refusal by the service
    /// arrives as an envelope, see `on_envelope`.
    pub fn join_session(&mut self, session_id: &str, user_id: &str, role: Role) -> (action:
        LinkAction)
        ensures
            is_join_taken(
                old(self),
                final(self),
                Membership { session_id: session_id@, user_id: user_id@, role },
                action,
            ),
    {
        let request = JoinRequest {
            session_id: session_id.to_owned(),
            user_id: user_id.to_owned(),
            role,
        };
        if self.is_connected {
            self.pending_join = None;
            LinkAction::Send(self.take_up(request))
        } else {
            self.pending_join = Some(request);
            self.failed_dials = 0;
            LinkAction::Dial { delay_ms: 0 }
        }
    }

    /// Ends the membership, and gives up a join that waits. Never fails,
    /// whatever the state of the link; a second call changes nothing.
    ///
    /// A leave envelope is to be sent where the service knows of the
    /// membership and can be told: for a member, over a link.
    pub fn leave_session(&mut self) -> (left: Result<Option<Envelope>, SignalingError>)
        ensures
            final(self).left_from(old(self)),
            left matches Ok(farewell) && match farewell {
                Some(envelope) => {
                    &&& old(self).is_connected
                    &&& old(self).membership() matches Some(member)
                    &&& envelope@ == membership_envelope(EnvelopeKind::Leave, member)
                },
                None => !(old(self).is_connected && old(self).membership() is Some),
            },
    {
        let farewell = if self.is_connected {
            self.envelope_of_membership(EnvelopeKind::Leave)
        } else {
            None
        };
        self.session_id = None;
        self.user_id = None;
        self.role = None;
        self.pending_join = None;
        self.previous = None;
        Ok(farewell)
    }

    /// Whether an envelope that arrived is meant for this member.
    pub fn accepts(&self, envelope: &Envelope) -> (addressed: bool)
        ensures
            addressed == self.is_addressed(envelope@),
    {
        match (&self.session_id, &self.user_id, &self.role) {
            (Some(session_id), Some(user_id), Some(_)) => {
                let in_session: bool = match &envelope.session_id {
                    Some(id) => *id == *session_id,
                    None => false,
                };
                let to_member: bool = match &envelope.to_id {
                    Some(id) => *id == *user_id,
                    None => true,
                };
                let from_member: bool = match &envelope.from_id {
                    Some(id) => *id == *user_id,
                    None => false,
                };
                in_session && to_member && !from_member
            },
            _ => false,
        }
    }

    /// Takes in an envelope that arrived over the link.
    ///
    /// One that is not meant for this member is dropped. An error envelope is
    /// the service's refusal of the join: the refusal is reported, and the
    /// agent is a member of what it was a member of before that join. Any
    /// other envelope is handed on as it came.
    pub fn on_envelope(&mut self, envelope: Envelope) -> (delivered: Result<
        Option<Envelope>,
        SignalingError,
    >)
        ensures
            !old(self).is_addressed(envelope@) ==> {
                &&& delivered matches Ok(None)
                &&& *final(self) == *old(self)
            },
            old(self).is_addressed(envelope@) && envelope.kind is Error ==> {
                &&& delivered matches Err(e)
                &&& e.kind == SignalingFault::Rejected
                &&& final(self).refused_from(old(self))
            },
            old(self).is_addressed(envelope@) && envelope.kind !is Error ==> delivered == Ok::<
                Option<Envelope>,
                SignalingError,
            >(Some(envelope)) && *final(self) == *old(self),
    {
        if !self.accepts(&envelope) {
            return Ok(None);
        }
        match envelope.kind {
            EnvelopeKind::Error => {
                match self.previous.take() {
                    Some(request) => {
                        self.session_id = Some(request.session_id);
                        self.user_id = Some(request.user_id);
                        self.role = Some(request.role);
                    },
                    None => {
                        self.session_id = None;
                        self.user_id = None;
                        self.role = None;
                    },
                }
                Err(SignalingError { kind: SignalingFault::Rejected })
            },
            _ => Ok(Some(envelope)),
        }
    }

    /// The envelope that carries a payload to a peer, if there is a link.
    fn envelope_to(&self, kind: EnvelopeKind, target_id: &str, payload: &str) -> (made: Result<
        Envelope,
        SignalingError,
    >)
        ensures
            made is Ok <==> self.is_connected,
            made matches Ok(envelope) ==> envelope@ == self.outbound(kind, target_id@, payload@),
            made matches Err(e) ==> e.kind == SignalingFault::NotConnected,
    {
        if !self.is_connected {
            return Err(SignalingError { kind: SignalingFault::NotConnected });
        }
        Ok(
            Envelope {
                kind,
                session_id: copy_of(&self.session_id),
                from_id: copy_of(&self.user_id),
                to_id: Some(target_id.to_owned()),
                payload: payload.to_owned(),
            },
        )
    }

    /// The envelope that carries an offer to a peer. Fails without a link.
    pub fn send_offer(&self, target_id: &str, offer: &str) -> (made: Result<
        Envelope,
        SignalingError,
    >)
        ensures
            made is Ok <==> self.is_connected,
            made matches Ok(envelope) ==> envelope@ == self.outbound(
                EnvelopeKind::Offer,
                target_id@,
                offer@,
            ),
            made matches Err(e) ==> e.kind == SignalingFault::NotConnected,
    {
        self.envelope_to(EnvelopeKind::Offer, target_id, offer)
    }

    /// The envelope that carries an answer to a peer. Fails without a link.
    pub fn send_answer(&self, target_id: &str, answer: &str) -> (made: Result<
        Envelope,
        SignalingError,
    >)
        ensures
            made is Ok <==> self.is_connected,
            made matches Ok(envelope) ==> envelope@ == self.outbound(
                EnvelopeKind::Answer,
                target_id@,
                answer@,
            ),
            made matches Err(e) ==> e.kind == SignalingFault::NotConnected,
    {
        self.envelope_to(EnvelopeKind::Answer, target_id, answer)
    }

    /// The envelope that carries one candidate to a peer. Fails without a link.
    pub fn send_ice_candidate(&self, target_id: &str, candidate: &str) -> (made: Result<
        Envelope,
        SignalingError,
    >)
        ensures
            made is Ok <==> self.is_connected,
            made matches Ok(envelope) ==> envelope@ == self.outbound(
                EnvelopeKind::Candidate,
                target_id@,
                candidate@,
            ),
            made matches Err(e) ==> e.kind == SignalingFault::NotConnected,
    {
        self.envelope_to(EnvelopeKind::Candidate, target_id, candidate)
    }

    /// Whether there is a link to the service.
    pub fn is_connected(&self) -> (connected: bool)
        ensures
            connected == self.is_connected,
    {
        self.is_connected
    }

    /// The session, the id and the role of the membership, each as far as set.
    pub fn get_session_info(&self) -> (info: (Option<String>, Option<String>, Option<Role>))
        ensures
            info == (self.session_id, self.user_id, self.role),
    {
        (copy_of(&self.session_id), copy_of(&self.user_id), self.role)
    }

    /// Whether a device can be registered with the service now: only over a
    /// link.
    pub fn register_device(&self, device_info: DeviceInfo) -> (registered: Result<
        (),
        SignalingError,
    >)
        ensures
            registered is Ok <==> self.is_connected,
            registered matches Err(e) ==> e.kind == SignalingFault::NotConnected,
    {
        if !self.is_connected {
            return Err(SignalingError { kind: SignalingFault::NotConnected });
        }
        Ok(())
    }
}

} // verus!
