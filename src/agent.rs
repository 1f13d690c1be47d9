//! Confirmation policy of the SSH agent: which requests need the user's
//! approval, and how an answer from the confirmation prompt changes the
//! agent's state.
use vstd::prelude::*;
use vstd::std_specs::convert::FromSpecImpl;
use russh::keys::agent::server::MessageType;
use crate::text::str_eq;

verus! {

/// Makes the agent's wire-protocol message kinds, a fieldless enum, known
/// to the verifier so that they can be matched on.
#[verifier::external_type_specification]
pub struct ExMessageType(MessageType);

/// One category of SSH agent operation.
#[derive(PartialEq, Eq, Structural, Clone, Copy, Debug, Hash)]
pub enum UserRequest {
    RequestKeys,
    AddKeys,
    RemoveKeys,
    RemoveAllKeys,
    Sign,
    Lock,
    Unlock,
}

/// The request category of each wire message kind: one arm per kind, no
/// default.
pub open spec fn request_of(m: MessageType) -> UserRequest {
    match m {
        MessageType::RequestKeys => UserRequest::RequestKeys,
        MessageType::AddKeys => UserRequest::AddKeys,
        MessageType::RemoveKeys => UserRequest::RemoveKeys,
        MessageType::RemoveAllKeys => UserRequest::RemoveAllKeys,
        MessageType::Sign => UserRequest::Sign,
        MessageType::Lock => UserRequest::Lock,
        MessageType::Unlock => UserRequest::Unlock,
    }
}

impl From<MessageType> for UserRequest {
    fn from(value: MessageType) -> (r: UserRequest)
        ensures
            r == request_of(value),
    {
        match value {
            MessageType::RequestKeys => UserRequest::RequestKeys,
            MessageType::AddKeys => UserRequest::AddKeys,
            MessageType::RemoveKeys => UserRequest::RemoveKeys,
            MessageType::RemoveAllKeys => UserRequest::RemoveAllKeys,
            MessageType::Sign => UserRequest::Sign,
            MessageType::Lock => UserRequest::Lock,
            MessageType::Unlock => UserRequest::Unlock,
        }
    }
}

impl FromSpecImpl<MessageType> for UserRequest {
    open spec fn obeys_from_spec() -> bool {
        true
    }

    open spec fn from_spec(v: MessageType) -> UserRequest {
        request_of(v)
    }
}

impl UserRequest {
    /// The token that names the request, as passed to the prompt process.
    pub open spec fn spec_name(self) -> Seq<char> {
        match self {
            UserRequest::RequestKeys => "RequestKeys"@,
            UserRequest::AddKeys => "AddKeys"@,
            UserRequest::RemoveKeys => "RemoveKeys"@,
            UserRequest::RemoveAllKeys => "RemoveAllKeys"@,
            UserRequest::Sign => "Sign"@,
            UserRequest::Lock => "Lock"@,
            UserRequest::Unlock => "Unlock"@,
        }
    }

    pub fn name(&self) -> (r: &'static str)
        ensures
            r@ == self.spec_name(),
    {
        match self {
            UserRequest::RequestKeys => "RequestKeys",
            UserRequest::AddKeys => "AddKeys",
            UserRequest::RemoveKeys => "RemoveKeys",
            UserRequest::RemoveAllKeys => "RemoveAllKeys",
            UserRequest::Sign => "Sign",
            UserRequest::Lock => "Lock",
            UserRequest::Unlock => "Unlock",
        }
    }

    /// The request whose name is `s`, if any.
    pub fn parse(s: &str) -> (r: Option<UserRequest>)
        ensures
            r matches Some(q) ==> q.spec_name() == s@,
            r is None <==> forall|q: UserRequest| #[trigger] q.spec_name() != s@,
    {
        let r = if str_eq(s, "RequestKeys") {
            Some(UserRequest::RequestKeys)
        } else if str_eq(s, "AddKeys") {
            Some(UserRequest::AddKeys)
        } else if str_eq(s, "RemoveKeys") {
            Some(UserRequest::RemoveKeys)
        } else if str_eq(s, "RemoveAllKeys") {
            Some(UserRequest::RemoveAllKeys)
        } else if str_eq(s, "Sign") {
            Some(UserRequest::Sign)
        } else if str_eq(s, "Lock") {
            Some(UserRequest::Lock)
        } else if str_eq(s, "Unlock") {
            Some(UserRequest::Unlock)
        } else {
            None
        };
        assert(r is None <==> forall|q: UserRequest| #[trigger] q.spec_name() != s@) by {
            if r is Some {
                assert(r->0.spec_name() == s@);
            } else {
                assert forall|q: UserRequest| #[trigger] q.spec_name() != s@ by {
                    match q {
                        UserRequest::RequestKeys => {},
                        UserRequest::AddKeys => {},
                        UserRequest::RemoveKeys => {},
                        UserRequest::RemoveAllKeys => {},
                        UserRequest::Sign => {},
                        UserRequest::Lock => {},
                        UserRequest::Unlock => {},
                    }
                }
            }
        }
        r
    }

    /// Only a request to list keys may be approved for the whole session.
    pub open spec fn spec_offers_session_approval(self) -> bool {
        self == UserRequest::RequestKeys
    }

    /// Whether the prompt may offer to approve this kind of request for the
    /// rest of the session.
    pub fn offers_session_approval(&self) -> (r: bool)
        ensures
            r == self.spec_offers_session_approval(),
    {
        *self == UserRequest::RequestKeys
    }
}

/// The user's answer to one confirmation prompt.
#[derive(PartialEq, Eq, Structural, Clone, Copy, Debug)]
pub enum UserResponse {
    Approved,
    Declined,
    ApprovedForSession,
}

/// `s` without one trailing newline, if it ends with one.
pub open spec fn strip_newline(s: Seq<char>) -> Seq<char> {
    if s.len() > 0 && s.last() == '\n' {
        s.drop_last()
    } else {
        s
    }
}

impl UserResponse {
    /// The token by which the prompt process reports the answer.
    pub open spec fn spec_token(self) -> Seq<char> {
        match self {
            UserResponse::Approved => "Approved"@,
            UserResponse::Declined => "Declined"@,
            UserResponse::ApprovedForSession => "ApprovedForSession"@,
        }
    }

    pub fn token(&self) -> (r: &'static str)
        ensures
            r@ == self.spec_token(),
    {
        match self {
            UserResponse::Approved => "Approved",
            UserResponse::Declined => "Declined",
            UserResponse::ApprovedForSession => "ApprovedForSession",
        }
    }

    /// The answer whose token is exactly `s`, if any.
    pub fn parse(s: &str) -> (r: Option<UserResponse>)
        ensures
            r matches Some(a) ==> a.spec_token() == s@,
            r is None <==> forall|a: UserResponse| #[trigger] a.spec_token() != s@,
    {
        let r = if str_eq(s, "Approved") {
            Some(UserResponse::Approved)
        } else if str_eq(s, "Declined") {
            Some(UserResponse::Declined)
        } else if str_eq(s, "ApprovedForSession") {
            Some(UserResponse::ApprovedForSession)
        } else {
            None
        };
        assert(r is None <==> forall|a: UserResponse| #[trigger] a.spec_token() != s@) by {
            if r is Some {
                assert(r->0.spec_token() == s@);
            } else {
                assert forall|a: UserResponse| #[trigger] a.spec_token() != s@ by {
                    match a {
                        UserResponse::Approved => {},
                        UserResponse::Declined => {},
                        UserResponse::ApprovedForSession => {},
                    }
                }
            }
        }
        r
    }

    /// Reads the line that the prompt process printed: one trailing newline
    /// is dropped, and the rest must be exactly one answer's token.
    pub fn parse_output(output: &str) -> (r: Option<UserResponse>)
        ensures
            r matches Some(a) ==> a.spec_token() == strip_newline(output@),
            r is None <==> forall|a: UserResponse| #[trigger] a.spec_token() != strip_newline(
                output@,
            ),
    {
        let n = output.unicode_len();
        if n > 0 && output.get_char(n - 1) == '\n' {
            let line = output.substring_char(0, n - 1);
            assert(line@ =~= strip_newline(output@));
            UserResponse::parse(line)
        } else {
            UserResponse::parse(output)
        }
    }
}

/// The lock and session-approval flags that every request consults.
#[derive(PartialEq, Eq, Structural, Clone, Copy, Debug)]
pub struct AgentState {
    /// While locked, requests need the user's approval.
    pub locked: bool,
    /// Once set, requests to list keys no longer need approval.
    pub approved_for_session: bool,
}

/// What to do with an incoming request before it reaches the agent engine.
#[derive(PartialEq, Eq, Structural, Clone, Copy, Debug)]
pub enum Decision {
    /// Let the request through without asking.
    Approve,
    /// Ask the user through the confirmation prompt first.
    Confirm,
}

/// Whether `request` must be confirmed by the user in `state`.
pub open spec fn needs_confirmation(state: AgentState, request: UserRequest) -> bool {
    state.locked && !(request == UserRequest::RequestKeys && state.approved_for_session)
}

pub open spec fn decision_of(state: AgentState, request: UserRequest) -> Decision {
    if needs_confirmation(state, request) {
        Decision::Confirm
    } else {
        Decision::Approve
    }
}

/// Whether the operation is allowed after the prompt answered `response`
/// (`None`: no valid answer arrived).
pub open spec fn allowed_by(response: Option<UserResponse>) -> bool {
    match response {
        Some(UserResponse::Approved) => true,
        Some(UserResponse::ApprovedForSession) => true,
        _ => false,
    }
}

/// The state after the prompt answered `response` to `request`: only an
/// approval for the session of a request to list keys changes it.
pub open spec fn state_after(
    state: AgentState,
    request: UserRequest,
    response: Option<UserResponse>,
) -> AgentState {
    if response == Some(UserResponse::ApprovedForSession) && request == UserRequest::RequestKeys {
        AgentState { approved_for_session: true, ..state }
    } else {
        state
    }
}

impl Default for AgentState {
    fn default() -> (r: AgentState)
        ensures
            r.locked,
            !r.approved_for_session,
    {
        AgentState::new()
    }
}

impl AgentState {
    /// A fresh agent: locked, with nothing approved for the session.
    pub fn new() -> (r: AgentState)
        ensures
            r.locked,
            !r.approved_for_session,
    {
        AgentState { locked: true, approved_for_session: false }
    }

    /// Whether `request` may go through at once or must be confirmed.
    pub fn decide(&self, request: UserRequest) -> (r: Decision)
        ensures
            r == decision_of(*self, request),
    {
        if !self.locked {
            Decision::Approve
        } else if request == UserRequest::RequestKeys && self.approved_for_session {
            Decision::Approve
        } else {
            Decision::Confirm
        }
    }

    /// Records the outcome of one confirmation round trip for `request` and
    /// says whether the operation is allowed. `None` stands for a transport
    /// that failed or an answer that could not be read: the request is
    /// denied.
    pub fn apply_confirmation(
        &mut self,
        request: UserRequest,
        response: Option<UserResponse>,
    ) -> (allowed: bool)
        ensures
            allowed == allowed_by(response),
            *final(self) == state_after(*old(self), request, response),
    {
        match response {
            Some(UserResponse::Approved) => true,
            Some(UserResponse::Declined) => false,
            Some(UserResponse::ApprovedForSession) => {
                if request == UserRequest::RequestKeys {
                    self.approved_for_session = true;
                }
                true
            },
            None => false,
        }
    }
}

impl AgentState {
    /// Finishes one confirmation round trip from what the transport
    /// delivered: `None` when the request could not be sent or no answer
    /// came back, otherwise the prompt process's output line.
    pub fn conclude(&mut self, request: UserRequest, delivered: Option<&str>) -> (allowed: bool)
        ensures
            delivered is None ==> !allowed && *final(self) == *old(self),
            delivered matches Some(out) ==> ({
                let response = if exists|a: UserResponse| #[trigger] a.spec_token()
                    == strip_newline(out@) {
                    Some(choose|a: UserResponse| #[trigger] a.spec_token() == strip_newline(out@))
                } else {
                    None
                };
                &&& allowed == allowed_by(response)
                &&& *final(self) == state_after(*old(self), request, response)
            }),
    {
        let response = match delivered {
            Some(out) => UserResponse::parse_output(out),
            None => None,
        };
        proof {
            if delivered is Some {
                let out = delivered->0;
                if response is Some {
                    let a = response->0;
                    assert(a.spec_token() == strip_newline(out@));
                    let c = choose|c: UserResponse| #[trigger] c.spec_token() == strip_newline(out@);
                    lemma_tokens_distinct(a, c);
                }
            }
        }
        self.apply_confirmation(request, response)
    }
}

/// Different answers have different tokens.
proof fn lemma_tokens_distinct(a: UserResponse, b: UserResponse)
    ensures
        a.spec_token() == b.spec_token() ==> a == b,
{
    reveal_strlit("Approved");
    reveal_strlit("Declined");
    reveal_strlit("ApprovedForSession");
    if a != b {
        assert(a.spec_token().len() != b.spec_token().len() || a.spec_token()[0] != b.spec_token()[0]);
    }
}

/// An unlocked agent lets every kind of request through without asking.
pub proof fn lemma_unlocked_approves_all(state: AgentState, request: UserRequest)
    requires
        !state.locked,
    ensures
        decision_of(state, request) == Decision::Approve,
{
}

/// A locked agent with nothing approved for the session asks once for every
/// kind of request; unless the answer approves listing keys for the session,
/// the next request of the same kind is asked again.
pub proof fn lemma_locked_confirms_each_time(
    state: AgentState,
    request: UserRequest,
    response: Option<UserResponse>,
)
    requires
        state.locked,
        !state.approved_for_session,
        !(request == UserRequest::RequestKeys && response == Some(
            UserResponse::ApprovedForSession,
        )),
    ensures
        decision_of(state, request) == Decision::Confirm,
        state_after(state, request, response) == state,
        decision_of(state_after(state, request, response), request) == Decision::Confirm,
{
}

/// After a request to list keys is approved for the session, later requests
/// to list keys go through without asking, whatever is answered in between,
/// while every other kind of request is still confirmed.
pub proof fn lemma_session_approval_lists_keys_only(
    state: AgentState,
    later: UserRequest,
    response: Option<UserResponse>,
    other: UserRequest,
)
    requires
        state.locked,
        other != UserRequest::RequestKeys,
    ensures
        ({
            let approved = state_after(
                state,
                UserRequest::RequestKeys,
                Some(UserResponse::ApprovedForSession),
            );
            let after = state_after(approved, later, response);
            &&& decision_of(approved, UserRequest::RequestKeys) == Decision::Approve
            &&& decision_of(after, UserRequest::RequestKeys) == Decision::Approve
            &&& decision_of(after, other) == Decision::Confirm
        }),
{
}

/// A confirmation that never arrives, or arrives unreadable, denies the
/// request and leaves the state as it was.
pub proof fn lemma_failed_confirmation_denies(state: AgentState, request: UserRequest)
    ensures
        !allowed_by(None),
        state_after(state, request, None) == state,
{
}

} // verus!
