use litterbox::{AgentState, Decision, UserRequest, UserResponse};
use russh::keys::agent::server::MessageType;

const ALL: [UserRequest; 7] = [
    UserRequest::RequestKeys,
    UserRequest::AddKeys,
    UserRequest::RemoveKeys,
    UserRequest::RemoveAllKeys,
    UserRequest::Sign,
    UserRequest::Lock,
    UserRequest::Unlock,
];

#[test]
fn a_new_agent_is_locked() {
    let state = AgentState::default();
    assert!(state.locked);
    assert!(!state.approved_for_session);
    assert_eq!(AgentState::new(), state);
}

#[test]
fn unlocked_agent_approves_every_request() {
    let state = AgentState { locked: false, approved_for_session: false };
    for r in ALL {
        assert_eq!(state.decide(r), Decision::Approve);
    }
}

#[test]
fn locked_agent_confirms_every_request_each_time() {
    let mut state = AgentState::new();
    for r in ALL {
        assert_eq!(state.decide(r), Decision::Confirm);
        assert!(state.apply_confirmation(r, Some(UserResponse::Approved)));
        assert_eq!(state.decide(r), Decision::Confirm);
        assert!(!state.apply_confirmation(r, Some(UserResponse::Declined)));
        assert_eq!(state.decide(r), Decision::Confirm);
    }
    assert_eq!(state, AgentState::new());
}

#[test]
fn session_approval_covers_listing_keys_only() {
    let mut state = AgentState::new();
    assert!(state.apply_confirmation(
        UserRequest::RequestKeys,
        Some(UserResponse::ApprovedForSession)
    ));
    assert!(state.approved_for_session);
    assert_eq!(state.decide(UserRequest::RequestKeys), Decision::Approve);
    for r in &ALL[1..] {
        assert_eq!(state.decide(*r), Decision::Confirm);
    }
    assert!(!state.apply_confirmation(UserRequest::Sign, Some(UserResponse::Declined)));
    assert_eq!(state.decide(UserRequest::RequestKeys), Decision::Approve);
}

#[test]
fn session_approval_of_another_request_approves_it_once() {
    let mut state = AgentState::new();
    assert!(state.apply_confirmation(UserRequest::Sign, Some(UserResponse::ApprovedForSession)));
    assert!(!state.approved_for_session);
    assert_eq!(state.decide(UserRequest::RequestKeys), Decision::Confirm);
}

#[test]
fn broken_transport_or_bad_answer_denies() {
    for r in ALL {
        let mut state = AgentState::new();
        assert!(!state.apply_confirmation(r, None));
        assert!(!state.conclude(r, None));
        assert!(!state.conclude(r, Some("Maybe\n")));
        assert!(!state.conclude(r, Some("")));
        assert!(!state.conclude(r, Some("Approved\n\n")));
        assert_eq!(state, AgentState::new());
    }
}

#[test]
fn prompt_output_is_read_with_one_newline_dropped() {
    let mut state = AgentState::new();
    assert!(state.conclude(UserRequest::Sign, Some("Approved\n")));
    assert!(state.conclude(UserRequest::Sign, Some("Approved")));
    assert!(!state.conclude(UserRequest::Sign, Some("Declined\n")));
    assert!(state.conclude(UserRequest::RequestKeys, Some("ApprovedForSession\n")));
    assert!(state.approved_for_session);
    assert_eq!(UserResponse::parse_output("Declined\n"), Some(UserResponse::Declined));
    assert_eq!(UserResponse::parse_output("declined\n"), None);
}

#[test]
fn request_and_response_names_round_trip() {
    for r in ALL {
        assert_eq!(UserRequest::parse(r.name()), Some(r));
    }
    assert_eq!(UserRequest::Sign.name(), "Sign");
    assert_eq!(UserRequest::parse("sign"), None);
    for a in [UserResponse::Approved, UserResponse::Declined, UserResponse::ApprovedForSession] {
        assert_eq!(UserResponse::parse(a.token()), Some(a));
    }
    assert_eq!(UserResponse::ApprovedForSession.token(), "ApprovedForSession");
}

#[test]
fn only_listing_keys_offers_session_approval() {
    for r in ALL {
        assert_eq!(r.offers_session_approval(), r == UserRequest::RequestKeys);
    }
}

#[test]
fn wire_messages_map_to_requests() {
    assert_eq!(UserRequest::from(MessageType::RequestKeys), UserRequest::RequestKeys);
    assert_eq!(UserRequest::from(MessageType::AddKeys), UserRequest::AddKeys);
    assert_eq!(UserRequest::from(MessageType::RemoveKeys), UserRequest::RemoveKeys);
    assert_eq!(UserRequest::from(MessageType::RemoveAllKeys), UserRequest::RemoveAllKeys);
    assert_eq!(UserRequest::from(MessageType::Sign), UserRequest::Sign);
    assert_eq!(UserRequest::from(MessageType::Lock), UserRequest::Lock);
    assert_eq!(UserRequest::from(MessageType::Unlock), UserRequest::Unlock);
}
