use registrar::comms::CommsMessage;
use registrar::connector::{Bridge, BridgeAction, BridgeEvent};
use registrar::identity::{AccountState, IdentityManager, Outbound};
use registrar::primitives::{
    AccountType, ChallengeStatus, Fatal, Judgement, NetAccount, NetworkAddress,
};

fn frame(s: &str) -> BridgeEvent {
    BridgeEvent::Frame(s.as_bytes().to_vec())
}

fn expect_error_only(actions: &[BridgeAction]) {
    assert_eq!(actions.len(), 1);
    match &actions[0] {
        BridgeAction::SendFrame(f) => {
            assert_eq!(
                f,
                br#"{"event":"error","data":{"error":"Message is invalid. Rejected"}}"#
            );
        }
        other => panic!("expected the error envelope, got {:?}", other),
    }
}

#[test]
fn invalid_frame_yields_exactly_one_error_envelope() {
    let mut bridge = Bridge::new();
    let actions = bridge.step(frame("this is not json")).unwrap();
    expect_error_only(&actions);
    assert!(actions
        .iter()
        .all(|a| !matches!(a, BridgeAction::Forward(_))));
}

#[test]
fn truncated_envelope_yields_error() {
    let mut bridge = Bridge::new();
    let actions = bridge
        .step(frame(r#"{"event":"newJudgementRequest","data":"#))
        .unwrap();
    expect_error_only(&actions);
}

#[test]
fn unknown_event_yields_error() {
    let mut bridge = Bridge::new();
    let actions = bridge.step(frame(r#"{"event":"bogus","data":{}}"#)).unwrap();
    expect_error_only(&actions);
}

#[test]
fn recognized_foreign_event_is_ignored() {
    let mut bridge = Bridge::new();
    let actions = bridge
        .step(frame(r#"{"event":"ack","data":{"result":"fine"}}"#))
        .unwrap();
    assert!(actions.is_empty());
}

#[test]
fn non_text_frame_yields_error() {
    let mut bridge = Bridge::new();
    let actions = bridge.step(BridgeEvent::NonText).unwrap();
    expect_error_only(&actions);
}

#[test]
fn valid_request_is_acknowledged_and_forwarded() {
    let mut bridge = Bridge::new();
    let actions = bridge
        .step(frame(
            r#"{"event":"newJudgementRequest","data":{"address":"5FAddrA","accounts":{"riot":"@alice:matrix.org","display_name":"Alice"}}}"#,
        ))
        .unwrap();
    assert_eq!(actions.len(), 2);
    match &actions[0] {
        BridgeAction::SendFrame(f) => {
            assert_eq!(f, br#"{"event":"ack","data":{"result":"Message acknowledged"}}"#);
        }
        other => panic!("expected the acknowledgement, got {:?}", other),
    }
    match &actions[1] {
        BridgeAction::Forward(id) => {
            assert_eq!(id.network_address.address().as_bytes(), b"5FAddrA");
            assert_eq!(id.display_name.as_deref(), Some(b"Alice".as_slice()));
            assert!(id.email.is_none() && id.web.is_none() && id.twitter.is_none());
            let st = id.matrix.as_ref().unwrap();
            assert_eq!(st.account.as_bytes(), b"@alice:matrix.org");
            assert_eq!(st.account_ty, AccountType::Matrix);
            assert_eq!(st.challenge_status, ChallengeStatus::Unconfirmed);
            assert!(!st.skip_inform);
        }
        other => panic!("expected the forwarded identity, got {:?}", other),
    }
}

#[test]
fn request_fields_tolerate_whitespace_null_and_order() {
    let mut bridge = Bridge::new();
    let actions = bridge
        .step(frame(
            " { \"data\" : { \"accounts\" : { \"web\" : null , \"riot\" : \"@a:m.org\" } , \"address\" : \"5FAddrB\" } , \"event\" : \"newJudgementRequest\" } ",
        ))
        .unwrap();
    assert_eq!(actions.len(), 2);
    match &actions[1] {
        BridgeAction::Forward(id) => {
            assert_eq!(id.network_address.address().as_bytes(), b"5FAddrB");
            assert!(id.web.is_none());
            assert_eq!(id.matrix.as_ref().unwrap().account.as_bytes(), b"@a:m.org");
        }
        other => panic!("expected the forwarded identity, got {:?}", other),
    }
}

#[test]
fn invalid_address_in_request_yields_error() {
    let mut bridge = Bridge::new();
    let actions = bridge
        .step(frame(
            r#"{"event":"newJudgementRequest","data":{"address":"0Invalid!","accounts":{}}}"#,
        ))
        .unwrap();
    expect_error_only(&actions);
}

#[test]
fn missing_accounts_member_yields_error() {
    let mut bridge = Bridge::new();
    let actions = bridge
        .step(frame(r#"{"event":"newJudgementRequest","data":{"address":"5FAddrA"}}"#))
        .unwrap();
    expect_error_only(&actions);
}

#[test]
fn judge_identity_command_becomes_one_result_frame() {
    let mut bridge = Bridge::new();
    let address = NetworkAddress::try_from(NetAccount::new(b"5FAddrA".to_vec())).unwrap();
    let actions = bridge
        .step(BridgeEvent::Bus(CommsMessage::JudgeIdentity {
            network_address: address,
            judgement: Judgement::Reasonable,
        }))
        .unwrap();
    assert_eq!(actions.len(), 1);
    match &actions[0] {
        BridgeAction::SendFrame(f) => {
            assert_eq!(
                f,
                br#"{"event":"judgementResult","data":{"address":"5FAddrA","judgement":"Reasonable"}}"#
            );
        }
        other => panic!("expected the result frame, got {:?}", other),
    }
}

#[test]
fn unexpected_bus_message_in_bridge_is_fatal() {
    let mut bridge = Bridge::new();
    let r = bridge.step(BridgeEvent::Bus(CommsMessage::InvalidRequest));
    assert_eq!(r.unwrap_err(), Fatal::UnrecognizedMessage);
}

#[test]
fn disconnect_is_reported_once_per_episode() {
    let mut bridge = Bridge::new();
    let first = bridge.step(BridgeEvent::ReceiveFailure).unwrap();
    assert_eq!(first.len(), 1);
    assert!(matches!(first[0], BridgeAction::ReportDisconnect));
    let second = bridge.step(BridgeEvent::ReceiveFailure).unwrap();
    assert!(second.is_empty());
    // A successfully received frame ends the episode.
    bridge.step(frame("junk")).unwrap();
    let third = bridge.step(BridgeEvent::ReceiveFailure).unwrap();
    assert_eq!(third.len(), 1);
}

#[test]
fn connection_ack_is_the_liveness_envelope() {
    assert_eq!(
        Bridge::connection_ack(),
        br#"{"event":"ack","data":{"result":"Connection established"}}"#
    );
}

#[test]
fn full_verification_scenario_end_to_end() {
    // Register address A with a chat account, observe one delivery; repeat
    // unchanged, observe none; accept the challenge, observe exactly one
    // judgement frame for A.
    let mut bridge = Bridge::new();
    let mut mgr = IdentityManager::new(Vec::new(), Vec::new());

    let actions = bridge
        .step(frame(
            r#"{"event":"newJudgementRequest","data":{"address":"5FAddrA","accounts":{"riot":"@alice:matrix.org"}}}"#,
        ))
        .unwrap();
    let ident = match actions.into_iter().nth(1).unwrap() {
        BridgeAction::Forward(id) => id,
        other => panic!("expected the forwarded identity, got {:?}", other),
    };
    let first = mgr.handle_register_request(ident);
    let deliveries = first
        .outbound
        .iter()
        .filter(|o| matches!(o, Outbound::Notify { .. }))
        .count();
    assert_eq!(deliveries, 1);

    let actions = bridge
        .step(frame(
            r#"{"event":"newJudgementRequest","data":{"address":"5FAddrA","accounts":{"riot":"@alice:matrix.org"}}}"#,
        ))
        .unwrap();
    let ident = match actions.into_iter().nth(1).unwrap() {
        BridgeAction::Forward(id) => id,
        other => panic!("expected the forwarded identity, got {:?}", other),
    };
    let second = mgr.handle_register_request(ident);
    assert_eq!(
        second
            .outbound
            .iter()
            .filter(|o| matches!(o, Outbound::Notify { .. }))
            .count(),
        0
    );

    let effects = mgr
        .handle_challenge_update(
            NetworkAddress::try_from(NetAccount::new(b"5FAddrA".to_vec())).unwrap(),
            AccountType::Matrix,
            ChallengeStatus::Accepted,
        )
        .unwrap();
    assert_eq!(effects.outbound.len(), 1);
    let (network_address, judgement) = match &effects.outbound[0] {
        Outbound::Judge { network_address, judgement } => (network_address, *judgement),
        other => panic!("expected a judgement command, got {:?}", other),
    };
    let actions = bridge
        .step(BridgeEvent::Bus(CommsMessage::JudgeIdentity {
            network_address: NetworkAddress::try_from(NetAccount::new(
                network_address.address().as_bytes().clone(),
            ))
            .unwrap(),
            judgement,
        }))
        .unwrap();
    assert_eq!(actions.len(), 1);
    match &actions[0] {
        BridgeAction::SendFrame(f) => {
            assert_eq!(
                f,
                br#"{"event":"judgementResult","data":{"address":"5FAddrA","judgement":"Reasonable"}}"#
            );
        }
        other => panic!("expected the result frame, got {:?}", other),
    }
}

#[test]
fn fresh_challenge_differs_from_its_raw_randomness() {
    // The challenge is the hex encoding of sixteen random bytes: thirty-two
    // digits, never the raw bytes themselves.
    let st = AccountState::new(
        registrar::primitives::Account::new(b"@x:m.org".to_vec()),
        AccountType::Matrix,
    );
    assert_eq!(st.challenge.bytes.len(), 32);
    assert!(st.challenge.bytes.iter().all(|b| b.is_ascii_hexdigit()));
}
