use registrar::identity::{
    AccountState, AccountStatus, IdentityManager, OnChainIdentity, Outbound, PersistOp,
};
use registrar::primitives::{
    Account, AccountType, ChallengeStatus, Fatal, Judgement, NetAccount, NetworkAddress, RoomId,
};

fn account(s: &str) -> Account {
    Account::new(s.as_bytes().to_vec())
}

fn net_address(s: &str) -> NetworkAddress {
    NetworkAddress::try_from(NetAccount::new(s.as_bytes().to_vec())).unwrap()
}

fn ident_with_matrix(addr: &str, acct: &str) -> OnChainIdentity {
    OnChainIdentity {
        network_address: net_address(addr),
        display_name: None,
        legal_name: None,
        email: None,
        web: None,
        twitter: None,
        matrix: Some(AccountState::new(account(acct), AccountType::Matrix)),
    }
}

fn empty_manager() -> IdentityManager {
    IdentityManager::new(Vec::new(), Vec::new())
}

fn notify_count(outbound: &[Outbound]) -> usize {
    outbound
        .iter()
        .filter(|o| matches!(o, Outbound::Notify { .. }))
        .count()
}

#[test]
fn register_fresh_identity_delivers_one_challenge() {
    let mut mgr = empty_manager();
    let effects = mgr.handle_register_request(ident_with_matrix("5FAddrA", "@alice:matrix.org"));
    assert_eq!(effects.outbound.len(), 1);
    match &effects.outbound[0] {
        Outbound::Notify { dest, network_address, account, challenge, room_id } => {
            assert_eq!(*dest, AccountType::Matrix);
            assert_eq!(network_address.address().as_bytes(), b"5FAddrA");
            assert_eq!(account.as_bytes(), b"@alice:matrix.org");
            assert_eq!(challenge.bytes.len(), 32);
            assert!(room_id.is_none());
        }
        other => panic!("expected a delivery command, got {:?}", other),
    }
    assert_eq!(effects.persist.len(), 1);
    match &effects.persist[0] {
        PersistOp::PutIdentity(id) => {
            assert_eq!(id.network_address.address().as_bytes(), b"5FAddrA");
        }
        other => panic!("expected an identity write, got {:?}", other),
    }
}

#[test]
fn reregister_unchanged_account_suppresses_delivery() {
    let mut mgr = empty_manager();
    let first = mgr.handle_register_request(ident_with_matrix("5FAddrA", "@alice:matrix.org"));
    assert_eq!(notify_count(&first.outbound), 1);
    let second = mgr.handle_register_request(ident_with_matrix("5FAddrA", "@alice:matrix.org"));
    assert_eq!(notify_count(&second.outbound), 0);
    // The record is still pending, marked as already informed.
    let records = mgr.pending_identities();
    assert_eq!(records.len(), 1);
    let st = records[0].matrix.as_ref().unwrap();
    assert!(st.skip_inform);
    assert_eq!(st.account.as_bytes(), b"@alice:matrix.org");
}

#[test]
fn reregister_changed_account_keeps_old_state() {
    let mut mgr = empty_manager();
    let first = mgr.handle_register_request(ident_with_matrix("5FAddrA", "@alice:matrix.org"));
    let old_challenge = match &first.outbound[0] {
        Outbound::Notify { challenge, .. } => challenge.bytes.clone(),
        other => panic!("expected a delivery command, got {:?}", other),
    };
    mgr.handle_register_request(ident_with_matrix("5FAddrA", "@bob:matrix.org"));
    let records = mgr.pending_identities();
    assert_eq!(records.len(), 1);
    let st = records[0].matrix.as_ref().unwrap();
    // The policy keeps the previously stored account state verbatim.
    assert_eq!(st.account.as_bytes(), b"@alice:matrix.org");
    assert_eq!(st.challenge.bytes, old_challenge);
}

#[test]
fn challenge_accepted_emits_exactly_one_judgement() {
    let mut mgr = empty_manager();
    mgr.handle_register_request(ident_with_matrix("5FAddrA", "@alice:matrix.org"));
    let effects = mgr
        .handle_challenge_update(
            net_address("5FAddrA"),
            AccountType::Matrix,
            ChallengeStatus::Accepted,
        )
        .unwrap();
    assert_eq!(effects.outbound.len(), 1);
    match &effects.outbound[0] {
        Outbound::Judge { network_address, judgement } => {
            assert_eq!(network_address.address().as_bytes(), b"5FAddrA");
            assert_eq!(*judgement, Judgement::Reasonable);
        }
        other => panic!("expected a judgement command, got {:?}", other),
    }
}

#[test]
fn challenge_unconfirmed_emits_no_judgement() {
    let mut mgr = empty_manager();
    mgr.handle_register_request(ident_with_matrix("5FAddrA", "@alice:matrix.org"));
    let effects = mgr
        .handle_challenge_update(
            net_address("5FAddrA"),
            AccountType::Matrix,
            ChallengeStatus::Unconfirmed,
        )
        .unwrap();
    assert_eq!(effects.outbound.len(), 0);
    assert_eq!(effects.persist.len(), 1);
}

#[test]
fn challenge_update_for_unknown_address_is_fatal() {
    let mut mgr = empty_manager();
    let r = mgr.handle_challenge_update(
        net_address("5FAddrA"),
        AccountType::Matrix,
        ChallengeStatus::Accepted,
    );
    assert_eq!(r.unwrap_err(), Fatal::UnknownAddress);
}

#[test]
fn account_confirmation_updates_validity_only() {
    let mut mgr = empty_manager();
    mgr.handle_register_request(ident_with_matrix("5FAddrA", "@alice:matrix.org"));
    let effects = mgr
        .handle_account_confirmation(
            net_address("5FAddrA"),
            AccountType::Matrix,
            AccountStatus::Valid,
        )
        .unwrap();
    assert_eq!(effects.outbound.len(), 0);
    let records = mgr.pending_identities();
    let st = records[0].matrix.as_ref().unwrap();
    assert_eq!(st.account_validity, AccountStatus::Valid);
    assert_eq!(st.challenge_status, ChallengeStatus::Unconfirmed);
}

#[test]
fn account_confirmation_for_unknown_address_is_fatal() {
    let mut mgr = empty_manager();
    let r = mgr.handle_account_confirmation(
        net_address("5FAddrA"),
        AccountType::Matrix,
        AccountStatus::Valid,
    );
    assert_eq!(r.unwrap_err(), Fatal::UnknownAddress);
}

fn same_identity(a: &OnChainIdentity, b: &OnChainIdentity) -> bool {
    let states_match = |x: &Option<AccountState>, y: &Option<AccountState>| match (x, y) {
        (None, None) => true,
        (Some(x), Some(y)) => {
            x.account.bytes == y.account.bytes && x.account_ty == y.account_ty
                && x.account_validity == y.account_validity
                && x.challenge.bytes == y.challenge.bytes
                && x.challenge_status == y.challenge_status && x.skip_inform == y.skip_inform
        }
        _ => false,
    };
    a.network_address.address().as_bytes() == b.network_address.address().as_bytes()
        && a.display_name == b.display_name && a.legal_name == b.legal_name
        && states_match(&a.email, &b.email) && states_match(&a.web, &b.web)
        && states_match(&a.twitter, &b.twitter) && states_match(&a.matrix, &b.matrix)
}

#[test]
fn restart_from_persisted_records_rebuilds_equal_state() {
    let mut mgr = empty_manager();
    mgr.handle_register_request(ident_with_matrix("5FAddrA", "@alice:matrix.org"));
    mgr.handle_register_request(ident_with_matrix("5FAddrB", "@bob:matrix.org"));
    mgr.handle_message(registrar::comms::CommsMessage::TrackRoomId {
        address: NetAccount::new(b"5FAddrA".to_vec()),
        room_id: RoomId::new(b"!room:matrix.org".to_vec()),
    })
    .unwrap();
    mgr.handle_challenge_update(
        net_address("5FAddrA"),
        AccountType::Matrix,
        ChallengeStatus::Accepted,
    )
    .unwrap();

    let rebuilt = IdentityManager::new(mgr.pending_identities(), mgr.tracked_rooms());
    let before = mgr.pending_identities();
    let after = rebuilt.pending_identities();
    assert_eq!(before.len(), after.len());
    for a in &before {
        assert!(after.iter().any(|b| same_identity(a, b)));
    }
    let rooms_before = mgr.tracked_rooms();
    let rooms_after = rebuilt.tracked_rooms();
    assert_eq!(rooms_before.len(), rooms_after.len());
    for (k, v) in &rooms_before {
        assert!(rooms_after
            .iter()
            .any(|(k2, v2)| k.bytes == k2.bytes && v.bytes == v2.bytes));
    }
}

#[test]
fn interleaved_updates_of_distinct_addresses_replay_per_address() {
    // The same updates in two interleavings leave every address's record
    // equal to its own sequential replay.
    let mut seed = empty_manager();
    seed.handle_register_request(ident_with_matrix("5FAddrA", "@alice:matrix.org"));
    seed.handle_register_request(ident_with_matrix("5FAddrB", "@bob:matrix.org"));
    let mut one = IdentityManager::new(seed.pending_identities(), seed.tracked_rooms());
    let mut two = IdentityManager::new(seed.pending_identities(), seed.tracked_rooms());
    one.handle_challenge_update(
        net_address("5FAddrA"),
        AccountType::Matrix,
        ChallengeStatus::Accepted,
    )
    .unwrap();
    one.handle_account_confirmation(
        net_address("5FAddrB"),
        AccountType::Matrix,
        AccountStatus::Valid,
    )
    .unwrap();

    two.handle_account_confirmation(
        net_address("5FAddrB"),
        AccountType::Matrix,
        AccountStatus::Valid,
    )
    .unwrap();
    two.handle_challenge_update(
        net_address("5FAddrA"),
        AccountType::Matrix,
        ChallengeStatus::Accepted,
    )
    .unwrap();

    let records_one = one.pending_identities();
    let records_two = two.pending_identities();
    assert_eq!(records_one.len(), records_two.len());
    for a in &records_one {
        assert!(records_two.iter().any(|b| same_identity(a, b)));
    }
}

#[test]
fn tracked_room_rides_along_with_delivery() {
    let mut mgr = empty_manager();
    mgr.handle_message(registrar::comms::CommsMessage::TrackRoomId {
        address: NetAccount::new(b"5FAddrA".to_vec()),
        room_id: RoomId::new(b"!room:matrix.org".to_vec()),
    })
    .unwrap();
    let effects = mgr.handle_register_request(ident_with_matrix("5FAddrA", "@alice:matrix.org"));
    match &effects.outbound[0] {
        Outbound::Notify { room_id, .. } => {
            assert_eq!(room_id.as_ref().unwrap().bytes, b"!room:matrix.org".to_vec());
        }
        other => panic!("expected a delivery command, got {:?}", other),
    }
}

#[test]
fn account_state_request_answers_owner() {
    let mut mgr = empty_manager();
    mgr.handle_register_request(ident_with_matrix("5FAddrA", "@alice:matrix.org"));
    let effects = mgr
        .handle_account_state_request(account("@alice:matrix.org"), AccountType::Matrix)
        .unwrap();
    assert_eq!(effects.outbound.len(), 1);
    match &effects.outbound[0] {
        Outbound::Notify { dest, network_address, account, room_id, .. } => {
            assert_eq!(*dest, AccountType::ReservedEmitter);
            assert_eq!(network_address.address().as_bytes(), b"5FAddrA");
            assert_eq!(account.as_bytes(), b"@alice:matrix.org");
            assert!(room_id.is_none());
        }
        other => panic!("expected a reply, got {:?}", other),
    }
}

#[test]
fn account_state_request_without_match_signals_no_pending_request() {
    let mgr = empty_manager();
    let effects = mgr
        .handle_account_state_request(account("@nobody:matrix.org"), AccountType::Matrix)
        .unwrap();
    assert_eq!(effects.outbound.len(), 1);
    assert!(matches!(effects.outbound[0], Outbound::InvalidRequest));
}

#[test]
fn account_state_request_for_unsupported_type_fails_loudly() {
    let mgr = empty_manager();
    let r = mgr.handle_account_state_request(account("a@b.c"), AccountType::Email);
    assert_eq!(r.unwrap_err(), Fatal::UnsupportedAccountType);
}

#[test]
fn unrecognized_bus_message_is_fatal() {
    let mut mgr = empty_manager();
    let r = mgr.handle_message(registrar::comms::CommsMessage::InvalidRequest);
    assert_eq!(r.unwrap_err(), Fatal::UnrecognizedMessage);
}

#[test]
fn dispatch_without_registered_collaborator_is_fatal() {
    let mut mgr = empty_manager();
    let effects = mgr.handle_register_request(ident_with_matrix("5FAddrA", "@alice:matrix.org"));
    let r = mgr.dispatch(&effects.outbound);
    assert_eq!(r.unwrap_err(), Fatal::UnregisteredCollaborator);
}

#[test]
fn bus_carries_commands_to_registered_collaborator() {
    let mut mgr = empty_manager();
    let matrix_side = mgr.register_comms(AccountType::Matrix);
    assert!(matrix_side.try_recv().is_none());
    let effects = mgr.handle_register_request(ident_with_matrix("5FAddrA", "@alice:matrix.org"));
    mgr.dispatch(&effects.outbound).unwrap();
    match matrix_side.try_recv() {
        Some(registrar::comms::CommsMessage::NotifyAccountVerification {
            network_address,
            account,
            ..
        }) => {
            assert_eq!(network_address.address().as_bytes(), b"5FAddrA");
            assert_eq!(account.as_bytes(), b"@alice:matrix.org");
        }
        other => panic!("expected a delivery on the bus, got {:?}", other),
    }
    assert!(matrix_side.try_recv().is_none());
}

#[test]
fn collaborator_events_reach_the_registry_listener() {
    let mut mgr = empty_manager();
    let side = mgr.register_comms(AccountType::Matrix);
    assert!(mgr.poll().is_none());
    side.notify_new_identity(ident_with_matrix("5FAddrA", "@alice:matrix.org"));
    match mgr.poll() {
        Some(registrar::comms::CommsMessage::NewJudgementRequest(id)) => {
            assert_eq!(id.network_address.address().as_bytes(), b"5FAddrA");
        }
        other => panic!("expected the forwarded identity, got {:?}", other),
    }
}

#[test]
fn bus_update_messages_drive_the_registry() {
    let mut mgr = empty_manager();
    let matrix_side = mgr.register_comms(AccountType::Matrix);
    let bridge_side = mgr.register_comms(AccountType::ReservedConnector);
    mgr.handle_register_request(ident_with_matrix("5FAddrA", "@alice:matrix.org"));
    matrix_side.send_to_main(registrar::comms::CommsMessage::UpdateChallengeStatus {
        network_address: net_address("5FAddrA"),
        account_ty: AccountType::Matrix,
        status: ChallengeStatus::Accepted,
    });
    let msg = mgr.poll().expect("the update must be queued");
    let effects = mgr.handle_message(msg).unwrap();
    mgr.dispatch(&effects.outbound).unwrap();
    match bridge_side.try_recv() {
        Some(registrar::comms::CommsMessage::JudgeIdentity { network_address, judgement }) => {
            assert_eq!(network_address.address().as_bytes(), b"5FAddrA");
            assert_eq!(judgement, Judgement::Reasonable);
        }
        other => panic!("expected the judgement command, got {:?}", other),
    }
}

#[test]
fn fresh_account_state_has_unknown_validity_and_new_challenge() {
    let a = AccountState::new(account("@alice:matrix.org"), AccountType::Matrix);
    let b = AccountState::new(account("@alice:matrix.org"), AccountType::Matrix);
    assert_eq!(a.account_validity, AccountStatus::Unknown);
    assert_eq!(a.challenge_status, ChallengeStatus::Unconfirmed);
    assert!(!a.skip_inform);
    assert_eq!(a.challenge.bytes.len(), 32);
    // Hex encoding widens the sixteen random bytes to thirty-two digits.
    assert!(a.challenge.bytes.iter().all(|b| b.is_ascii_hexdigit()));
    // Two generated challenges are fresh randomness.
    assert_ne!(a.challenge.bytes, b.challenge.bytes);
}

#[test]
fn network_address_accepts_base58_and_rejects_the_rest() {
    assert!(NetworkAddress::try_from(NetAccount::new(b"5FAddrA".to_vec())).is_ok());
    assert!(NetworkAddress::try_from(NetAccount::new(b"".to_vec())).is_err());
    assert!(NetworkAddress::try_from(NetAccount::new(b"has zero 0".to_vec())).is_err());
    assert!(NetworkAddress::try_from(NetAccount::new(b"hasOandI".to_vec())).is_err());
    assert!(NetworkAddress::try_from(NetAccount::new(vec![b'a'; 65])).is_err());
}
