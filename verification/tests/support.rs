use registrar::event::{
    Event, EventType, ExternalOrigin, FieldAddress, IdentityField, IdentityState, Notification,
    StateWrapper, Timestamp, TTL,
};
use registrar::primitives::{NetAccount, NetworkAddress};
use registrar::twitter::{
    ApiEvent, ApiMessageCreate, ApiMessageData, ApiMessageRequest, ApiTarget, HttpMethod,
    TwitterBuilder, TwitterId,
};

#[test]
fn ttl_from_secs_is_milliseconds() {
    assert_eq!(TTL::from_secs(5).0, 5000);
    assert_eq!(TTL::from_secs(0).0, 0);
    assert_eq!(TTL::from_secs(u64::MAX).0, (u64::MAX as u128) * 1000);
    assert_eq!(TTL::immortal().0, 0);
}

#[test]
fn unix_time_is_after_the_epoch() {
    let t = Timestamp::unix_time();
    // Some moment well after 2001, in milliseconds.
    assert!(t.0 > 1_000_000_000_000);
}

#[test]
fn event_header_is_stamped_immortal() {
    let state = IdentityState {
        net_address: NetworkAddress::try_from(NetAccount::new(b"5FAddrA".to_vec())).unwrap(),
        fields: Vec::new(),
    };
    let event = Event::from(EventType::IdentityInserted(
        registrar::event::IdentityInserted { identity: state },
    ));
    assert_eq!(event.header.ttl.0, 0);
    assert!(matches!(event.body, EventType::IdentityInserted(_)));
}

#[test]
fn state_wrapper_keeps_its_notifications() {
    let state = IdentityState {
        net_address: NetworkAddress::try_from(NetAccount::new(b"5FAddrA".to_vec())).unwrap(),
        fields: Vec::new(),
    };
    let w = StateWrapper::with_notifications(
        state.clone(),
        vec![Notification::Info("delivered".to_string())],
    );
    assert_eq!(w.notifications.len(), 1);
    let bare = StateWrapper::from(state);
    assert!(bare.notifications.is_empty());
}

#[test]
fn identity_field_follows_its_origin() {
    let addr = FieldAddress { value: "@alice:matrix.org".to_string() };
    match IdentityField::from((ExternalOrigin::Matrix, addr.clone())) {
        IdentityField::Matrix(a) => assert_eq!(a.value, "@alice:matrix.org"),
        other => panic!("expected the chat field, got {:?}", other),
    }
    assert!(matches!(
        IdentityField::from((ExternalOrigin::Email, addr.clone())),
        IdentityField::Email(_)
    ));
    assert!(matches!(
        IdentityField::from((ExternalOrigin::Twitter, addr)),
        IdentityField::Twitter(_)
    ));
}

#[test]
fn twitter_id_reads_decimal_strings() {
    assert_eq!(TwitterId::try_from(&b"12345".to_vec()).unwrap().as_u64(), 12345);
    assert_eq!(
        TwitterId::try_from(&b"18446744073709551615".to_vec())
            .unwrap()
            .as_u64(),
        u64::MAX
    );
    assert!(TwitterId::try_from(&b"18446744073709551616".to_vec()).is_err());
    assert!(TwitterId::try_from(&b"".to_vec()).is_err());
    assert!(TwitterId::try_from(&b"12a45".to_vec()).is_err());
    assert!(TwitterId::try_from(&b"-3".to_vec()).is_err());
}

#[test]
fn twitter_builder_collects_credentials() {
    let b = TwitterBuilder::new()
        .consumer_key("ck".to_string())
        .consumer_secret("cs".to_string())
        .token("tk".to_string())
        .token_secret("ts".to_string());
    assert_eq!(b.consumer_key.as_deref(), Some("ck"));
    assert_eq!(b.consumer_secret.as_deref(), Some("cs"));
    assert_eq!(b.token.as_deref(), Some("tk"));
    assert_eq!(b.token_secret.as_deref(), Some("ts"));
    let fresh = TwitterBuilder::new();
    assert!(fresh.consumer_key.is_none() && fresh.token_secret.is_none());
}

#[test]
fn http_method_names_its_verb() {
    assert_eq!(HttpMethod::POST.as_str(), "POST");
    assert_eq!(HttpMethod::GET.as_str(), "GET");
}

fn api_event(id: &str, sender: Option<&str>, text: &str) -> ApiEvent {
    ApiEvent {
        t_type: b"message_create".to_vec(),
        id: id.as_bytes().to_vec(),
        created_timestamp: None,
        message_create: ApiMessageCreate {
            target: ApiTarget { recipient_id: b"9".to_vec() },
            sender_id: sender.map(|s| s.as_bytes().to_vec()),
            message_data: ApiMessageData { text: text.as_bytes().to_vec() },
        },
    }
}

#[test]
fn api_message_request_parses_all_events() {
    let req = ApiMessageRequest {
        events: vec![
            api_event("100", Some("42"), "hello"),
            api_event("101", Some("43"), "world"),
        ],
    };
    let messages = req.parse().unwrap();
    assert_eq!(messages.len(), 2);
    assert_eq!(messages[0].sender.as_u64(), 42);
    assert_eq!(messages[0].id, 100);
    assert_eq!(messages[0].message, b"hello".to_vec());
    assert_eq!(messages[1].sender.as_u64(), 43);
}

#[test]
fn api_message_request_rejects_missing_sender() {
    let req = ApiMessageRequest { events: vec![api_event("100", None, "hello")] };
    assert!(req.parse().is_err());
}

#[test]
fn api_message_request_rejects_non_numeric_id() {
    let req = ApiMessageRequest { events: vec![api_event("1x0", Some("42"), "hello")] };
    assert!(req.parse().is_err());
}

#[test]
fn gen_nonce_is_hex_and_gen_timestamp_is_now() {
    let n = registrar::twitter::gen_nonce();
    assert_eq!(n.len(), 32);
    assert!(n.iter().all(|b| b.is_ascii_hexdigit()));
    // Seconds since the epoch, some moment well after 2001.
    assert!(registrar::twitter::gen_timestamp() > 1_000_000_000);
}
