use vstd::prelude::*;
use crate::primitives::NetworkAddress;

verus! {

/// A display name as the chain lists it.
#[derive(Clone, PartialEq, Eq, Debug)]
pub struct DisplayName {
    pub value: String,
}

/// The external address of one identity field (a handle, an email
/// address).
#[derive(Clone, PartialEq, Eq, Debug)]
pub struct FieldAddress {
    pub value: String,
}

/// A message a collaborator fetched, possibly split into parts by its
/// parser.
#[derive(Clone, PartialEq, Eq, Debug)]
pub struct ProvidedMessage {
    pub parts: Vec<String>,
}

/// One verifiable field of an identity, tagged with the service it lives
/// on.
#[derive(Clone, PartialEq, Eq, Debug)]
pub enum IdentityField {
    Email(FieldAddress),
    Matrix(FieldAddress),
    Twitter(FieldAddress),
}

/// The audited verification state of one field.
#[derive(Clone, PartialEq, Eq, Debug)]
pub struct FieldStatus {
    pub field: IdentityField,
    pub is_verified: bool,
}

/// The audited state of one identity.
#[derive(Clone, Debug)]
pub struct IdentityState {
    pub net_address: NetworkAddress,
    pub fields: Vec<FieldStatus>,
}

/// An error surfaced to downstream consumers of the audit stream.
#[derive(Clone, PartialEq, Eq, Debug)]
pub struct ErrorMessage {
    pub code: u32,
    pub message: String,
}

/// Relies on std::time::SystemTime::now, read as milliseconds since the
/// Unix epoch; a clock standing before the epoch reads as zero. Nothing
/// can be promised of the clock's value.
#[verifier::external_body]
pub(crate) fn now_unix_millis() -> u128 {
    std::time::SystemTime::now()
        .duration_since(std::time::UNIX_EPOCH)
        .map(|d| d.as_millis())
        .unwrap_or(0)
}

/// A moment, in milliseconds since the Unix epoch.
#[derive(Clone, Copy, PartialEq, Eq, Structural, Debug)]
pub struct Timestamp(pub u128);

impl Timestamp {
    /// The clock now; its value depends on the machine and the moment.
    pub fn unix_time() -> Self {
        Timestamp(now_unix_millis())
    }
}

/// How long an audit event stays meaningful, in milliseconds; zero marks
/// one that never expires.
#[derive(Clone, Copy, PartialEq, Eq, Structural, Debug)]
pub struct TTL(pub u128);

impl TTL {
    pub fn from_secs(secs: u64) -> (r: Self)
        ensures
            r.0 == secs * 1000,
    {
        TTL((secs as u128) * 1000)
    }

    pub fn immortal() -> (r: Self)
        ensures
            r.0 == 0,
    {
        TTL(0)
    }
}

/// When an audit event was made and how long it stays meaningful.
#[derive(Clone, Copy, PartialEq, Eq, Structural, Debug)]
pub struct EventHeader {
    pub timestamp: Timestamp,
    pub ttl: TTL,
}

/// A message fetched from an external service, addressed to one identity
/// field.
#[derive(Clone, PartialEq, Eq, Debug)]
pub struct ExternalMessage {
    pub origin: ExternalOrigin,
    pub field_address: FieldAddress,
    pub message: ProvidedMessage,
}

/// Which external service a message came from.
#[derive(Clone, Copy, PartialEq, Eq, Structural, Debug)]
pub enum ExternalOrigin {
    Email,
    Matrix,
    Twitter,
}

impl IdentityField {
    /// The identity field an external origin and address denote.
    pub fn from(val: (ExternalOrigin, FieldAddress)) -> (r: Self)
        ensures
            val.0 == ExternalOrigin::Email ==> (r matches IdentityField::Email(a) && a == val.1),
            val.0 == ExternalOrigin::Matrix ==> (r matches IdentityField::Matrix(a) && a
                == val.1),
            val.0 == ExternalOrigin::Twitter ==> (r matches IdentityField::Twitter(a) && a
                == val.1),
    {
        let (origin, address) = val;
        match origin {
            ExternalOrigin::Email => IdentityField::Email(address),
            ExternalOrigin::Matrix => IdentityField::Matrix(address),
            ExternalOrigin::Twitter => IdentityField::Twitter(address),
        }
    }
}

/// The closed set of audit event bodies.
#[derive(Clone, Debug)]
pub enum EventType {
    IdentityInserted(IdentityInserted),
    ExternalMessage(ExternalMessage),
    FieldStatusVerified(FieldStatusVerified),
    IdentityFullyVerified(IdentityFullyVerified),
    DisplayNamePersisted(DisplayNamePersisted),
}

/// One audit event: a body under a header carrying its moment and
/// lifetime.
#[derive(Clone, Debug)]
pub struct Event {
    pub header: EventHeader,
    pub body: EventType,
}

impl Event {
    /// Wraps a body in a header stamped now and immortal.
    pub fn from(val: EventType) -> (r: Self)
        ensures
            r.body == val,
            r.header.ttl.0 == 0,
    {
        Event {
            header: EventHeader { timestamp: Timestamp::unix_time(), ttl: TTL::immortal() },
            body: val,
        }
    }
}

/// An identity state together with the notifications its change raised.
#[derive(Clone, Debug)]
pub struct StateWrapper {
    pub state: IdentityState,
    pub notifications: Vec<Notification>,
}

impl StateWrapper {
    pub fn with_notifications(state: IdentityState, notifications: Vec<Notification>) -> (r: Self)
        ensures
            r.state == state,
            r.notifications == notifications,
    {
        StateWrapper { state, notifications }
    }

    /// A state with no notifications.
    pub fn from(val: IdentityState) -> (r: Self)
        ensures
            r.state == val,
            r.notifications@.len() == 0,
    {
        StateWrapper { state: val, notifications: Vec::new() }
    }
}

/// A notification raised toward the identity's owner.
#[derive(Clone, PartialEq, Eq, Debug)]
pub enum Notification {
    Success(String),
    Info(String),
    Warn(String),
    Error(String),
}

/// The chains an identity may live on.
#[derive(Clone, Copy, PartialEq, Eq, Structural, Debug)]
pub enum BlankNetwork {
    Polkadot,
    Kusama,
}

/// Audit record: one field of an identity was verified.
#[derive(Clone, Debug)]
pub struct FieldStatusVerified {
    pub net_address: NetworkAddress,
    pub field_status: FieldStatus,
}

/// Audit record: every required field of an identity was verified.
#[derive(Clone, Debug)]
pub struct IdentityFullyVerified {
    pub net_address: NetworkAddress,
}

/// Audit record: a pending identity was inserted.
#[derive(Clone, Debug)]
pub struct IdentityInserted {
    pub identity: IdentityState,
}

/// Audit record: a display name was persisted.
#[derive(Clone, Debug)]
pub struct DisplayNamePersisted {
    pub net_address: NetworkAddress,
    pub display_name: DisplayName,
}

} // verus!
