use vstd::prelude::*;
use crate::primitives::clone_bytes;

verus! {

/// The error a malformed external-service payload raises; failures here
/// are reported, never fatal to the core.
#[derive(Clone, Copy, PartialEq, Eq, Structural, Debug)]
pub enum TwitterError {
    UnrecognizedData,
}

/// A user's numeric identifier on the social service.
#[derive(Clone, Copy, PartialEq, Eq, Structural, Debug)]
pub struct TwitterId(pub u64);

/// A decimal number read digit by digit; a non-digit or a value past the
/// largest representable one is a failure.
pub open spec fn parse_u64_rec(s: Seq<u8>, i: int, acc: nat) -> Option<nat>
    decreases s.len() - i,
{
    if !(0 <= i) {
        None
    } else if i >= s.len() {
        Some(acc)
    } else if 48 <= s[i] && s[i] <= 57 {
        let acc2 = acc * 10 + (s[i] - 48) as nat;
        if acc2 > 0xffff_ffff_ffff_ffff {
            None
        } else {
            parse_u64_rec(s, i + 1, acc2)
        }
    } else {
        None
    }
}

/// The value of a non-empty, all-digit byte string that fits the machine
/// word.
pub open spec fn spec_parse_u64(s: Seq<u8>) -> Option<nat> {
    if s.len() == 0 {
        None
    } else {
        parse_u64_rec(s, 0, 0)
    }
}

/// Reads a decimal u64, failing exactly where `spec_parse_u64` does.
pub fn parse_u64(s: &Vec<u8>) -> (r: Option<u64>)
    ensures
        match (r, spec_parse_u64(s@)) {
            (Some(a), Some(b)) => a as nat == b,
            (None, None) => true,
            _ => false,
        },
{
    if s.len() == 0 {
        return None;
    }
    let mut acc: u64 = 0;
    let mut i: usize = 0;
    while i < s.len()
        invariant
            0 <= i <= s@.len(),
            parse_u64_rec(s@, 0, 0) == parse_u64_rec(s@, i as int, acc as nat),
        decreases s@.len() - i,
    {
        let b = s[i];
        if !(48 <= b && b <= 57) {
            return None;
        }
        let d = (b - 48) as u64;
        let acc2 = match acc.checked_mul(10) {
            Some(m) => match m.checked_add(d) {
                Some(a) => a,
                None => {
                    return None;
                }
            },
            None => {
                proof {
                    assert(acc * 10 + (b - 48) as nat > 0xffff_ffff_ffff_ffff);
                }
                return None;
            }
        };
        acc = acc2;
        i += 1;
    }
    Some(acc)
}

impl TwitterId {
    pub fn as_u64(&self) -> (r: u64)
        ensures
            r == self.0,
    {
        self.0
    }

    /// The identifier a decimal byte string names, failing exactly on
    /// non-numeric input.
    pub fn try_from(val: &Vec<u8>) -> (r: Result<TwitterId, TwitterError>)
        ensures
            r is Ok <==> spec_parse_u64(val@) is Some,
            r matches Ok(id) ==> Some(id.0 as nat) == spec_parse_u64(val@),
    {
        match parse_u64(val) {
            Some(v) => Ok(TwitterId(v)),
            None => Err(TwitterError::UnrecognizedData),
        }
    }
}

/// One direct message, already resolved to a known sender.
#[derive(Clone, PartialEq, Eq, Debug)]
pub struct ReceivedMessageContext {
    pub sender: TwitterId,
    pub id: u64,
    pub message: Vec<u8>,
}

/// One outbound message toward a handle.
#[derive(Clone, PartialEq, Eq, Debug)]
pub struct TwitterMessage {
    pub sender: String,
    pub message: String,
}

/// The error object the external service's API answers with.
#[derive(Clone, PartialEq, Eq, Debug)]
pub struct ApiErrorObject {
    pub code: i64,
    pub message: String,
}

/// Collects the credentials of the social-service adapter before the
/// HTTP-speaking handler is built around them.
#[derive(Clone, Debug)]
pub struct TwitterBuilder {
    pub consumer_key: Option<String>,
    pub consumer_secret: Option<String>,
    pub token: Option<String>,
    pub token_secret: Option<String>,
}

impl TwitterBuilder {
    pub fn new() -> (r: Self)
        ensures
            r.consumer_key is None,
            r.consumer_secret is None,
            r.token is None,
            r.token_secret is None,
    {
        TwitterBuilder { consumer_key: None, consumer_secret: None, token: None, token_secret: None }
    }

    pub fn consumer_key(self, key: String) -> (r: Self)
        ensures
            r.consumer_key == Some(key),
            r.consumer_secret == self.consumer_secret,
            r.token == self.token,
            r.token_secret == self.token_secret,
    {
        let mut s = self;
        s.consumer_key = Some(key);
        s
    }

    pub fn consumer_secret(self, key: String) -> (r: Self)
        ensures
            r.consumer_secret == Some(key),
            r.consumer_key == self.consumer_key,
            r.token == self.token,
            r.token_secret == self.token_secret,
    {
        let mut s = self;
        s.consumer_secret = Some(key);
        s
    }

    pub fn token(self, token: String) -> (r: Self)
        ensures
            r.token == Some(token),
            r.consumer_key == self.consumer_key,
            r.consumer_secret == self.consumer_secret,
            r.token_secret == self.token_secret,
    {
        let mut s = self;
        s.token = Some(token);
        s
    }

    pub fn token_secret(self, secret: String) -> (r: Self)
        ensures
            r.token_secret == Some(secret),
            r.consumer_key == self.consumer_key,
            r.consumer_secret == self.consumer_secret,
            r.token == self.token,
    {
        let mut s = self;
        s.token_secret = Some(secret);
        s
    }
}

/// The verbs of the service's HTTP API.
#[derive(Clone, Copy, PartialEq, Eq, Structural, Debug)]
pub enum HttpMethod {
    POST,
    GET,
}

impl HttpMethod {
    pub fn as_str(&self) -> (r: &'static str)
        ensures
            *self == HttpMethod::POST ==> r@ == "POST"@,
            *self == HttpMethod::GET ==> r@ == "GET"@,
    {
        match self {
            HttpMethod::POST => "POST",
            HttpMethod::GET => "GET",
        }
    }
}

/// The seconds-since-epoch timestamp a request signature carries; its
/// value depends on the clock.
pub fn gen_timestamp() -> u64 {
    let millis = crate::event::now_unix_millis();
    let secs = millis / 1000;
    if secs > 0xffff_ffff_ffff_ffff {
        0xffff_ffff_ffff_ffff
    } else {
        secs as u64
    }
}

/// The random nonce a request signature carries: 32 hex digits of fresh
/// randomness.
pub fn gen_nonce() -> (r: Vec<u8>)
    ensures
        r@.len() == 32,
{
    crate::primitives::Challenge::gen_random().bytes
}

/// One message event as the service's API lists it.
#[derive(Clone, PartialEq, Eq, Debug)]
pub struct ApiEvent {
    pub t_type: Vec<u8>,
    pub id: Vec<u8>,
    pub created_timestamp: Option<Vec<u8>>,
    pub message_create: ApiMessageCreate,
}

#[derive(Clone, PartialEq, Eq, Debug)]
pub struct ApiMessageCreate {
    pub target: ApiTarget,
    pub sender_id: Option<Vec<u8>>,
    pub message_data: ApiMessageData,
}

#[derive(Clone, PartialEq, Eq, Debug)]
pub struct ApiTarget {
    pub recipient_id: Vec<u8>,
}

#[derive(Clone, PartialEq, Eq, Debug)]
pub struct ApiMessageData {
    pub text: Vec<u8>,
}

/// Whether one listed event carries everything a message needs: a sender
/// and a numeric event identifier.
pub open spec fn event_parses(e: ApiEvent) -> bool {
    match e.message_create.sender_id {
        Some(sid) => spec_parse_u64(sid@) is Some && spec_parse_u64(e.id@) is Some,
        None => false,
    }
}

/// The message one well-formed listed event denotes.
pub open spec fn event_message(e: ApiEvent) -> ReceivedMessageContext
    recommends
        event_parses(e),
{
    ReceivedMessageContext {
        sender: TwitterId(spec_parse_u64(e.message_create.sender_id->Some_0@)->Some_0 as u64),
        id: spec_parse_u64(e.id@)->Some_0 as u64,
        message: e.message_create.message_data.text,
    }
}

/// The message list the service's API answered with.
#[derive(Clone, PartialEq, Eq, Debug)]
pub struct ApiMessageRequest {
    pub events: Vec<ApiEvent>,
}

impl ApiMessageRequest {
    /// Reads every listed event into a message, failing on the first event
    /// that lacks a sender or a numeric identifier.
    pub fn parse(self) -> (r: Result<Vec<ReceivedMessageContext>, TwitterError>)
        ensures
            r is Ok <==> (forall|i: int| 0 <= i < self.events@.len() ==> event_parses(
                #[trigger] self.events@[i],
            )),
            r matches Ok(v) ==> v@.len() == self.events@.len() && (forall|i: int|
                0 <= i < v@.len() ==> v@[i].sender == event_message(#[trigger] self.events@[i]).sender
                    && v@[i].id == event_message(self.events@[i]).id && v@[i].message@
                    == event_message(self.events@[i]).message@),
            r matches Err(e) ==> e == TwitterError::UnrecognizedData,
    {
        let mut messages: Vec<ReceivedMessageContext> = Vec::new();
        let mut i: usize = 0;
        while i < self.events.len()
            invariant
                0 <= i <= self.events@.len(),
                messages@.len() == i,
                forall|j: int| 0 <= j < i ==> event_parses(#[trigger] self.events@[j]),
                forall|j: int| 0 <= j < i ==> messages@[j].sender == event_message(
                    #[trigger] self.events@[j],
                ).sender && messages@[j].id == event_message(self.events@[j]).id
                    && messages@[j].message@ == event_message(self.events@[j]).message@,
            decreases self.events@.len() - i,
        {
            let event = &self.events[i];
            let sender_bytes = match &event.message_create.sender_id {
                Some(sid) => sid,
                None => {
                    return Err(TwitterError::UnrecognizedData);
                }
            };
            let sender = match parse_u64(sender_bytes) {
                Some(v) => TwitterId(v),
                None => {
                    return Err(TwitterError::UnrecognizedData);
                }
            };
            let id = match parse_u64(&event.id) {
                Some(v) => v,
                None => {
                    return Err(TwitterError::UnrecognizedData);
                }
            };
            messages.push(
                ReceivedMessageContext {
                    sender,
                    id,
                    message: clone_bytes(&event.message_create.message_data.text),
                },
            );
            i += 1;
        }
        Ok(messages)
    }
}

} // verus!
