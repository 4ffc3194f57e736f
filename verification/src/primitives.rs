use vstd::prelude::*;

verus! {

/// The external collaborator kinds the registry can talk to. Two are
/// reserved: one for the watcher link and one for the query-answering path.
#[derive(Clone, Copy, PartialEq, Eq, Structural, Debug)]
pub enum AccountType {
    Email,
    Web,
    Twitter,
    Matrix,
    ReservedConnector,
    ReservedEmitter,
}

/// Status of a claimed account's challenge: it starts unconfirmed and moves
/// to the accepted terminal value once proof of control was seen.
#[derive(Clone, Copy, PartialEq, Eq, Structural, Debug)]
pub enum ChallengeStatus {
    Unconfirmed,
    Accepted,
}

/// The terminal verdict sent back to the watcher.
#[derive(Clone, Copy, PartialEq, Eq, Structural, Debug)]
pub enum Judgement {
    Reasonable,
}

/// The fatal error class: state or logic corruption that must stop the
/// process rather than continue with unknown state.
#[derive(Clone, Copy, PartialEq, Eq, Structural, Debug)]
pub enum Fatal {
    UnknownAddress,
    MissingAccountState,
    UnsupportedAccountType,
    UnrecognizedMessage,
    UnregisteredCollaborator,
    ChannelClosed,
}

/// The error of a failed conversion of watcher-supplied data.
#[derive(Clone, Copy, PartialEq, Eq, Structural, Debug)]
pub enum ConvertError {
    InvalidAddress,
}

/// An on-chain account identifier, the registry's primary key, held as its
/// raw byte representation.
#[derive(Clone, Debug)]
pub struct NetAccount {
    pub bytes: Vec<u8>,
}

impl View for NetAccount {
    type V = Seq<u8>;

    open spec fn view(&self) -> Seq<u8> {
        self.bytes@
    }
}

impl NetAccount {
    pub fn new(bytes: Vec<u8>) -> (r: Self)
        ensures
            r@ == bytes@,
    {
        NetAccount { bytes }
    }

    pub fn as_bytes(&self) -> (r: &Vec<u8>)
        ensures
            r@ == self@,
    {
        &self.bytes
    }
}

/// Opaque public-key material accompanying an address. The chain-specific
/// decoding of the key is left to the embedding; the registry only carries
/// it along.
#[derive(Clone, Debug)]
pub struct PubKey {
    pub bytes: Vec<u8>,
}

impl View for PubKey {
    type V = Seq<u8>;

    open spec fn view(&self) -> Seq<u8> {
        self.bytes@
    }
}

/// A claimed external account value (a handle, an email address), held as
/// its raw byte representation.
#[derive(Clone, Debug)]
pub struct Account {
    pub bytes: Vec<u8>,
}

impl View for Account {
    type V = Seq<u8>;

    open spec fn view(&self) -> Seq<u8> {
        self.bytes@
    }
}

impl Account {
    pub fn new(bytes: Vec<u8>) -> (r: Self)
        ensures
            r@ == bytes@,
    {
        Account { bytes }
    }

    pub fn as_bytes(&self) -> (r: &Vec<u8>)
        ensures
            r@ == self@,
    {
        &self.bytes
    }
}

/// An opaque external-context identifier (a chat room) tracked per address.
#[derive(Clone, Debug)]
pub struct RoomId {
    pub bytes: Vec<u8>,
}

impl View for RoomId {
    type V = Seq<u8>;

    open spec fn view(&self) -> Seq<u8> {
        self.bytes@
    }
}

impl RoomId {
    pub fn new(bytes: Vec<u8>) -> (r: Self)
        ensures
            r@ == bytes@,
    {
        RoomId { bytes }
    }
}

/// The random token a claimant must expose through the claimed account's
/// external channel.
#[derive(Clone, Debug)]
pub struct Challenge {
    pub bytes: Vec<u8>,
}

impl View for Challenge {
    type V = Seq<u8>;

    open spec fn view(&self) -> Seq<u8> {
        self.bytes@
    }
}

/// Relies on rand::random for a `[u8; 16]` value: sixteen bytes drawn from
/// the thread-local generator. Nothing is promised of their values.
#[verifier::external_body]
fn random_bytes16() -> (r: Vec<u8>)
    ensures
        r@.len() == 16,
{
    rand::random::<[u8; 16]>().to_vec()
}

/// The byte values of the lowercase hex alphabet.
pub open spec fn is_lower_hex_digit(b: u8) -> bool {
    (48 <= b && b <= 57) || (97 <= b && b <= 102)
}

/// Relies on hex::encode: two lowercase hex digits for each input byte.
#[verifier::external_body]
fn hex_encode(b: &Vec<u8>) -> (r: Vec<u8>)
    ensures
        r@.len() == 2 * b@.len(),
        forall|i: int| 0 <= i < r@.len() ==> is_lower_hex_digit(#[trigger] r@[i]),
{
    hex::encode(b).into_bytes()
}

impl Challenge {
    /// Generates a fresh random challenge token. Each call draws new
    /// randomness: a regenerated account state carries a new token.
    pub fn gen_random() -> (c: Challenge)
        ensures
            c@.len() == 32,
            forall|i: int| 0 <= i < c@.len() ==> is_lower_hex_digit(#[trigger] c@[i]),
    {
        let raw = random_bytes16();
        Challenge { bytes: hex_encode(&raw) }
    }
}

/// The byte values the address well-formedness check admits: the base58
/// alphabet (digits and letters without 0, O, I and l).
pub open spec fn is_base58_byte(b: u8) -> bool {
    (49 <= b && b <= 57)  // '1'..='9'
    || (65 <= b && b <= 72)  // 'A'..='H'
    || (74 <= b && b <= 78)  // 'J'..='N'
    || (80 <= b && b <= 90)  // 'P'..='Z'
    || (97 <= b && b <= 107)  // 'a'..='k'
    || (109 <= b && b <= 122)  // 'm'..='z'
}

/// A well-formed address: non-empty, bounded, and over the base58 alphabet.
pub open spec fn is_valid_address(s: Seq<u8>) -> bool {
    1 <= s.len() <= 64 && forall|i: int| 0 <= i < s.len() ==> is_base58_byte(s[i])
}

/// An on-chain address together with its public-key material. Immutable
/// once an identity is registered under it.
#[derive(Clone, Debug)]
pub struct NetworkAddress {
    pub address: NetAccount,
    pub pub_key: PubKey,
}

/// The mathematical value of a `NetworkAddress`.
#[verifier::ext_equal]
pub struct NetworkAddressV {
    pub address: Seq<u8>,
    pub pub_key: Seq<u8>,
}

impl View for NetworkAddress {
    type V = NetworkAddressV;

    open spec fn view(&self) -> NetworkAddressV {
        NetworkAddressV { address: self.address@, pub_key: self.pub_key@ }
    }
}

impl NetworkAddress {
    /// Validates an address and takes it as the key of a new
    /// `NetworkAddress`; the raw address bytes are kept as the opaque key
    /// material. Fails exactly on addresses outside the accepted alphabet
    /// or length bounds.
    pub fn try_from(account: NetAccount) -> (r: Result<NetworkAddress, ConvertError>)
        ensures
            r is Ok <==> is_valid_address(account@),
            r matches Ok(a) ==> a@.address == account@ && a@.pub_key == account@,
    {
        let n = account.bytes.len();
        if n < 1 || n > 64 {
            return Err(ConvertError::InvalidAddress);
        }
        let mut i: usize = 0;
        while i < account.bytes.len()
            invariant
                0 <= i <= account.bytes.len(),
                forall|j: int| 0 <= j < i ==> is_base58_byte(account.bytes@[j]),
            decreases account.bytes.len() - i,
        {
            let b = account.bytes[i];
            let ok = (49 <= b && b <= 57) || (65 <= b && b <= 72) || (74 <= b && b <= 78)
                || (80 <= b && b <= 90) || (97 <= b && b <= 107) || (109 <= b && b <= 122);
            if !ok {
                return Err(ConvertError::InvalidAddress);
            }
            i += 1;
        }
        let key_bytes = clone_bytes(&account.bytes);
        Ok(NetworkAddress { address: account, pub_key: PubKey { bytes: key_bytes } })
    }

    pub fn address(&self) -> (r: &NetAccount)
        ensures
            r@ == self@.address,
    {
        &self.address
    }

    pub fn pub_key(&self) -> (r: &PubKey)
        ensures
            r@ == self@.pub_key,
    {
        &self.pub_key
    }
}

/// Byte-wise equality of two byte vectors, the comparison every keyed
/// lookup in the registry rests on.
pub fn bytes_eq(a: &Vec<u8>, b: &Vec<u8>) -> (r: bool)
    ensures
        r == (a@ == b@),
{
    if a.len() != b.len() {
        assert(a@ != b@);
        return false;
    }
    let mut i: usize = 0;
    while i < a.len()
        invariant
            0 <= i <= a.len(),
            a.len() == b.len(),
            forall|j: int| 0 <= j < i ==> a@[j] == b@[j],
        decreases a.len() - i,
    {
        if a[i] != b[i] {
            assert(a@ != b@);
            return false;
        }
        i += 1;
    }
    assert(a@ =~= b@);
    true
}

/// An owned copy of a network address with the same mathematical value.
pub fn clone_network_address(a: &NetworkAddress) -> (r: NetworkAddress)
    ensures
        r@ == a@,
{
    let r = NetworkAddress {
        address: NetAccount { bytes: clone_bytes(&a.address.bytes) },
        pub_key: PubKey { bytes: clone_bytes(&a.pub_key.bytes) },
    };
    assert(r@ =~= a@);
    r
}

/// An owned copy of a byte vector with the same contents.
pub fn clone_bytes(v: &Vec<u8>) -> (r: Vec<u8>)
    ensures
        r@ == v@,
{
    let mut out: Vec<u8> = Vec::new();
    let mut i: usize = 0;
    while i < v.len()
        invariant
            0 <= i <= v.len(),
            out@ == v@.subrange(0, i as int),
        decreases v.len() - i,
    {
        out.push(v[i]);
        i += 1;
    }
    assert(out@ =~= v@);
    out
}

} // verus!
