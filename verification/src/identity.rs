use vstd::prelude::*;
use crate::alist::{al_unique, AList};
use crate::comms::{generate_comms, CommsMain, CommsMessage, CommsTable, CommsVerifier};
use crate::primitives::{
    bytes_eq, clone_bytes, clone_network_address, Account, AccountType, Challenge,
    ChallengeStatus, Fatal, Judgement, NetAccount, NetworkAddress, NetworkAddressV, PubKey,
    RoomId,
};

verus! {

/// Validity of a claimed account as reported by its collaborator.
#[derive(Clone, Copy, PartialEq, Eq, Structural, Debug)]
pub enum AccountStatus {
    Unknown,
    Valid,
    Invalid,
    Notified,
}

/// Per claimed external account: the claimed value, its verification
/// state, and the challenge bound to this state instance. Regenerating the
/// state regenerates the challenge.
#[derive(Debug)]
pub struct AccountState {
    pub account: Account,
    pub account_ty: AccountType,
    pub account_validity: AccountStatus,
    pub challenge: Challenge,
    pub challenge_status: ChallengeStatus,
    pub skip_inform: bool,
}

/// The mathematical value of an `AccountState`.
#[verifier::ext_equal]
pub struct AccountStateV {
    pub account: Seq<u8>,
    pub account_ty: AccountType,
    pub account_validity: AccountStatus,
    pub challenge: Seq<u8>,
    pub challenge_status: ChallengeStatus,
    pub skip_inform: bool,
}

impl View for AccountState {
    type V = AccountStateV;

    open spec fn view(&self) -> AccountStateV {
        AccountStateV {
            account: self.account@,
            account_ty: self.account_ty,
            account_validity: self.account_validity,
            challenge: self.challenge@,
            challenge_status: self.challenge_status,
            skip_inform: self.skip_inform,
        }
    }
}

impl AccountState {
    /// A fresh state for a newly claimed account: unknown validity, a new
    /// random challenge, unconfirmed, and not suppressed.
    pub fn new(account: Account, account_ty: AccountType) -> (s: Self)
        ensures
            s@.account == account@,
            s@.account_ty == account_ty,
            s@.account_validity == AccountStatus::Unknown,
            s@.challenge.len() == 32,
            s@.challenge_status == ChallengeStatus::Unconfirmed,
            s@.skip_inform == false,
    {
        AccountState {
            account,
            account_ty,
            account_validity: AccountStatus::Unknown,
            challenge: Challenge::gen_random(),
            challenge_status: ChallengeStatus::Unconfirmed,
            skip_inform: false,
        }
    }
}

/// An owned copy of an account state with the same mathematical value.
pub fn clone_state(st: &AccountState) -> (r: AccountState)
    ensures
        r@ == st@,
{
    let r = AccountState {
        account: Account { bytes: clone_bytes(&st.account.bytes) },
        account_ty: st.account_ty,
        account_validity: st.account_validity,
        challenge: Challenge { bytes: clone_bytes(&st.challenge.bytes) },
        challenge_status: st.challenge_status,
        skip_inform: st.skip_inform,
    };
    assert(r@ =~= st@);
    r
}

/// One pending verification case, keyed by its network address. Created
/// when a judgement request first names the address; mutated only by the
/// registry.
#[derive(Debug)]
pub struct OnChainIdentity {
    pub network_address: NetworkAddress,
    pub display_name: Option<Vec<u8>>,
    pub legal_name: Option<Vec<u8>>,
    pub email: Option<AccountState>,
    pub web: Option<AccountState>,
    pub twitter: Option<AccountState>,
    pub matrix: Option<AccountState>,
}

/// The mathematical value of an `OnChainIdentity`.
#[verifier::ext_equal]
pub struct OnChainIdentityV {
    pub network_address: NetworkAddressV,
    pub display_name: Option<Seq<u8>>,
    pub legal_name: Option<Seq<u8>>,
    pub email: Option<AccountStateV>,
    pub web: Option<AccountStateV>,
    pub twitter: Option<AccountStateV>,
    pub matrix: Option<AccountStateV>,
}

pub open spec fn opt_bytes_view(o: Option<Vec<u8>>) -> Option<Seq<u8>> {
    match o {
        Some(v) => Some(v@),
        None => None,
    }
}

pub open spec fn opt_state_view(o: Option<AccountState>) -> Option<AccountStateV> {
    match o {
        Some(s) => Some(s@),
        None => None,
    }
}

impl View for OnChainIdentity {
    type V = OnChainIdentityV;

    open spec fn view(&self) -> OnChainIdentityV {
        OnChainIdentityV {
            network_address: self.network_address@,
            display_name: opt_bytes_view(self.display_name),
            legal_name: opt_bytes_view(self.legal_name),
            email: opt_state_view(self.email),
            web: opt_state_view(self.web),
            twitter: opt_state_view(self.twitter),
            matrix: opt_state_view(self.matrix),
        }
    }
}

/// The identity after a challenge-status update that targets one account
/// type; every other part is untouched. Only the chat account is carried
/// by this design; other targeted types leave the record as it is.
pub open spec fn spec_set_challenge_status(
    id: OnChainIdentityV,
    ty: AccountType,
    cs: ChallengeStatus,
) -> OnChainIdentityV {
    if ty == AccountType::Matrix {
        match id.matrix {
            Some(st) => OnChainIdentityV {
                matrix: Some(AccountStateV { challenge_status: cs, ..st }),
                ..id
            },
            None => id,
        }
    } else {
        id
    }
}

/// The identity after an account-validity update; the counterpart of
/// `spec_set_challenge_status` for the validity field.
pub open spec fn spec_set_validity(
    id: OnChainIdentityV,
    ty: AccountType,
    av: AccountStatus,
) -> OnChainIdentityV {
    if ty == AccountType::Matrix {
        match id.matrix {
            Some(st) => OnChainIdentityV {
                matrix: Some(AccountStateV { account_validity: av, ..st }),
                ..id
            },
            None => id,
        }
    } else {
        id
    }
}

impl OnChainIdentity {
    pub fn pub_key(&self) -> (r: &PubKey)
        ensures
            r@ == self@.network_address.pub_key,
    {
        self.network_address.pub_key()
    }

    /// Sets the targeted account's challenge status. An update that names
    /// a chat account the record does not hold is a state invariant the
    /// registry treats as fatal before calling here.
    pub fn set_challenge_status(&mut self, account_ty: AccountType, challenge_status: ChallengeStatus)
        requires
            account_ty == AccountType::Matrix ==> old(self).matrix is Some,
        ensures
            final(self)@ == spec_set_challenge_status(old(self)@, account_ty, challenge_status),
    {
        match account_ty {
            AccountType::Matrix => {
                let st = match &self.matrix {
                    Some(st) => clone_state(st),
                    None => {
                        proof {
                            assert(false);
                        }
                        unreached()
                    }
                };
                let mut st = st;
                st.challenge_status = challenge_status;
                self.matrix = Some(st);
                assert(self@ =~= spec_set_challenge_status(old(self)@, account_ty, challenge_status));
            }
            _ => {
                assert(self@ =~= spec_set_challenge_status(old(self)@, account_ty, challenge_status));
            }
        }
    }

    /// Sets the targeted account's validity; same shape as
    /// `set_challenge_status`.
    pub fn set_validity(&mut self, account_ty: AccountType, account_validity: AccountStatus)
        requires
            account_ty == AccountType::Matrix ==> old(self).matrix is Some,
        ensures
            final(self)@ == spec_set_validity(old(self)@, account_ty, account_validity),
    {
        match account_ty {
            AccountType::Matrix => {
                let st = match &self.matrix {
                    Some(st) => clone_state(st),
                    None => {
                        proof {
                            assert(false);
                        }
                        unreached()
                    }
                };
                let mut st = st;
                st.account_validity = account_validity;
                self.matrix = Some(st);
                assert(self@ =~= spec_set_validity(old(self)@, account_ty, account_validity));
            }
            _ => {
                assert(self@ =~= spec_set_validity(old(self)@, account_ty, account_validity));
            }
        }
    }
}

/// An owned copy of an identity with the same mathematical value.
pub fn clone_identity(id: &OnChainIdentity) -> (r: OnChainIdentity)
    ensures
        r@ == id@,
{
    let r = OnChainIdentity {
        network_address: NetworkAddress {
            address: crate::primitives::NetAccount {
                bytes: clone_bytes(id.network_address.address().as_bytes()),
            },
            pub_key: PubKey { bytes: clone_bytes(&id.network_address.pub_key().bytes) },
        },
        display_name: clone_opt_bytes(&id.display_name),
        legal_name: clone_opt_bytes(&id.legal_name),
        email: clone_opt_state(&id.email),
        web: clone_opt_state(&id.web),
        twitter: clone_opt_state(&id.twitter),
        matrix: clone_opt_state(&id.matrix),
    };
    assert(r@ =~= id@);
    r
}

fn clone_opt_bytes(o: &Option<Vec<u8>>) -> (r: Option<Vec<u8>>)
    ensures
        opt_bytes_view(r) == opt_bytes_view(*o),
{
    match o {
        Some(v) => Some(clone_bytes(v)),
        None => None,
    }
}

fn clone_opt_state(o: &Option<AccountState>) -> (r: Option<AccountState>)
    ensures
        opt_state_view(r) == opt_state_view(*o),
{
    match o {
        Some(s) => Some(clone_state(s)),
        None => None,
    }
}

/// The re-registration merge rule, isolated as a named policy so it can be
/// revised without touching the rest of the state machine: an unchanged
/// chat-account value keeps the newly submitted state but suppresses the
/// external notification; a changed value keeps the previously stored
/// state for that account verbatim.
pub open spec fn spec_merge(
    existing: Option<OnChainIdentityV>,
    incoming: OnChainIdentityV,
) -> OnChainIdentityV {
    match existing {
        None => incoming,
        Some(ex) => match (incoming.matrix, ex.matrix) {
            (Some(new_st), Some(old_st)) => if new_st.account == old_st.account {
                OnChainIdentityV {
                    matrix: Some(AccountStateV { skip_inform: true, ..new_st }),
                    ..incoming
                }
            } else {
                OnChainIdentityV { matrix: Some(old_st), ..incoming }
            },
            _ => incoming,
        },
    }
}

/// A command from the registry to a collaborator, named with its
/// destination so the bus fan-out can route it.
#[derive(Debug)]
pub enum Outbound {
    Notify {
        dest: AccountType,
        network_address: NetworkAddress,
        account: Account,
        challenge: Challenge,
        room_id: Option<RoomId>,
    },
    Judge { network_address: NetworkAddress, judgement: Judgement },
    InvalidRequest,
}

/// The mathematical value of an `Outbound`.
#[verifier::ext_equal]
pub enum OutboundV {
    Notify {
        dest: AccountType,
        network_address: NetworkAddressV,
        account: Seq<u8>,
        challenge: Seq<u8>,
        room_id: Option<Seq<u8>>,
    },
    Judge { network_address: NetworkAddressV, judgement: Judgement },
    InvalidRequest,
}

pub open spec fn opt_room_view(o: Option<RoomId>) -> Option<Seq<u8>> {
    match o {
        Some(r) => Some(r@),
        None => None,
    }
}

impl View for Outbound {
    type V = OutboundV;

    open spec fn view(&self) -> OutboundV {
        match *self {
            Outbound::Notify { dest, network_address, account, challenge, room_id } =>
                OutboundV::Notify {
                    dest,
                    network_address: network_address@,
                    account: account@,
                    challenge: challenge@,
                    room_id: opt_room_view(room_id),
                },
            Outbound::Judge { network_address, judgement } =>
                OutboundV::Judge { network_address: network_address@, judgement },
            Outbound::InvalidRequest => OutboundV::InvalidRequest,
        }
    }
}

/// A write the registry owes to durable storage before any externally
/// observable effect of the same mutation.
#[derive(Debug)]
pub enum PersistOp {
    PutIdentity(OnChainIdentity),
    PutRoom(NetAccount, RoomId),
}

/// The mathematical value of a `PersistOp`.
#[verifier::ext_equal]
pub enum PersistOpV {
    PutIdentity(OnChainIdentityV),
    PutRoom(Seq<u8>, Seq<u8>),
}

impl View for PersistOp {
    type V = PersistOpV;

    open spec fn view(&self) -> PersistOpV {
        match *self {
            PersistOp::PutIdentity(id) => PersistOpV::PutIdentity(id@),
            PersistOp::PutRoom(a, r) => PersistOpV::PutRoom(a@, r@),
        }
    }
}

/// What one handled bus message asks of the surrounding process: the
/// persistence writes, then — only after they are durable — the outbound
/// commands. Applying them in that order keeps a crash between the two
/// safe to re-derive on restart.
#[derive(Debug)]
pub struct Effects {
    pub persist: Vec<PersistOp>,
    pub outbound: Vec<Outbound>,
}

pub open spec fn persist_views(s: Seq<PersistOp>) -> Seq<PersistOpV> {
    s.map_values(|p: PersistOp| p@)
}

pub open spec fn outbound_views(s: Seq<Outbound>) -> Seq<OutboundV> {
    s.map_values(|o: Outbound| o@)
}

/// The image a map holds at a key, if any.
pub open spec fn map_get(m: Map<Seq<u8>, OnChainIdentityV>, k: Seq<u8>) -> Option<OnChainIdentityV> {
    if m.contains_key(k) {
        Some(m[k])
    } else {
        None
    }
}

/// The registry map after a judgement request: the incoming identity is
/// merged against what the address already held.
pub open spec fn spec_register(
    m: Map<Seq<u8>, OnChainIdentityV>,
    inc: OnChainIdentityV,
) -> Map<Seq<u8>, OnChainIdentityV> {
    m.insert(
        inc.network_address.address,
        spec_merge(map_get(m, inc.network_address.address), inc),
    )
}

/// The delivery commands a registration produces: one challenge delivery
/// for the chat account, unless the merge suppressed it; the tracked
/// external context for the address rides along when one is known.
pub open spec fn spec_register_notices(
    id: OnChainIdentityV,
    rooms: Map<Seq<u8>, Seq<u8>>,
) -> Seq<OutboundV> {
    match id.matrix {
        Some(st) => if st.skip_inform {
            Seq::empty()
        } else {
            seq![OutboundV::Notify {
                dest: st.account_ty,
                network_address: id.network_address,
                account: st.account,
                challenge: st.challenge,
                room_id: if rooms.contains_key(id.network_address.address) {
                    Some(rooms[id.network_address.address])
                } else {
                    None
                },
            }]
        },
        None => Seq::empty(),
    }
}

/// Whether an identity's chat account equals a queried value.
pub open spec fn matrix_matches(id: OnChainIdentityV, q: Seq<u8>) -> bool {
    match id.matrix {
        Some(st) => st.account == q,
        None => false,
    }
}

/// The reply to an account-state query: the first pending identity whose
/// chat account holds the queried value answers with its address and
/// challenge; no match answers with the explicit no-pending-request
/// signal.
pub open spec fn spec_account_state_reply(
    s: Seq<(NetAccount, OnChainIdentity)>,
    q: Seq<u8>,
) -> Seq<OutboundV>
    decreases s.len(),
{
    if s.len() == 0 {
        seq![OutboundV::InvalidRequest]
    } else {
        match s[0].1@.matrix {
            Some(st) => if st.account == q {
                seq![OutboundV::Notify {
                    dest: AccountType::ReservedEmitter,
                    network_address: s[0].1@.network_address,
                    account: st.account,
                    challenge: st.challenge,
                    room_id: None,
                }]
            } else {
                spec_account_state_reply(s.drop_first(), q)
            },
            None => spec_account_state_reply(s.drop_first(), q),
        }
    }
}

/// Key coherence of the registry's entries: each stored identity sits
/// under its own address.
pub open spec fn coherent_entries(s: Seq<(NetAccount, OnChainIdentity)>) -> bool {
    forall|i: int| 0 <= i < s.len() ==> (#[trigger] s[i]).1@.network_address.address == s[i].0@
}

/// Key coherence survives a keyed insert: when every entry of the new
/// table is either the inserted pair, itself keyed by its identity's own
/// address, or one of the old entries, the whole table stays coherent.
pub proof fn lemma_coherence_preserved(
    pre: Seq<(NetAccount, OnChainIdentity)>,
    post: Seq<(NetAccount, OnChainIdentity)>,
    k: NetAccount,
    v: OnChainIdentity,
)
    requires
        coherent_entries(pre),
        v@.network_address.address == k@,
        forall|i: int| 0 <= i < post.len() ==> (#[trigger] post[i] == (k, v) || exists|j: int|
            0 <= j < pre.len() && post[i] == pre[j]),
    ensures
        coherent_entries(post),
{
    assert forall|i: int| 0 <= i < post.len()
        implies (#[trigger] post[i]).1@.network_address.address == post[i].0@ by {
        if post[i] == (k, v) {
        } else {
            let j = choose|j: int| 0 <= j < pre.len() && post[i] == pre[j];
            assert(pre[j].1@.network_address.address == pre[j].0@);
        }
    }
}

pub open spec fn ident_views(s: Seq<OnChainIdentity>) -> Seq<OnChainIdentityV> {
    s.map_values(|x: OnChainIdentity| x@)
}

/// The map a record sequence reconstructs on startup: records are keyed by
/// their own address, later records winning (under unique addresses the
/// order is immaterial).
pub open spec fn spec_load(s: Seq<OnChainIdentityV>) -> Map<Seq<u8>, OnChainIdentityV>
    decreases s.len(),
{
    if s.len() == 0 {
        Map::empty()
    } else {
        spec_load(s.drop_last()).insert(s.last().network_address.address, s.last())
    }
}

/// The map a sequence of tracked external contexts reconstructs.
pub open spec fn spec_load_rooms(s: Seq<(NetAccount, RoomId)>) -> Map<Seq<u8>, Seq<u8>>
    decreases s.len(),
{
    if s.len() == 0 {
        Map::empty()
    } else {
        spec_load_rooms(s.drop_last()).insert(s.last().0@, s.last().1@)
    }
}

/// The identity-verification coordination engine: owns all pending
/// on-chain identities, is the sole writer of their records, and drives
/// downstream notifications through the bus.
pub struct IdentityManager {
    pub idents: AList<OnChainIdentity>,
    pub rooms: AList<RoomId>,
    pub comms: CommsTable,
}

impl IdentityManager {
    pub open spec fn idents_map(&self) -> Map<Seq<u8>, OnChainIdentityV> {
        self.idents.view_map()
    }

    pub open spec fn rooms_map(&self) -> Map<Seq<u8>, Seq<u8>> {
        self.rooms.view_map()
    }

    pub open spec fn wf(&self) -> bool {
        self.idents.wf() && self.rooms.wf() && coherent_entries(self.idents.entries@)
            && self.comms.wf()
    }

    /// Rebuilds the registry from persisted records: the identity records
    /// and the tracked external contexts are the source of truth on
    /// restart, loaded before any bus traffic is serviced.
    pub fn new(records: Vec<OnChainIdentity>, room_entries: Vec<(NetAccount, RoomId)>) -> (r: Self)
        ensures
            r.wf(),
            r.idents_map() == spec_load(ident_views(records@)),
            r.rooms_map() == spec_load_rooms(room_entries@),
            forall|ty: AccountType| !r.comms.registered(ty),
    {
        let mut idents: AList<OnChainIdentity> = AList::new();
        let mut i: usize = 0;
        proof {
            assert(ident_views(records@).subrange(0, 0) =~= Seq::<OnChainIdentityV>::empty());
        }
        while i < records.len()
            invariant
                0 <= i <= records@.len(),
                idents.wf(),
                coherent_entries(idents.entries@),
                idents.view_map() == spec_load(ident_views(records@).subrange(0, i as int)),
            decreases records@.len() - i,
        {
            let stored = clone_identity(&records[i]);
            let key = NetAccount { bytes: clone_bytes(stored.network_address.address().as_bytes()) };
            let ghost pre = idents.entries@;
            let ghost k = key;
            let ghost v = stored;
            idents.insert(key, stored);
            proof {
                lemma_coherence_preserved(pre, idents.entries@, k, v);
                let full = ident_views(records@);
                assert(full.subrange(0, i + 1).drop_last() =~= full.subrange(0, i as int));
                assert(full.subrange(0, i + 1).last() == records@[i as int]@);
            }
            i += 1;
        }
        proof {
            assert(ident_views(records@).subrange(0, records@.len() as int) =~= ident_views(
                records@,
            ));
        }
        let mut rooms: AList<RoomId> = AList::new();
        let mut j: usize = 0;
        proof {
            assert(room_entries@.subrange(0, 0) =~= Seq::<(NetAccount, RoomId)>::empty());
        }
        while j < room_entries.len()
            invariant
                0 <= j <= room_entries@.len(),
                rooms.wf(),
                rooms.view_map() == spec_load_rooms(room_entries@.subrange(0, j as int)),
            decreases room_entries@.len() - j,
        {
            let key = NetAccount { bytes: clone_bytes(&room_entries[j].0.bytes) };
            let value = RoomId { bytes: clone_bytes(&room_entries[j].1.bytes) };
            rooms.insert(key, value);
            proof {
                assert(room_entries@.subrange(0, j + 1).drop_last() =~= room_entries@.subrange(
                    0,
                    j as int,
                ));
                assert(room_entries@.subrange(0, j + 1).last() == room_entries@[j as int]);
            }
            j += 1;
        }
        proof {
            assert(room_entries@.subrange(0, room_entries@.len() as int) =~= room_entries@);
        }
        IdentityManager { idents, rooms, comms: CommsTable::new() }
    }

    /// Allocates and records the producer handle of a collaborator type,
    /// handing back the collaborator's side of the pair.
    pub fn register_comms(&mut self, account_ty: AccountType) -> (r: CommsVerifier)
        requires
            old(self).wf(),
        ensures
            final(self).wf(),
            final(self).idents == old(self).idents,
            final(self).rooms == old(self).rooms,
            final(self).comms.registered(account_ty),
            forall|t: AccountType| final(self).comms.registered(t) <==> (old(
                self,
            ).comms.registered(t) || t == account_ty),
            exists|cm: CommsMain| final(self).comms.table() == old(self).comms.table().insert(
                account_ty,
                cm,
            ),
            r.account_ty == account_ty,
    {
        let (cm, cv) = generate_comms(&self.comms.to_main, account_ty);
        let ghost cm_g = cm;
        self.comms.put_pair(account_ty, cm);
        proof {
            assert(self.comms.table() == old(self).comms.table().insert(account_ty, cm_g));
        }
        cv
    }

    /// Non-blocking poll of the registry's fan-in queue.
    pub fn poll(&self) -> Option<CommsMessage> {
        self.comms.recv_from_listener()
    }

    /// Creates or merges the pending identity of a judgement request,
    /// persisting the merged record and producing the challenge deliveries
    /// the merge did not suppress.
    pub fn handle_register_request(&mut self, ident: OnChainIdentity) -> (e: Effects)
        requires
            old(self).wf(),
        ensures
            final(self).wf(),
            final(self).rooms == old(self).rooms,
            final(self).comms == old(self).comms,
            final(self).idents_map() == spec_register(old(self).idents_map(), ident@),
            persist_views(e.persist@) =~= seq![PersistOpV::PutIdentity(
                spec_merge(map_get(old(self).idents_map(), ident@.network_address.address), ident@),
            )],
            outbound_views(e.outbound@) =~= spec_register_notices(
                spec_merge(map_get(old(self).idents_map(), ident@.network_address.address), ident@),
                old(self).rooms_map(),
            ),
    {
        let ghost inc_v = ident@;
        let ghost existing = map_get(old(self).idents_map(), ident@.network_address.address);
        let addr_key = clone_bytes(ident.network_address.address().as_bytes());
        let idx = self.idents.index_of(&addr_key);
        let merged: OnChainIdentity = match idx {
            None => ident,
            Some(i) => {
                let new_matrix: Option<AccountState>;
                match (&ident.matrix, &self.idents.entries[i].1.matrix) {
                    (Some(new_st), Some(old_st)) => {
                        if bytes_eq(new_st.account.as_bytes(), old_st.account.as_bytes()) {
                            let mut st = clone_state(new_st);
                            st.skip_inform = true;
                            new_matrix = Some(st);
                        } else {
                            new_matrix = Some(clone_state(old_st));
                        }
                    }
                    (Some(new_st), None) => {
                        new_matrix = Some(clone_state(new_st));
                    }
                    (None, _) => {
                        new_matrix = None;
                    }
                }
                let mut m = ident;
                m.matrix = new_matrix;
                m
            }
        };
        proof {
            assert(merged@ =~= spec_merge(existing, inc_v));
        }
        let stored = clone_identity(&merged);
        let key = NetAccount { bytes: addr_key };
        let ghost pre = self.idents.entries@;
        let ghost k = key;
        let ghost v = stored;
        self.idents.insert(key, stored);
        proof {
            lemma_coherence_preserved(pre, self.idents.entries@, k, v);
        }
        let mut outbound: Vec<Outbound> = Vec::new();
        match &merged.matrix {
            Some(st) => {
                if !st.skip_inform {
                    let room: Option<RoomId> = match self.rooms.index_of(
                        merged.network_address.address().as_bytes(),
                    ) {
                        Some(j) => Some(RoomId { bytes: clone_bytes(&self.rooms.entries[j].1.bytes) }),
                        None => None,
                    };
                    outbound.push(Outbound::Notify {
                        dest: st.account_ty,
                        network_address: clone_network_address(&merged.network_address),
                        account: Account { bytes: clone_bytes(st.account.as_bytes()) },
                        challenge: Challenge { bytes: clone_bytes(&st.challenge.bytes) },
                        room_id: room,
                    });
                }
            }
            None => {}
        }
        let mut persist: Vec<PersistOp> = Vec::new();
        persist.push(PersistOp::PutIdentity(merged));
        Effects { persist, outbound }
    }

    /// Locates the targeted identity, sets the targeted account's
    /// challenge status, persists the full record, and — when the new
    /// status is the accepted terminal value — asks the watcher bridge to
    /// emit exactly one judgement for the address. An update for an
    /// address with no pending identity, or for a chat account the record
    /// does not hold, is a state invariant the registry reports as fatal,
    /// leaving its state untouched.
    pub fn handle_challenge_update(
        &mut self,
        network_address: NetworkAddress,
        account_ty: AccountType,
        challenge_status: ChallengeStatus,
    ) -> (r: Result<Effects, Fatal>)
        requires
            old(self).wf(),
        ensures
            final(self).wf(),
            final(self).rooms == old(self).rooms,
            final(self).comms == old(self).comms,
            r is Err <==> (!old(self).idents_map().contains_key(network_address@.address) || (
                account_ty == AccountType::Matrix && old(self).idents_map()[
                    network_address@.address
                ].matrix is None)),
            r matches Err(f) ==> final(self).idents == old(self).idents && (
                f == Fatal::UnknownAddress <==> !old(self).idents_map().contains_key(
                    network_address@.address,
                )) && (f == Fatal::UnknownAddress || f == Fatal::MissingAccountState),
            r matches Ok(e) ==> ({
                let updated = spec_set_challenge_status(
                    old(self).idents_map()[network_address@.address],
                    account_ty,
                    challenge_status,
                );
                final(self).idents_map() == old(self).idents_map().insert(
                    network_address@.address,
                    updated,
                ) && persist_views(e.persist@) =~= seq![PersistOpV::PutIdentity(updated)]
                    && outbound_views(e.outbound@) =~= (
                    if challenge_status == ChallengeStatus::Accepted {
                        seq![OutboundV::Judge {
                            network_address: network_address@,
                            judgement: Judgement::Reasonable,
                        }]
                    } else {
                        Seq::<OutboundV>::empty()
                    })
            }),
    {
        let idx = self.idents.index_of(network_address.address().as_bytes());
        let i = match idx {
            Some(i) => i,
            None => {
                return Err(Fatal::UnknownAddress);
            }
        };
        if account_ty == AccountType::Matrix && self.idents.entries[i].1.matrix.is_none() {
            return Err(Fatal::MissingAccountState);
        }
        let mut updated = clone_identity(&self.idents.entries[i].1);
        updated.set_challenge_status(account_ty, challenge_status);
        let stored = clone_identity(&updated);
        let key = NetAccount { bytes: clone_bytes(network_address.address().as_bytes()) };
        let ghost pre = self.idents.entries@;
        let ghost k = key;
        let ghost v = stored;
        self.idents.insert(key, stored);
        proof {
            lemma_coherence_preserved(pre, self.idents.entries@, k, v);
        }
        let mut outbound: Vec<Outbound> = Vec::new();
        if challenge_status == ChallengeStatus::Accepted {
            outbound.push(Outbound::Judge { network_address, judgement: Judgement::Reasonable });
        }
        let mut persist: Vec<PersistOp> = Vec::new();
        persist.push(PersistOp::PutIdentity(updated));
        Ok(Effects { persist, outbound })
    }

    /// Locates the targeted identity, sets the targeted account's
    /// validity, and persists the full record. Validity does not by itself
    /// move an identity toward judgement, so nothing goes out.
    pub fn handle_account_confirmation(
        &mut self,
        network_address: NetworkAddress,
        account_ty: AccountType,
        account_validity: AccountStatus,
    ) -> (r: Result<Effects, Fatal>)
        requires
            old(self).wf(),
        ensures
            final(self).wf(),
            final(self).rooms == old(self).rooms,
            final(self).comms == old(self).comms,
            r is Err <==> (!old(self).idents_map().contains_key(network_address@.address) || (
                account_ty == AccountType::Matrix && old(self).idents_map()[
                    network_address@.address
                ].matrix is None)),
            r matches Err(f) ==> final(self).idents == old(self).idents && (
                f == Fatal::UnknownAddress <==> !old(self).idents_map().contains_key(
                    network_address@.address,
                )) && (f == Fatal::UnknownAddress || f == Fatal::MissingAccountState),
            r matches Ok(e) ==> ({
                let updated = spec_set_validity(
                    old(self).idents_map()[network_address@.address],
                    account_ty,
                    account_validity,
                );
                final(self).idents_map() == old(self).idents_map().insert(
                    network_address@.address,
                    updated,
                ) && persist_views(e.persist@) =~= seq![PersistOpV::PutIdentity(updated)]
                    && outbound_views(e.outbound@) =~= Seq::<OutboundV>::empty()
            }),
    {
        let idx = self.idents.index_of(network_address.address().as_bytes());
        let i = match idx {
            Some(i) => i,
            None => {
                return Err(Fatal::UnknownAddress);
            }
        };
        if account_ty == AccountType::Matrix && self.idents.entries[i].1.matrix.is_none() {
            return Err(Fatal::MissingAccountState);
        }
        let mut updated = clone_identity(&self.idents.entries[i].1);
        updated.set_validity(account_ty, account_validity);
        let stored = clone_identity(&updated);
        let key = NetAccount { bytes: clone_bytes(network_address.address().as_bytes()) };
        let ghost pre = self.idents.entries@;
        let ghost k = key;
        let ghost v = stored;
        self.idents.insert(key, stored);
        proof {
            lemma_coherence_preserved(pre, self.idents.entries@, k, v);
        }
        let mut persist: Vec<PersistOp> = Vec::new();
        persist.push(PersistOp::PutIdentity(updated));
        Ok(Effects { persist, outbound: Vec::new() })
    }

    /// Answers who owns a claimed account value: scans the pending
    /// identities for one whose account of the queried type equals the
    /// value and replies through the query-answering collaborator; a query
    /// for a type this design does not support fails loudly.
    pub fn handle_account_state_request(&self, account: Account, account_ty: AccountType) -> (r:
        Result<Effects, Fatal>)
        requires
            self.wf(),
        ensures
            r is Err <==> account_ty != AccountType::Matrix,
            r matches Err(f) ==> f == Fatal::UnsupportedAccountType,
            r matches Ok(e) ==> persist_views(e.persist@) =~= Seq::<PersistOpV>::empty()
                && outbound_views(e.outbound@) =~= spec_account_state_reply(
                self.idents.entries@,
                account@,
            ),
    {
        if account_ty != AccountType::Matrix {
            return Err(Fatal::UnsupportedAccountType);
        }
        let ghost full = self.idents.entries@;
        proof {
            assert(full.skip(0) =~= full);
        }
        let mut i: usize = 0;
        while i < self.idents.entries.len()
            invariant
                self.wf(),
                account_ty == AccountType::Matrix,
                0 <= i <= self.idents.entries@.len(),
                full == self.idents.entries@,
                spec_account_state_reply(full, account@) == spec_account_state_reply(
                    full.skip(i as int),
                    account@,
                ),
            decreases self.idents.entries@.len() - i,
        {
            proof {
                assert(full.skip(i as int)[0] == full[i as int]);
            }
            let hit = match &self.idents.entries[i].1.matrix {
                Some(st) => bytes_eq(st.account.as_bytes(), account.as_bytes()),
                None => false,
            };
            if hit {
                let found = &self.idents.entries[i].1;
                let st = match &found.matrix {
                    Some(st) => st,
                    None => {
                        proof {
                            assert(false);
                        }
                        unreached()
                    }
                };
                let mut outbound: Vec<Outbound> = Vec::new();
                outbound.push(Outbound::Notify {
                    dest: AccountType::ReservedEmitter,
                    network_address: clone_network_address(&found.network_address),
                    account: Account { bytes: clone_bytes(st.account.as_bytes()) },
                    challenge: Challenge { bytes: clone_bytes(&st.challenge.bytes) },
                    room_id: None,
                });
                return Ok(Effects { persist: Vec::new(), outbound });
            }
            proof {
                assert(full.skip(i as int).drop_first() =~= full.skip(i + 1));
            }
            i += 1;
        }
        proof {
            assert(full.skip(i as int).len() == 0);
        }
        let mut outbound: Vec<Outbound> = Vec::new();
        outbound.push(Outbound::InvalidRequest);
        Ok(Effects { persist: Vec::new(), outbound })
    }

    /// Records the external context of an address, written independently
    /// of the identity record and read by later registrations.
    pub fn track_room_id(&mut self, address: NetAccount, room_id: RoomId) -> (e: Effects)
        requires
            old(self).wf(),
        ensures
            final(self).wf(),
            final(self).idents == old(self).idents,
            final(self).comms == old(self).comms,
            final(self).rooms_map() == old(self).rooms_map().insert(address@, room_id@),
            persist_views(e.persist@) =~= seq![PersistOpV::PutRoom(address@, room_id@)],
            outbound_views(e.outbound@) =~= Seq::<OutboundV>::empty(),
    {
        let key = NetAccount { bytes: clone_bytes(&address.bytes) };
        let stored = RoomId { bytes: clone_bytes(&room_id.bytes) };
        self.rooms.insert(key, stored);
        let mut persist: Vec<PersistOp> = Vec::new();
        persist.push(PersistOp::PutRoom(address, room_id));
        Effects { persist, outbound: Vec::new() }
    }

    /// The registry's reaction to one bus message: dispatches to the
    /// handler of the variant; a variant no handler expects is the fatal
    /// unrecognized-message error.
    pub fn handle_message(&mut self, msg: CommsMessage) -> (r: Result<Effects, Fatal>)
        requires
            old(self).wf(),
        ensures
            final(self).wf(),
            final(self).comms == old(self).comms,
            msg matches CommsMessage::NewJudgementRequest(ident) ==> (r is Ok
                && final(self).rooms == old(self).rooms && final(self).idents_map()
                == spec_register(old(self).idents_map(), ident@) && (r matches Ok(e) ==> ({
                let merged = spec_merge(
                    map_get(old(self).idents_map(), ident@.network_address.address),
                    ident@,
                );
                persist_views(e.persist@) =~= seq![PersistOpV::PutIdentity(merged)]
                    && outbound_views(e.outbound@) =~= spec_register_notices(
                    merged,
                    old(self).rooms_map(),
                )
            }))),
            msg matches CommsMessage::UpdateChallengeStatus { network_address, account_ty, status }
                ==> (final(self).rooms == old(self).rooms && (r is Err <==> (!old(self).idents_map().contains_key(network_address@.address) || (account_ty
                == AccountType::Matrix && old(self).idents_map()[
                network_address@.address
            ].matrix is None))) && (r matches Ok(e) ==> ({
                let updated = spec_set_challenge_status(
                    old(self).idents_map()[network_address@.address],
                    account_ty,
                    status,
                );
                final(self).idents_map() == old(self).idents_map().insert(
                    network_address@.address,
                    updated,
                ) && persist_views(e.persist@) =~= seq![PersistOpV::PutIdentity(updated)]
                    && outbound_views(e.outbound@) =~= (if status == ChallengeStatus::Accepted {
                    seq![OutboundV::Judge {
                        network_address: network_address@,
                        judgement: Judgement::Reasonable,
                    }]
                } else {
                    Seq::<OutboundV>::empty()
                })
            }))),
            msg matches CommsMessage::UpdateAccountStatus {
                network_address,
                account_ty,
                account_validity,
            } ==> (final(self).rooms == old(self).rooms && (r is Err <==> (!old(self).idents_map().contains_key(network_address@.address) || (account_ty
                == AccountType::Matrix && old(self).idents_map()[
                network_address@.address
            ].matrix is None))) && (r matches Ok(e) ==> ({
                let updated = spec_set_validity(
                    old(self).idents_map()[network_address@.address],
                    account_ty,
                    account_validity,
                );
                final(self).idents_map() == old(self).idents_map().insert(
                    network_address@.address,
                    updated,
                ) && persist_views(e.persist@) =~= seq![PersistOpV::PutIdentity(updated)]
                    && outbound_views(e.outbound@) =~= Seq::<OutboundV>::empty()
            }))),
            msg matches CommsMessage::TrackRoomId { address, room_id } ==> (r is Ok && final(self).idents == old(self).idents && final(self).rooms_map() == old(self).rooms_map().insert(address@, room_id@) && (r matches Ok(e)
                ==> persist_views(e.persist@) =~= seq![PersistOpV::PutRoom(address@, room_id@)]
                    && outbound_views(e.outbound@) =~= Seq::<OutboundV>::empty())),
            msg matches CommsMessage::RequestAccountState { account, account_ty } ==> (*final(self)
                == *old(self) && (r is Err <==> account_ty != AccountType::Matrix) && (
            r matches Ok(e) ==> persist_views(e.persist@) =~= Seq::<PersistOpV>::empty()
                && outbound_views(e.outbound@) =~= spec_account_state_reply(
                old(self).idents.entries@,
                account@,
            ))),
            (msg matches CommsMessage::JudgeIdentity { .. } || msg
                matches CommsMessage::NotifyAccountVerification { .. } || msg
                matches CommsMessage::InvalidRequest) ==> (r == Err::<Effects, Fatal>(
                Fatal::UnrecognizedMessage,
            ) && *final(self) == *old(self)),
    {
        match msg {
            CommsMessage::NewJudgementRequest(ident) => Ok(self.handle_register_request(ident)),
            CommsMessage::UpdateChallengeStatus { network_address, account_ty, status } => self
                .handle_challenge_update(network_address, account_ty, status),
            CommsMessage::UpdateAccountStatus {
                network_address,
                account_ty,
                account_validity,
            } => self.handle_account_confirmation(network_address, account_ty, account_validity),
            CommsMessage::TrackRoomId { address, room_id } => Ok(
                self.track_room_id(address, room_id),
            ),
            CommsMessage::RequestAccountState { account, account_ty } => self
                .handle_account_state_request(account, account_ty),
            CommsMessage::JudgeIdentity { .. } => Err(Fatal::UnrecognizedMessage),
            CommsMessage::NotifyAccountVerification { .. } => Err(Fatal::UnrecognizedMessage),
            CommsMessage::InvalidRequest => Err(Fatal::UnrecognizedMessage),
        }
    }

    /// Sends each outbound command to its destination's producer handle: a
    /// destination nobody registered is the fatal unregistered-collaborator
    /// error, a queue whose receiver is gone the fatal closed-channel
    /// error.
    pub fn dispatch(&self, outbound: &Vec<Outbound>) -> (r: Result<(), Fatal>)
        requires
            self.wf(),
        ensures
            outbound@.len() == 0 ==> r is Ok,
            r is Ok ==> forall|i: int| 0 <= i < outbound@.len() ==> self.comms.registered(
                outbound_dest(#[trigger] outbound@[i]@),
            ),
            r matches Err(f) ==> (f == Fatal::UnregisteredCollaborator || f
                == Fatal::ChannelClosed),
            r == Err::<(), Fatal>(Fatal::ChannelClosed) ==> outbound@.len() > 0,
            (r matches Err(f) && f == Fatal::UnregisteredCollaborator) ==> exists|i: int|
                0 <= i < outbound@.len() && !self.comms.registered(
                    outbound_dest(#[trigger] outbound@[i]@),
                ),
    {
        let mut i: usize = 0;
        while i < outbound.len()
            invariant
                self.wf(),
                0 <= i <= outbound@.len(),
                i < outbound@.len() ==> outbound@.len() > 0,
                forall|j: int| 0 <= j < i ==> self.comms.registered(
                    outbound_dest(#[trigger] outbound@[j]@),
                ),
            decreases outbound@.len() - i,
        {
            let sent = match &outbound[i] {
                Outbound::Notify { dest, network_address, account, challenge, room_id } => {
                    match self.comms.find_pair(*dest) {
                        Some(cm) => cm.notify_account_verification(
                            clone_network_address(network_address),
                            Account { bytes: clone_bytes(account.as_bytes()) },
                            Challenge { bytes: clone_bytes(&challenge.bytes) },
                            clone_opt_room(room_id),
                        ),
                        None => {
                            proof {
                                assert(!self.comms.registered(
                                    outbound_dest(outbound@[i as int]@),
                                ));
                            }
                            return Err(Fatal::UnregisteredCollaborator);
                        }
                    }
                }
                Outbound::Judge { network_address, judgement } => {
                    match self.comms.find_pair(AccountType::ReservedConnector) {
                        Some(cm) => cm.judge_identity(
                            clone_network_address(network_address),
                            *judgement,
                        ),
                        None => {
                            proof {
                                assert(!self.comms.registered(
                                    outbound_dest(outbound@[i as int]@),
                                ));
                            }
                            return Err(Fatal::UnregisteredCollaborator);
                        }
                    }
                }
                Outbound::InvalidRequest => {
                    match self.comms.find_pair(AccountType::ReservedEmitter) {
                        Some(cm) => cm.invalid_request(),
                        None => {
                            proof {
                                assert(!self.comms.registered(
                                    outbound_dest(outbound@[i as int]@),
                                ));
                            }
                            return Err(Fatal::UnregisteredCollaborator);
                        }
                    }
                }
            };
            if !sent {
                return Err(Fatal::ChannelClosed);
            }
            i += 1;
        }
        Ok(())
    }

    /// The pending identities as they would be persisted, in table order.
    pub fn pending_identities(&self) -> (r: Vec<OnChainIdentity>)
        ensures
            ident_views(r@) =~= records_of(self.idents.entries@),
    {
        let mut out: Vec<OnChainIdentity> = Vec::new();
        let mut i: usize = 0;
        while i < self.idents.entries.len()
            invariant
                0 <= i <= self.idents.entries@.len(),
                out@.len() == i,
                forall|j: int| 0 <= j < i ==> (#[trigger] out@[j])@
                    == self.idents.entries@[j].1@,
            decreases self.idents.entries@.len() - i,
        {
            out.push(clone_identity(&self.idents.entries[i].1));
            i += 1;
        }
        proof {
            assert forall|j: int| 0 <= j < out@.len() implies ident_views(out@)[j]
                == records_of(self.idents.entries@)[j] by {
                assert(out@[j]@ == self.idents.entries@[j].1@);
            }
            assert(ident_views(out@) =~= records_of(self.idents.entries@));
        }
        out
    }

    /// The tracked external contexts as they would be persisted.
    pub fn tracked_rooms(&self) -> (r: Vec<(NetAccount, RoomId)>)
        ensures
            r@.len() == self.rooms.entries@.len(),
            forall|i: int| 0 <= i < r@.len() ==> r@[i].0@ == self.rooms.entries@[i].0@
                && r@[i].1@ == self.rooms.entries@[i].1@,
    {
        let mut out: Vec<(NetAccount, RoomId)> = Vec::new();
        let mut i: usize = 0;
        while i < self.rooms.entries.len()
            invariant
                0 <= i <= self.rooms.entries@.len(),
                out@.len() == i,
                forall|j: int| 0 <= j < i ==> out@[j].0@ == self.rooms.entries@[j].0@
                    && out@[j].1@ == self.rooms.entries@[j].1@,
            decreases self.rooms.entries@.len() - i,
        {
            out.push(
                (
                    NetAccount { bytes: clone_bytes(&self.rooms.entries[i].0.bytes) },
                    RoomId { bytes: clone_bytes(&self.rooms.entries[i].1.bytes) },
                ),
            );
            i += 1;
        }
        out
    }
}

/// The destination collaborator of an outbound command.
pub open spec fn outbound_dest(o: OutboundV) -> AccountType {
    match o {
        OutboundV::Notify { dest, .. } => dest,
        OutboundV::Judge { .. } => AccountType::ReservedConnector,
        OutboundV::InvalidRequest => AccountType::ReservedEmitter,
    }
}

fn clone_opt_room(o: &Option<RoomId>) -> (r: Option<RoomId>)
    ensures
        opt_room_view(r) == opt_room_view(*o),
{
    match o {
        Some(room) => Some(RoomId { bytes: clone_bytes(&room.bytes) }),
        None => None,
    }
}

pub open spec fn records_of(s: Seq<(NetAccount, OnChainIdentity)>) -> Seq<OnChainIdentityV> {
    s.map_values(|e: (NetAccount, OnChainIdentity)| e.1@)
}

/// Law: a first registration of an address whose incoming chat account is
/// fresh (not suppressed) produces exactly one challenge delivery, for
/// exactly that account.
pub proof fn lemma_first_registration_notice(inc: OnChainIdentityV, rooms: Map<Seq<u8>, Seq<u8>>)
    requires
        inc.matrix is Some,
        !inc.matrix->Some_0.skip_inform,
    ensures
        spec_register_notices(spec_merge(None, inc), rooms).len() == 1,
        spec_register_notices(spec_merge(None, inc), rooms)[0] == (OutboundV::Notify {
            dest: inc.matrix->Some_0.account_ty,
            network_address: inc.network_address,
            account: inc.matrix->Some_0.account,
            challenge: inc.matrix->Some_0.challenge,
            room_id: if rooms.contains_key(inc.network_address.address) {
                Some(rooms[inc.network_address.address])
            } else {
                None
            },
        }),
{
}

/// Law: registering an address again with an unchanged chat-account value
/// produces no further challenge delivery: the merge suppresses the
/// notification, so one registration pair yields exactly one delivery in
/// all.
pub proof fn lemma_idempotent_reregistration(
    ex: OnChainIdentityV,
    inc: OnChainIdentityV,
    rooms: Map<Seq<u8>, Seq<u8>>,
)
    requires
        ex.matrix is Some,
        inc.matrix is Some,
        inc.matrix->Some_0.account == ex.matrix->Some_0.account,
    ensures
        spec_register_notices(spec_merge(Some(ex), inc), rooms) =~= Seq::<OutboundV>::empty(),
{
}

/// Law: rebuilding the registry from the records it would persist yields
/// exactly the map it held — the persistence round trip loses nothing and
/// invents nothing.
pub proof fn lemma_persistence_round_trip(s: Seq<(NetAccount, OnChainIdentity)>)
    requires
        al_unique(s),
        coherent_entries(s),
    ensures
        spec_load(records_of(s)) == crate::alist::al_map(s),
    decreases s.len(),
{
    if s.len() == 0 {
        assert(spec_load(records_of(s)) =~= crate::alist::al_map(s));
    } else {
        assert(records_of(s).drop_last() =~= records_of(s.drop_last()));
        assert forall|a: int, b: int| 0 <= a < b < s.drop_last().len()
            implies s.drop_last()[a].0@ != s.drop_last()[b].0@ by {
            assert(s[a].0@ != s[b].0@);
        }
        assert forall|i: int| 0 <= i < s.drop_last().len()
            implies (#[trigger] s.drop_last()[i]).1@.network_address.address
                == s.drop_last()[i].0@ by {
            assert(s[i].1@.network_address.address == s[i].0@);
        }
        lemma_persistence_round_trip(s.drop_last());
        assert(records_of(s).last() == s.last().1@);
        assert(s.last().1@.network_address.address == s.last().0@);
        assert(spec_load(records_of(s)) =~= crate::alist::al_map(s));
    }
}

/// Law, at the registry itself: a registry rebuilt from exactly what it
/// would persist holds the pending map it held before the restart,
/// field for field.
pub proof fn lemma_registry_restart(m: &IdentityManager)
    requires
        m.wf(),
    ensures
        spec_load(records_of(m.idents.entries@)) == m.idents_map(),
{
    lemma_persistence_round_trip(m.idents.entries@);
}

/// One per-address registry mutation, as the single-writer law speaks of
/// it: the address it targets and what it does to that address's record.
pub struct AddressUpdate {
    pub addr: Seq<u8>,
    pub f: spec_fn(OnChainIdentityV) -> OnChainIdentityV,
}

/// One replay step: the update rewrites its own address's record and
/// nothing else; an address with no pending record is left alone.
pub open spec fn apply_update(
    m: Map<Seq<u8>, OnChainIdentityV>,
    u: AddressUpdate,
) -> Map<Seq<u8>, OnChainIdentityV> {
    if m.contains_key(u.addr) {
        m.insert(u.addr, (u.f)(m[u.addr]))
    } else {
        m
    }
}

/// Replay of a whole arrival sequence, in order.
pub open spec fn apply_updates(
    m: Map<Seq<u8>, OnChainIdentityV>,
    us: Seq<AddressUpdate>,
) -> Map<Seq<u8>, OnChainIdentityV>
    decreases us.len(),
{
    if us.len() == 0 {
        m
    } else {
        apply_update(apply_updates(m, us.drop_last()), us.last())
    }
}

/// The subsequence of an arrival sequence that targets one address, in
/// arrival order.
pub open spec fn keep_addr(us: Seq<AddressUpdate>, a: Seq<u8>) -> Seq<AddressUpdate>
    decreases us.len(),
{
    if us.len() == 0 {
        Seq::empty()
    } else if us.last().addr == a {
        keep_addr(us.drop_last(), a).push(us.last())
    } else {
        keep_addr(us.drop_last(), a)
    }
}

/// The Ok path of a challenge-status update is one replay step.
pub proof fn lemma_challenge_update_is_replay(
    m: Map<Seq<u8>, OnChainIdentityV>,
    addr: Seq<u8>,
    ty: AccountType,
    cs: ChallengeStatus,
)
    requires
        m.contains_key(addr),
    ensures
        m.insert(addr, spec_set_challenge_status(m[addr], ty, cs)) == apply_update(
            m,
            AddressUpdate { addr, f: |id: OnChainIdentityV| spec_set_challenge_status(id, ty, cs) },
        ),
{
}

/// The Ok path of an account-validity update is one replay step.
pub proof fn lemma_account_confirmation_is_replay(
    m: Map<Seq<u8>, OnChainIdentityV>,
    addr: Seq<u8>,
    ty: AccountType,
    av: AccountStatus,
)
    requires
        m.contains_key(addr),
    ensures
        m.insert(addr, spec_set_validity(m[addr], ty, av)) == apply_update(
            m,
            AddressUpdate { addr, f: |id: OnChainIdentityV| spec_set_validity(id, ty, av) },
        ),
{
}

/// Law: updates of distinct addresses commute; neither can corrupt the
/// other's record.
pub proof fn lemma_updates_commute(
    m: Map<Seq<u8>, OnChainIdentityV>,
    u1: AddressUpdate,
    u2: AddressUpdate,
)
    requires
        u1.addr != u2.addr,
    ensures
        apply_update(apply_update(m, u1), u2) == apply_update(apply_update(m, u2), u1),
{
    assert(apply_update(apply_update(m, u1), u2) =~= apply_update(apply_update(m, u2), u1));
}

/// Law (single writer): however updates to many addresses interleave, the
/// final record of each address equals the sequential replay, in arrival
/// order, of just that address's updates.
pub proof fn lemma_single_writer_replay(
    m: Map<Seq<u8>, OnChainIdentityV>,
    us: Seq<AddressUpdate>,
    a: Seq<u8>,
)
    ensures
        map_get(apply_updates(m, us), a) == map_get(apply_updates(m, keep_addr(us, a)), a),
    decreases us.len(),
{
    if us.len() > 0 {
        lemma_single_writer_replay(m, us.drop_last(), a);
        let prev = apply_updates(m, us.drop_last());
        let prev_kept = apply_updates(m, keep_addr(us.drop_last(), a));
        let u = us.last();
        if u.addr == a {
            assert(keep_addr(us, a) == keep_addr(us.drop_last(), a).push(u));
            assert(keep_addr(us.drop_last(), a).push(u).drop_last() =~= keep_addr(
                us.drop_last(),
                a,
            ));
            assert(map_get(apply_update(prev, u), a) == map_get(apply_update(prev_kept, u), a));
        } else {
            assert(map_get(apply_update(prev, u), a) == map_get(prev, a));
        }
    }
}

} // verus!
