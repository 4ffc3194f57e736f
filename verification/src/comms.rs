use vstd::prelude::*;
use crate::identity::{AccountStatus, OnChainIdentity};
use crate::primitives::{
    Account, AccountType, Challenge, ChallengeStatus, Judgement, NetAccount, NetworkAddress,
    RoomId,
};

verus! {

/// The bus's message envelope: the closed set of command and event
/// variants through which the registry and its collaborators interact.
#[derive(Debug)]
pub enum CommsMessage {
    NewJudgementRequest(OnChainIdentity),
    JudgeIdentity { network_address: NetworkAddress, judgement: Judgement },
    UpdateChallengeStatus {
        network_address: NetworkAddress,
        account_ty: AccountType,
        status: ChallengeStatus,
    },
    UpdateAccountStatus {
        network_address: NetworkAddress,
        account_ty: AccountType,
        account_validity: AccountStatus,
    },
    TrackRoomId { address: NetAccount, room_id: RoomId },
    RequestAccountState { account: Account, account_ty: AccountType },
    NotifyAccountVerification {
        network_address: NetworkAddress,
        account: Account,
        challenge: Challenge,
        room_id: Option<RoomId>,
    },
    InvalidRequest,
}

#[verifier::external_type_specification]
#[verifier::external_body]
#[verifier::reject_recursive_types(T)]
pub struct ExSender<T>(crossbeam::channel::Sender<T>);

#[verifier::external_type_specification]
#[verifier::external_body]
#[verifier::reject_recursive_types(T)]
pub struct ExReceiver<T>(crossbeam::channel::Receiver<T>);

/// Relies on crossbeam_channel::unbounded: allocates a fresh channel of
/// unbounded capacity and hands back its two endpoints.
#[verifier::external_body]
fn channel_pair() -> (
    crossbeam::channel::Sender<CommsMessage>,
    crossbeam::channel::Receiver<CommsMessage>,
) {
    crossbeam::channel::unbounded()
}

/// Relies on crossbeam Sender::send: enqueues the message, failing only
/// when every receiver of the channel is gone. Delivery is reliable and
/// per-sender ordered; nothing further can be promised of a shared queue.
#[verifier::external_body]
fn send_msg(s: &crossbeam::channel::Sender<CommsMessage>, m: CommsMessage) -> bool {
    s.send(m).is_ok()
}

/// Relies on crossbeam Receiver::try_recv: pops the oldest pending message
/// without blocking, or yields nothing when the queue is empty or closed.
#[verifier::external_body]
fn try_recv_msg(r: &crossbeam::channel::Receiver<CommsMessage>) -> Option<CommsMessage> {
    r.try_recv().ok()
}

/// Relies on crossbeam Sender::clone: another handle onto the same queue.
#[verifier::external_body]
fn clone_sender(
    s: &crossbeam::channel::Sender<CommsMessage>,
) -> crossbeam::channel::Sender<CommsMessage> {
    s.clone()
}

/// The registry-side handle of one collaborator pair: what the registry
/// uses to push commands out to that collaborator.
pub struct CommsMain {
    pub tx: crossbeam::channel::Sender<CommsMessage>,
}

impl CommsMain {
    /// Asks the collaborator to deliver a challenge externally. The result
    /// says only whether the queue still had a receiver.
    pub fn notify_account_verification(
        &self,
        network_address: NetworkAddress,
        account: Account,
        challenge: Challenge,
        room_id: Option<RoomId>,
    ) -> bool {
        send_msg(
            &self.tx,
            CommsMessage::NotifyAccountVerification { network_address, account, challenge, room_id },
        )
    }

    /// Asks the watcher bridge to emit a judgement.
    pub fn judge_identity(&self, network_address: NetworkAddress, judgement: Judgement) -> bool {
        send_msg(&self.tx, CommsMessage::JudgeIdentity { network_address, judgement })
    }

    /// Answers an account-state query negatively: no pending request.
    pub fn invalid_request(&self) -> bool {
        send_msg(&self.tx, CommsMessage::InvalidRequest)
    }
}

/// The collaborator-side handle of one pair: what a collaborator uses to
/// push events toward the registry and to consume its own commands.
pub struct CommsVerifier {
    pub to_main: crossbeam::channel::Sender<CommsMessage>,
    pub listener: crossbeam::channel::Receiver<CommsMessage>,
    pub account_ty: AccountType,
}

impl CommsVerifier {
    /// Non-blocking poll of this collaborator's own command queue.
    pub fn try_recv(&self) -> Option<CommsMessage> {
        try_recv_msg(&self.listener)
    }

    /// Forwards a freshly converted identity to the registry as a new
    /// judgement request.
    pub fn notify_new_identity(&self, ident: OnChainIdentity) -> bool {
        send_msg(&self.to_main, CommsMessage::NewJudgementRequest(ident))
    }

    /// Pushes an arbitrary bus message toward the registry.
    pub fn send_to_main(&self, msg: CommsMessage) -> bool {
        send_msg(&self.to_main, msg)
    }

    pub fn account_ty(&self) -> (r: AccountType)
        ensures
            r == self.account_ty,
    {
        self.account_ty
    }
}

/// Allocates one full-duplex handle pair for a collaborator type: the
/// registry keeps the `CommsMain`, the collaborator the `CommsVerifier`.
pub fn generate_comms(
    to_main: &crossbeam::channel::Sender<CommsMessage>,
    account_ty: AccountType,
) -> (r: (CommsMain, CommsVerifier))
    ensures
        r.1.account_ty == account_ty,
{
    let (tx, rx) = channel_pair();
    (
        CommsMain { tx },
        CommsVerifier { to_main: clone_sender(to_main), listener: rx, account_ty },
    )
}

/// The registry's side of the whole bus: the fan-in listener shared by all
/// producers, a keeper of the fan-in sender for new pairs, and the fan-out
/// table from collaborator type to its producer handle.
pub struct CommsTable {
    pub to_main: crossbeam::channel::Sender<CommsMessage>,
    pub listener: crossbeam::channel::Receiver<CommsMessage>,
    pub pairs: Vec<(AccountType, CommsMain)>,
}

/// Uniqueness of the fan-out entries: no collaborator type occurs twice.
pub open spec fn pairs_unique(s: Seq<(AccountType, CommsMain)>) -> bool {
    forall|i: int, j: int| 0 <= i < j < s.len() ==> s[i].0 != s[j].0
}

/// The map a fan-out entry sequence denotes: later entries win, though
/// under `pairs_unique` the keys are unique and the point is moot.
pub open spec fn pair_map(s: Seq<(AccountType, CommsMain)>) -> Map<AccountType, CommsMain>
    decreases s.len(),
{
    if s.len() == 0 {
        Map::empty()
    } else {
        pair_map(s.drop_last()).insert(s.last().0, s.last().1)
    }
}

/// A type the denoted fan-out map holds is listed at some index.
pub proof fn lemma_pair_map_key_exists(s: Seq<(AccountType, CommsMain)>, t: AccountType)
    requires
        pair_map(s).contains_key(t),
    ensures
        exists|i: int| 0 <= i < s.len() && s[i].0 == t,
    decreases s.len(),
{
    if s.len() > 0 {
        if t == s.last().0 {
            assert(s[s.len() - 1].0 == t);
        } else {
            lemma_pair_map_key_exists(s.drop_last(), t);
            let i = choose|i: int| 0 <= i < s.drop_last().len() && s.drop_last()[i].0 == t;
            assert(s[i].0 == t);
        }
    }
}

/// Under unique types, every listed entry is the denoted fan-out map's
/// image of its type.
pub proof fn lemma_pair_map_index(s: Seq<(AccountType, CommsMain)>, i: int)
    requires
        0 <= i < s.len(),
        pairs_unique(s),
    ensures
        pair_map(s).contains_key(s[i].0),
        pair_map(s)[s[i].0] == s[i].1,
    decreases s.len(),
{
    if i < s.len() - 1 {
        assert forall|a: int, b: int| 0 <= a < b < s.drop_last().len()
            implies s.drop_last()[a].0 != s.drop_last()[b].0 by {
            assert(s[a].0 != s[b].0);
        }
        lemma_pair_map_index(s.drop_last(), i);
        assert(s.drop_last()[i] == s[i]);
        assert(s[i].0 != s[s.len() - 1].0);
    }
}

/// Replacing the entry at a type's index replaces that type's image in the
/// denoted fan-out map.
pub proof fn lemma_pair_map_update(
    s: Seq<(AccountType, CommsMain)>,
    i: int,
    e: (AccountType, CommsMain),
)
    requires
        0 <= i < s.len(),
        pairs_unique(s),
        e.0 == s[i].0,
    ensures
        pair_map(s.update(i, e)) == pair_map(s).insert(e.0, e.1),
    decreases s.len(),
{
    let t = s.update(i, e);
    if i == s.len() - 1 {
        assert(t.drop_last() =~= s.drop_last());
        assert(pair_map(t) =~= pair_map(s).insert(e.0, e.1));
    } else {
        assert(t.drop_last() =~= s.drop_last().update(i, e));
        assert forall|a: int, b: int| 0 <= a < b < s.drop_last().len()
            implies s.drop_last()[a].0 != s.drop_last()[b].0 by {
            assert(s[a].0 != s[b].0);
        }
        lemma_pair_map_update(s.drop_last(), i, e);
        assert(t.last() == s.last());
        assert(s.last().0 != e.0);
        assert(pair_map(t) =~= pair_map(s).insert(e.0, e.1));
    }
}

impl CommsTable {
    /// Which collaborator types hold a registered producer handle.
    pub open spec fn registered(&self, ty: AccountType) -> bool {
        exists|i: int| 0 <= i < self.pairs@.len() && self.pairs@[i].0 == ty
    }

    /// The fan-out table's mathematical value: which producer handle each
    /// collaborator type holds.
    pub open spec fn table(&self) -> Map<AccountType, CommsMain> {
        pair_map(self.pairs@)
    }

    pub open spec fn wf(&self) -> bool {
        pairs_unique(self.pairs@)
    }

    pub fn new() -> (r: Self)
        ensures
            r.wf(),
            r.table() == Map::<AccountType, CommsMain>::empty(),
            forall|ty: AccountType| !r.registered(ty),
    {
        let (tx, rx) = channel_pair();
        CommsTable { to_main: tx, listener: rx, pairs: Vec::new() }
    }

    /// Registers (or replaces) the producer handle of a collaborator type;
    /// every other type keeps the handle it held.
    pub fn put_pair(&mut self, ty: AccountType, cm: CommsMain)
        requires
            old(self).wf(),
        ensures
            final(self).wf(),
            final(self).table() == old(self).table().insert(ty, cm),
            final(self).registered(ty),
            forall|t: AccountType| final(self).registered(t) <==> (old(self).registered(t) || t
                == ty),
    {
        let mut i: usize = 0;
        while i < self.pairs.len()
            invariant
                0 <= i <= self.pairs@.len(),
                self.pairs@ == old(self).pairs@,
                old(self).wf(),
                forall|j: int| 0 <= j < i ==> self.pairs@[j].0 != ty,
            decreases self.pairs@.len() - i,
        {
            if self.pairs[i].0 == ty {
                proof {
                    lemma_pair_map_update(self.pairs@, i as int, (ty, cm));
                }
                self.pairs.set(i, (ty, cm));
                proof {
                    assert(self.pairs@[i as int].0 == ty);
                    assert forall|a: int, b: int| 0 <= a < b < self.pairs@.len()
                        implies self.pairs@[a].0 != self.pairs@[b].0 by {
                        assert(old(self).pairs@[a].0 != old(self).pairs@[b].0);
                    }
                    assert forall|t: AccountType| old(self).registered(t)
                        implies self.registered(t) by {
                        let j = choose|j: int|
                            0 <= j < old(self).pairs@.len() && old(self).pairs@[j].0 == t;
                        if j == i as int {
                            assert(self.pairs@[i as int].0 == t);
                        } else {
                            assert(self.pairs@[j].0 == t);
                        }
                    }
                    assert forall|t: AccountType| self.registered(t) && t != ty
                        implies old(self).registered(t) by {
                        let j = choose|j: int|
                            0 <= j < self.pairs@.len() && self.pairs@[j].0 == t;
                        assert(old(self).pairs@[j].0 == t);
                    }
                }
                return;
            }
            i += 1;
        }
        let ghost n0 = self.pairs@.len();
        self.pairs.push((ty, cm));
        proof {
            assert(self.pairs@.drop_last() =~= old(self).pairs@);
            assert(self.pairs@[n0 as int].0 == ty);
            assert forall|a: int, b: int| 0 <= a < b < self.pairs@.len()
                implies self.pairs@[a].0 != self.pairs@[b].0 by {
                if b < self.pairs@.len() - 1 {
                    assert(old(self).pairs@[a].0 != old(self).pairs@[b].0);
                } else {
                    assert(self.pairs@[a] == old(self).pairs@[a]);
                }
            }
            assert forall|t: AccountType| old(self).registered(t) implies self.registered(t) by {
                let j = choose|j: int|
                    0 <= j < old(self).pairs@.len() && old(self).pairs@[j].0 == t;
                assert(self.pairs@[j].0 == t);
            }
            assert forall|t: AccountType| self.registered(t) && t != ty
                implies old(self).registered(t) by {
                let j = choose|j: int| 0 <= j < self.pairs@.len() && self.pairs@[j].0 == t;
                assert(old(self).pairs@[j].0 == t);
            }
        }
    }

    /// Non-blocking poll of the fan-in queue all producers share.
    pub fn recv_from_listener(&self) -> Option<CommsMessage> {
        try_recv_msg(&self.listener)
    }

    /// The producer handle a collaborator type holds, if registered.
    pub fn find_pair(&self, ty: AccountType) -> (r: Option<&CommsMain>)
        requires
            self.wf(),
        ensures
            r is Some <==> self.registered(ty),
            r matches Some(cm) ==> self.table().contains_key(ty) && *cm == self.table()[ty],
    {
        let mut i: usize = 0;
        while i < self.pairs.len()
            invariant
                self.wf(),
                0 <= i <= self.pairs@.len(),
                forall|j: int| 0 <= j < i ==> self.pairs@[j].0 != ty,
            decreases self.pairs@.len() - i,
        {
            if self.pairs[i].0 == ty {
                proof {
                    lemma_pair_map_index(self.pairs@, i as int);
                }
                return Some(&self.pairs[i].1);
            }
            i += 1;
        }
        None
    }
}

} // verus!
