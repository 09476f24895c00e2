use vstd::prelude::*;
use std::sync::Arc;
use dashmap::DashMap;
use tokio::sync::mpsc::{Receiver, Sender};
use crate::message::{Message, MessageView};

verus! {

/// dashmap's concurrent map, which holds each peer's sending end.
#[verifier::external_type_specification]
#[verifier::external_body]
#[verifier::reject_recursive_types(K)]
#[verifier::reject_recursive_types(V)]
#[verifier::reject_recursive_types(S)]
pub struct ExDashMap<K, V, S>(DashMap<K, V, S>);

/// The sending end of a tokio bounded channel.
#[verifier::external_type_specification]
#[verifier::external_body]
#[verifier::reject_recursive_types(T)]
pub struct ExSender<T>(Sender<T>);

/// The receiving end of a tokio bounded channel, which a peer's writer drains.
#[verifier::external_type_specification]
#[verifier::external_body]
#[verifier::reject_recursive_types(T)]
pub struct ExReceiver<T>(Receiver<T>);

/// The ids that a peer map holds keys for. DashMap changes through `&self`; the
/// wrappers below that change it take `&mut`, and the registry keeps its map in a
/// private field, so no change happens that a contract does not state.
pub uninterp spec fn ids_of(m: DashMap<u64, Sender<Arc<Message>>>) -> Set<u64>;

/// The number of messages a channel was opened to hold (what tokio's
/// `Sender::max_capacity` reports).
pub uninterp spec fn bound_of(tx: Sender<Arc<Message>>) -> nat;

/// Relies on DashMap::new: a new map is empty.
#[verifier::external_body]
fn map_new() -> (r: DashMap<u64, Sender<Arc<Message>>>)
    ensures
        ids_of(r) == Set::<u64>::empty(),
{
    DashMap::new()
}

/// Relies on DashMap::insert: afterwards the key is present, the other keys stay.
#[verifier::external_body]
fn map_insert(m: &mut DashMap<u64, Sender<Arc<Message>>>, id: u64, tx: Sender<Arc<Message>>)
    ensures
        ids_of(*final(m)) == ids_of(*old(m)).insert(id),
{
    m.insert(id, tx);
}

/// Relies on DashMap::remove: afterwards the key is absent, the other keys stay.
#[verifier::external_body]
fn map_remove(m: &mut DashMap<u64, Sender<Arc<Message>>>, id: u64)
    ensures
        ids_of(*final(m)) == ids_of(*old(m)).remove(id),
{
    m.remove(&id);
}

/// Relies on DashMap::contains_key.
#[verifier::external_body]
fn map_contains(m: &DashMap<u64, Sender<Arc<Message>>>, id: u64) -> (r: bool)
    ensures
        r == ids_of(*m).contains(id),
{
    m.contains_key(&id)
}

/// The ids of a snapshot, in the order the snapshot lists them.
pub open spec fn snapshot_ids(s: Seq<(u64, Sender<Arc<Message>>)>) -> Seq<u64> {
    s.map_values(|e: (u64, Sender<Arc<Message>>)| e.0)
}

/// Relies on DashMap::iter: each entry is visited once, so each key is listed once,
/// here with a handle to the sending end stored under it.
#[verifier::external_body]
fn map_snapshot(m: &DashMap<u64, Sender<Arc<Message>>>) -> (r: Vec<(u64, Sender<Arc<Message>>)>)
    ensures
        snapshot_ids(r@).no_duplicates(),
        snapshot_ids(r@).to_set() == ids_of(*m),
{
    m.iter().map(|e| (*e.key(), e.value().clone())).collect()
}

/// Relies on tokio::sync::mpsc::channel: the channel's bound is the capacity given.
/// It panics on a capacity of zero or above its semaphore's limit (`usize::MAX >> 3`).
#[verifier::external_body]
fn open_channel(capacity: usize) -> (r: (Sender<Arc<Message>>, Receiver<Arc<Message>>))
    requires
        0 < capacity <= usize::MAX / 8,
    ensures
        bound_of(r.0) == capacity,
{
    tokio::sync::mpsc::channel(capacity)
}

/// Relies on tokio's Sender::try_send: it never waits. It fails when the channel
/// is full or its receiver is gone, which depends on the receiving task.
#[verifier::external_body]
fn try_deliver(tx: &Sender<Arc<Message>>, m: &Arc<Message>) -> (r: bool) {
    tx.try_send(Arc::clone(m)).is_ok()
}

/// How many messages a peer's delivery channel holds before it counts as saturated.
pub const SEND_CAPACITY: usize = 16;

/// What a registry looks like to a reader: for each registered peer, the messages
/// handed to its delivery channel since it registered, oldest first.
pub type RegistryView = Map<u64, Seq<MessageView>>;

/// The registry after a broadcast of `m` that reached the peers in `delivered`
/// and evicted those in `evicted`: evicted peers are gone, each reached peer's
/// queue ends with `m`, every other entry is as it was.
pub open spec fn after_broadcast(
    q: RegistryView,
    m: MessageView,
    delivered: Set<u64>,
    evicted: Set<u64>,
) -> RegistryView {
    Map::new(
        |p: u64| q.contains_key(p) && !evicted.contains(p),
        |p: u64| if delivered.contains(p) { q[p].push(m) } else { q[p] },
    )
}

/// A broadcast from `origin` over `q` that reached `delivered` and evicted
/// `evicted` dealt with every other registered peer, each in one way only.
pub open spec fn covers(q: RegistryView, origin: u64, delivered: Set<u64>, evicted: Set<u64>) -> bool {
    &&& delivered.disjoint(evicted)
    &&& delivered + evicted == q.dom().remove(origin)
}

/// A broadcast never hands a message to the peer it came from: the origin is
/// not reached, and its queue, if it is registered, is as it was.
pub proof fn lemma_origin_excluded(
    q: RegistryView,
    origin: u64,
    m: MessageView,
    delivered: Set<u64>,
    evicted: Set<u64>,
)
    requires
        covers(q, origin, delivered, evicted),
    ensures
        !delivered.contains(origin),
        q.contains_key(origin) ==> after_broadcast(q, m, delivered, evicted).contains_key(origin)
            && after_broadcast(q, m, delivered, evicted)[origin] == q[origin],
{
    assert(!q.dom().remove(origin).contains(origin));
    assert(!(delivered + evicted).contains(origin));
}

/// A peer whose delivery failed is no longer registered once the broadcast
/// returns, and every peer it reached still is.
pub proof fn lemma_failed_peers_evicted(
    q: RegistryView,
    origin: u64,
    m: MessageView,
    delivered: Set<u64>,
    evicted: Set<u64>,
    p: u64,
)
    requires
        covers(q, origin, delivered, evicted),
    ensures
        evicted.contains(p) ==> !after_broadcast(q, m, delivered, evicted).contains_key(p),
        delivered.contains(p) ==> after_broadcast(q, m, delivered, evicted).contains_key(p),
{
    if delivered.contains(p) {
        assert((delivered + evicted).contains(p));
        assert(!evicted.contains(p));
    }
}

/// A broadcast only takes peers out: it registers no one, and each peer that
/// stays keeps its queue or gains the message at its end. So ids stay unique.
pub proof fn lemma_broadcast_only_removes(
    q: RegistryView,
    origin: u64,
    m: MessageView,
    delivered: Set<u64>,
    evicted: Set<u64>,
)
    requires
        covers(q, origin, delivered, evicted),
    ensures
        after_broadcast(q, m, delivered, evicted).dom().subset_of(q.dom()),
        forall|p: u64| #[trigger]
            after_broadcast(q, m, delivered, evicted).contains_key(p) ==> after_broadcast(
                q,
                m,
                delivered,
                evicted,
            )[p] == q[p] || after_broadcast(q, m, delivered, evicted)[p] == q[p].push(m),
{
}

/// Two broadcasts that both reach a peer leave their messages in its queue in
/// the order the broadcasts were made, after whatever was queued before.
pub proof fn lemma_fifo_per_peer(
    q: RegistryView,
    origin1: u64,
    m1: MessageView,
    delivered1: Set<u64>,
    evicted1: Set<u64>,
    origin2: u64,
    m2: MessageView,
    delivered2: Set<u64>,
    evicted2: Set<u64>,
    p: u64,
)
    requires
        covers(q, origin1, delivered1, evicted1),
        covers(after_broadcast(q, m1, delivered1, evicted1), origin2, delivered2, evicted2),
        delivered1.contains(p),
        delivered2.contains(p),
    ensures
        after_broadcast(after_broadcast(q, m1, delivered1, evicted1), m2, delivered2, evicted2).contains_key(p),
        after_broadcast(after_broadcast(q, m1, delivered1, evicted1), m2, delivered2, evicted2)[p]
            == q[p].push(m1).push(m2),
{
    lemma_failed_peers_evicted(q, origin1, m1, delivered1, evicted1, p);
    lemma_failed_peers_evicted(after_broadcast(q, m1, delivered1, evicted1), origin2, m2, delivered2, evicted2, p);
}

/// Who a broadcast reached and who it evicted, each listed once.
pub struct BroadcastReport {
    pub delivered: Vec<u64>,
    pub evicted: Vec<u64>,
}

/// The set of connected peers, each with the sending end of its delivery channel.
pub struct Registry {
    peers: DashMap<u64, Sender<Arc<Message>>>,
    queued: Ghost<RegistryView>,
    bounds: Ghost<Map<u64, nat>>,
}

impl View for Registry {
    type V = RegistryView;

    closed spec fn view(&self) -> RegistryView {
        self.queued@
    }
}

impl Registry {
    /// The map's keys are exactly the peers that the view records, and there
    /// are finitely many of them.
    pub closed spec fn wf(&self) -> bool {
        &&& self.queued@.dom() == ids_of(self.peers)
        &&& self.queued@.dom().finite()
        &&& self.bounds@.dom() == self.queued@.dom()
    }

    /// For each registered peer, how many messages its delivery channel was
    /// opened to hold.
    pub closed spec fn capacities(&self) -> Map<u64, nat> {
        self.bounds@
    }

    /// A well-formed registry holds finitely many peers, and a capacity for each.
    pub proof fn lemma_wf_finite(&self)
        requires
            self.wf(),
        ensures
            self@.dom().finite(),
            self.capacities().dom() == self@.dom(),
    {
    }

    pub fn new() -> (r: Registry)
        ensures
            r.wf(),
            r@ == Map::<u64, Seq<MessageView>>::empty(),
    {
        let r = Registry { peers: map_new(), queued: Ghost(Map::empty()), bounds: Ghost(Map::empty()) };
        proof {
            assert(r.queued@.dom() =~= ids_of(r.peers));
        }
        r
    }

    /// Whether `id` is registered, and so receives broadcasts.
    pub fn contains(&self, id: u64) -> (r: bool)
        requires
            self.wf(),
        ensures
            r == self@.contains_key(id),
    {
        map_contains(&self.peers, id)
    }

    /// Registers `id` with a fresh delivery channel of `SEND_CAPACITY` slots and
    /// hands back its receiving end, for the peer's writer. An id that is already
    /// registered is refused with `None`, and nothing changes.
    pub fn register(&mut self, id: u64) -> (r: Option<Receiver<Arc<Message>>>)
        requires
            old(self).wf(),
        ensures
            final(self).wf(),
            r is None <==> old(self)@.contains_key(id),
            r is None ==> final(self)@ == old(self)@ && final(self).capacities() == old(
                self,
            ).capacities(),
            r is Some ==> final(self)@ == old(self)@.insert(id, Seq::<MessageView>::empty())
                && final(self).capacities() == old(self).capacities().insert(
                id,
                SEND_CAPACITY as nat,
            ),
    {
        if map_contains(&self.peers, id) {
            return None;
        }
        let (tx, rx) = open_channel(SEND_CAPACITY);
        let ghost bound = bound_of(tx);
        map_insert(&mut self.peers, id, tx);
        self.queued = Ghost(self.queued@.insert(id, Seq::empty()));
        self.bounds = Ghost(self.bounds@.insert(id, bound));
        proof {
            assert(self.queued@.dom() =~= ids_of(self.peers));
        }
        Some(rx)
    }

    /// Deregisters `id`; removing an id that is not registered changes nothing.
    pub fn remove(&mut self, id: u64)
        requires
            old(self).wf(),
        ensures
            final(self).wf(),
            final(self)@ == old(self)@.remove(id),
            final(self).capacities() == old(self).capacities().remove(id),
    {
        map_remove(&mut self.peers, id);
        self.queued = Ghost(self.queued@.remove(id));
        self.bounds = Ghost(self.bounds@.remove(id));
        proof {
            assert(self.queued@.dom() =~= ids_of(self.peers));
            assert(self.bounds@.dom() =~= self.queued@.dom());
        }
    }

    /// Settles one offer of `message` to `id`: a peer whose channel accepted it
    /// stays, with `message` at the end of its queue; a peer whose channel refused
    /// it (full or closed) is deregistered. An id that is not registered stays so.
    pub fn settle_offer(&mut self, id: u64, accepted: bool, message: &Arc<Message>)
        requires
            old(self).wf(),
        ensures
            final(self).wf(),
            accepted && old(self)@.contains_key(id) ==> final(self)@ == old(self)@.insert(
                id,
                old(self)@[id].push(message@),
            ),
            accepted && !old(self)@.contains_key(id) ==> final(self)@ == old(self)@,
            !accepted ==> final(self)@ == old(self)@.remove(id),
            final(self).capacities() == old(self).capacities().restrict(final(self)@.dom()),
    {
        if accepted {
            if map_contains(&self.peers, id) {
                let ghost q = self.queued@;
                self.queued = Ghost(q.insert(id, q[id].push(message@)));
                proof {
                    assert(self.queued@.dom() =~= ids_of(self.peers));
                }
            }
            assert(self.bounds@ =~= old(self).bounds@.restrict(self.queued@.dom()));
        } else {
            self.remove(id);
            assert(self.bounds@ =~= old(self).bounds@.restrict(self.queued@.dom()));
        }
    }

    /// The registered ids but `id`, each once, read from one pass over the map.
    pub fn peers_except(&self, id: u64) -> (r: Vec<u64>)
        requires
            self.wf(),
        ensures
            r@.no_duplicates(),
            r@.to_set() == self@.dom().remove(id),
    {
        let snapshot = map_snapshot(&self.peers);
        let ghost keys = snapshot_ids(snapshot@);
        let mut r: Vec<u64> = Vec::new();
        let mut i: usize = 0;
        while i < snapshot.len()
            invariant
                self.wf(),
                0 <= i <= snapshot.len(),
                keys == snapshot_ids(snapshot@),
                keys.no_duplicates(),
                keys.to_set() == self@.dom(),
                r@.no_duplicates(),
                forall|j: int| 0 <= j < i && keys[j] != id ==> r@.contains(keys[j]),
                forall|k: int| 0 <= k < r@.len() ==> r@[k] != id && self@.contains_key(r@[k]),
                forall|k: int, j: int| 0 <= k < r@.len() && i <= j < keys.len() ==> r@[k] != keys[j],
            decreases snapshot.len() - i,
        {
            let other = snapshot[i].0;
            assert(other == keys[i as int]);
            let ghost r0 = r@;
            if other != id {
                r.push(other);
                assert(r@[r0.len() as int] == other);
                assert forall|j: int| 0 <= j < i && keys[j] != id implies r@.contains(keys[j]) by {
                    let k = choose|k: int| 0 <= k < r0.len() && r0[k] == keys[j];
                    assert(r@[k] == keys[j]);
                }
            }
            assert(keys.contains(other));
            i = i + 1;
        }
        proof {
            assert(r@.to_set() =~= self@.dom().remove(id)) by {
                assert forall|x: u64| self@.dom().remove(id).contains(x) implies r@.contains(x) by {
                    assert(keys.to_set().contains(x));
                    let j = choose|j: int| 0 <= j < keys.len() && keys[j] == x;
                }
            }
        }
        r
    }

    /// Offers `message` to every registered peer but `origin`, without waiting on
    /// any of them: a peer whose channel is full or closed is deregistered at once.
    pub fn broadcast(&mut self, origin: u64, message: Arc<Message>) -> (r: BroadcastReport)
        requires
            old(self).wf(),
        ensures
            final(self).wf(),
            r.delivered@.no_duplicates(),
            r.evicted@.no_duplicates(),
            covers(old(self)@, origin, r.delivered@.to_set(), r.evicted@.to_set()),
            r.delivered@.len() + r.evicted@.len() == old(self)@.dom().remove(origin).len(),
            final(self)@ == after_broadcast(
                old(self)@,
                message@,
                r.delivered@.to_set(),
                r.evicted@.to_set(),
            ),
            final(self).capacities() == old(self).capacities().restrict(final(self)@.dom()),
    {
        let ghost pre = self@;
        let ghost pre_caps = self.bounds@;
        let ghost m = message@;
        let snapshot = map_snapshot(&self.peers);
        let ghost keys = snapshot_ids(snapshot@);
        let mut delivered: Vec<u64> = Vec::new();
        let mut evicted: Vec<u64> = Vec::new();
        proof {
            assert(self.bounds@ =~= pre_caps.restrict(self@.dom()));
        }
        let mut i: usize = 0;
        while i < snapshot.len()
            invariant
                self.wf(),
                0 <= i <= snapshot.len(),
                keys == snapshot_ids(snapshot@),
                keys.no_duplicates(),
                keys.to_set() == pre.dom(),
                delivered@.no_duplicates(),
                evicted@.no_duplicates(),
                forall|j: int|
                    0 <= j < i && keys[j] != origin ==> delivered@.contains(keys[j])
                        || evicted@.contains(keys[j]),
                forall|k: int|
                    0 <= k < delivered@.len() ==> delivered@[k] != origin && pre.contains_key(
                        delivered@[k],
                    ) && !evicted@.contains(delivered@[k]),
                forall|k: int|
                    0 <= k < evicted@.len() ==> evicted@[k] != origin && pre.contains_key(
                        evicted@[k],
                    ),
                forall|k: int, j: int|
                    0 <= k < delivered@.len() && i <= j < keys.len() ==> delivered@[k] != keys[j],
                forall|k: int, j: int|
                    0 <= k < evicted@.len() && i <= j < keys.len() ==> evicted@[k] != keys[j],
                self@ == after_broadcast(pre, m, delivered@.to_set(), evicted@.to_set()),
                self.bounds@ == pre_caps.restrict(self@.dom()),
                m == message@,
            decreases snapshot.len() - i,
        {
            let id = snapshot[i].0;
            assert(id == keys[i as int]);
            let ghost d0 = delivered@;
            let ghost e0 = evicted@;
            if id != origin {
                let accepted = try_deliver(&snapshot[i].1, &message);
                self.settle_offer(id, accepted, &message);
                if accepted {
                    delivered.push(id);
                    proof {
                        d0.lemma_push_to_set_commute(id);
                    }
                } else {
                    evicted.push(id);
                    proof {
                        e0.lemma_push_to_set_commute(id);
                    }
                }
            }
            proof {
                assert forall|j: int|
                    0 <= j < i + 1 && keys[j] != origin implies delivered@.contains(keys[j])
                        || evicted@.contains(keys[j]) by {
                    if j < i {
                        assert(d0.contains(keys[j]) || e0.contains(keys[j]));
                        assert(d0.to_set().contains(keys[j]) || e0.to_set().contains(keys[j]));
                        assert(delivered@.to_set().contains(keys[j]) || evicted@.to_set().contains(keys[j]));
                    } else {
                        assert(delivered@.to_set().contains(id) || evicted@.to_set().contains(id));
                    }
                }
                assert(keys.contains(id));
                assert(pre.contains_key(id));
                assert(self@ =~= after_broadcast(pre, m, delivered@.to_set(), evicted@.to_set()));
                assert(self.bounds@ =~= pre_caps.restrict(self@.dom()));
            }
            i = i + 1;
        }
        proof {
            assert(delivered@.to_set() + evicted@.to_set() =~= pre.dom().remove(origin)) by {
                assert forall|x: u64| pre.dom().remove(origin).contains(x) implies (delivered@.to_set() + evicted@.to_set()).contains(x) by {
                    assert(keys.to_set().contains(x));
                    let j = choose|j: int| 0 <= j < keys.len() && keys[j] == x;
                    assert(keys[j] != origin);
                }
            }
            delivered@.unique_seq_to_set();
            evicted@.unique_seq_to_set();
            vstd::seq_lib::seq_to_set_is_finite(delivered@);
            vstd::seq_lib::seq_to_set_is_finite(evicted@);
            vstd::set_lib::lemma_set_disjoint_lens(delivered@.to_set(), evicted@.to_set());
        }
        BroadcastReport { delivered, evicted }
    }
}

} // verus!
