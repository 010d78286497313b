//! The one-to-one chat relay: envelopes, sessions and the connection registry.
pub mod message;
pub mod session;

use std::collections::HashMap;
use vstd::prelude::*;
use vstd::std_specs::hash::spec_hash_map_iter;
use vstd::std_specs::iter::IteratorSpec;
use crate::utils::identity::Identity;
use message::{
    Connect, Disconnect, Envelope, EnvelopeView, Message, SessionAddr,
};

verus! {

broadcast use vstd::std_specs::hash::group_hash_axioms;

/// One text to be written to one session's socket.
#[derive(Debug)]
pub struct Delivery {
    pub to: SessionAddr,
    pub message: Message,
}

/// The mathematical value of a `Delivery`.
pub struct DeliveryView {
    pub to: SessionAddr,
    pub text: Seq<char>,
}

impl View for Delivery {
    type V = DeliveryView;

    open spec fn view(&self) -> DeliveryView {
        DeliveryView { to: self.to, text: self.message.0@ }
    }
}

/// The mathematical value of a list of deliveries.
pub open spec fn deliveries_of(deliveries: Seq<Delivery>) -> Seq<DeliveryView> {
    Seq::new(deliveries.len(), |i: int| deliveries[i]@)
}

/// The mathematical value of a delivery that may be absent.
pub open spec fn delivery_view(delivery: Option<Delivery>) -> Option<DeliveryView> {
    match delivery {
        Some(d) => Some(d@),
        None => None,
    }
}

/// The registry map: at most one session handle for each identity.
pub type Sessions = Map<Identity, SessionAddr>;

/// Whether `deliveries` hand `text` to each of `peers` exactly once, in the
/// order `order`.
pub open spec fn is_broadcast_in(
    deliveries: Seq<DeliveryView>,
    peers: Sessions,
    text: Seq<char>,
    order: Seq<Identity>,
) -> bool {
    &&& order.no_duplicates()
    &&& order.to_set() == peers.dom()
    &&& deliveries.len() == order.len()
    &&& forall|i: int|
        0 <= i < order.len() ==> #[trigger] deliveries[i] == (DeliveryView {
            to: peers[order[i]],
            text,
        })
}

/// Whether `deliveries` hand `text` to each of `peers` exactly once, in some order.
pub open spec fn is_broadcast(deliveries: Seq<DeliveryView>, peers: Sessions, text: Seq<char>) -> bool {
    exists|order: Seq<Identity>| is_broadcast_in(deliveries, peers, text, order)
}

/// What routing an envelope delivers: its payload to the session registered
/// for its receiver, or nothing where the envelope has no receiver or the
/// receiver is not registered.
pub open spec fn routed(sessions: Sessions, envelope: EnvelopeView) -> Option<DeliveryView> {
    match envelope.receiver() {
        Some(receiver) => if sessions.contains_key(receiver) {
            Some(DeliveryView { to: sessions[receiver], text: envelope.payload() })
        } else {
            None
        },
        None => None,
    }
}

/// The registry map after the registry has handled an envelope.
pub open spec fn sessions_after(sessions: Sessions, envelope: EnvelopeView) -> Sessions {
    match envelope {
        EnvelopeView::Connect(e) => sessions.insert(e.id, e.addr),
        EnvelopeView::Disconnect(e) => sessions.remove(e.id),
        _ => sessions,
    }
}

/// Whether `deliveries` are what a registry with the map `sessions` owes
/// for an envelope: the connect notice to every session but the new one;
/// the disconnect notice to every session that remains, and nothing
/// where the identity was not registered; and a routed envelope to its
/// receiver's session alone, if it has one.
pub open spec fn is_handled(
    sessions: Sessions,
    envelope: EnvelopeView,
    deliveries: Seq<DeliveryView>,
) -> bool {
    match envelope {
        EnvelopeView::Connect(e) => is_broadcast(
            deliveries,
            sessions.remove(e.id),
            Connect::notice(e.id),
        ),
        EnvelopeView::Disconnect(e) => if sessions.contains_key(e.id) {
            is_broadcast(deliveries, sessions.remove(e.id), Disconnect::notice(e.id))
        } else {
            deliveries.len() == 0
        },
        _ => deliveries == match routed(sessions, envelope) {
            Some(delivery) => seq![delivery],
            None => Seq::<DeliveryView>::empty(),
        },
    }
}

/// The connection registry: the sole owner of the map from identity to session.
pub struct ChatManager {
    sessions: HashMap<u128, SessionAddr>,
}

impl View for ChatManager {
    type V = Sessions;

    closed spec fn view(&self) -> Sessions {
        Map::new(
            |id: Identity| self.sessions@.contains_key(id.0),
            |id: Identity| self.sessions@[id.0],
        )
    }
}

impl ChatManager {
    /// A registry without sessions.
    pub fn new() -> (manager: Self)
        ensures
            manager@ == Sessions::empty(),
    {
        ChatManager { sessions: HashMap::new() }
    }

    /// Registers `addr` for `id`, in place of any session registered for it before.
    pub fn add_session(&mut self, id: Identity, addr: SessionAddr)
        ensures
            final(self)@ == old(self)@.insert(id, addr),
    {
        self.sessions.insert(id.0, addr);
    }

    /// Forgets the session registered for `id`, if there is one.
    pub fn remove_session(&mut self, id: Identity)
        ensures
            final(self)@ == old(self)@.remove(id),
    {
        self.sessions.remove(&id.0);
    }

    /// The session registered for `id`, if there is one.
    pub fn session(&self, id: Identity) -> (addr: Option<SessionAddr>)
        ensures
            addr == if self@.contains_key(id) {
                Some(self@[id])
            } else {
                None
            },
    {
        match self.sessions.get(&id.0) {
            Some(addr) => Some(*addr),
            None => None,
        }
    }

    /// One delivery of `text` to every registered session but that of `about`.
    fn announce(&self, about: Identity, text: &str) -> (deliveries: Vec<Delivery>)
        ensures
            is_broadcast(deliveries_of(deliveries@), self@.remove(about), text@),
    {
        let mut deliveries: Vec<Delivery> = Vec::new();
        let ghost all = spec_hash_map_iter(&self.sessions).remaining();
        let ghost peers = self@.remove(about);
        // The identities notified so far, and where the walk met each of them.
        let ghost mut order: Seq<Identity> = Seq::empty();
        let ghost mut met: Seq<int> = Seq::empty();
        for entry in it: self.sessions.iter()
            invariant
                it.seq() == all,
                all.no_duplicates(),
                peers == self@.remove(about),
                order.len() == deliveries@.len(),
                order.len() == met.len(),
                order.no_duplicates(),
                forall|j: int|
                    0 <= j < order.len() ==> peers.contains_key(#[trigger] order[j])
                        && deliveries@[j]@ == (DeliveryView { to: peers[order[j]], text: text@ }),
                forall|j: int|
                    0 <= j < order.len() ==> 0 <= #[trigger] met[j] < it.index() && order[j]
                        == Identity(*all[met[j]].0),
                forall|i: int|
                    0 <= i < it.index() && *all[i].0 != about.0 ==> order.contains(
                        Identity(*#[trigger] all[i].0),
                    ),
        {
            let ghost at = it.index();
            let id = Identity(*entry.0);
            assert(self.sessions@.contains_key(*all[at].0) && self.sessions@[*all[at].0]
                == *all[at].1);
            if id.0 != about.0 {
                let ghost before = order;
                assert(!before.contains(id)) by {
                    if before.contains(id) {
                        let j = choose|j: int| 0 <= j < before.len() && before[j] == id;
                        let i = met[j];
                        assert(self.sessions@[*all[i].0] == *all[i].1);
                        assert(all[i] == all[at]);
                    }
                }
                deliveries.push(Delivery { to: *entry.1, message: Message(text.to_owned()) });
                proof {
                    order = order.push(id);
                    met = met.push(at);
                    assert forall|i: int| 0 <= i < at + 1 && *all[i].0 != about.0 implies order.contains(
                        Identity(*#[trigger] all[i].0),
                    ) by {
                        if i < at {
                            let j = choose|j: int|
                                0 <= j < before.len() && before[j] == Identity(*all[i].0);
                            assert(order[j] == Identity(*all[i].0));
                        } else {
                            assert(order[order.len() - 1] == id);
                        }
                    }
                }
            }
        }
        proof {
            assert(order.to_set() =~= peers.dom()) by {
                assert forall|id: Identity| peers.dom().contains(id) implies order.to_set().contains(
                    id,
                ) by {
                    let pair = (&id.0, &self.sessions@[id.0]);
                    assert(all.contains(pair));
                    let i = choose|i: int| 0 <= i < all.len() && all[i] == pair;
                    assert(*all[i].0 == id.0);
                    assert(order.contains(Identity(*all[i].0)));
                }
            }
            assert(is_broadcast_in(deliveries_of(deliveries@), peers, text@, order));
        }
        deliveries
    }

    /// Registers the session of a `Connect` and tells every other session of it.
    pub fn connect(&mut self, msg: Connect) -> (deliveries: Vec<Delivery>)
        ensures
            final(self)@ == old(self)@.insert(msg.id, msg.addr),
            is_broadcast(
                deliveries_of(deliveries@),
                old(self)@.remove(msg.id),
                Connect::notice(msg.id),
            ),
    {
        self.add_session(msg.id, msg.addr);
        assert(self@.remove(msg.id) =~= old(self)@.remove(msg.id));
        let notice = msg.notify();
        self.announce(msg.id, notice.as_str())
    }

    /// Forgets the session of a `Disconnect` and tells every remaining
    /// session of it. Where the identity is not registered nothing
    /// changes and nobody is told.
    pub fn disconnect(&mut self, msg: Disconnect) -> (deliveries: Vec<Delivery>)
        ensures
            final(self)@ == old(self)@.remove(msg.id),
            !old(self)@.contains_key(msg.id) ==> final(self)@ == old(self)@,
            if old(self)@.contains_key(msg.id) {
                is_broadcast(
                    deliveries_of(deliveries@),
                    old(self)@.remove(msg.id),
                    Disconnect::notice(msg.id),
                )
            } else {
                deliveries@.len() == 0
            },
    {
        if self.session(msg.id).is_none() {
            assert(self@.remove(msg.id) =~= self@);
            return Vec::new();
        }
        self.remove_session(msg.id);
        assert(self@.remove(msg.id) =~= self@);
        let notice = msg.notify();
        self.announce(msg.id, notice.as_str())
    }

    /// The delivery that an envelope is owed: its payload to the session of
    /// its receiver. An envelope whose receiver is not registered is
    /// dropped, and so is one that has no receiver.
    pub fn route(&self, envelope: &Envelope) -> (delivery: Option<Delivery>)
        ensures
            delivery_view(delivery) == routed(self@, envelope@),
    {
        let receiver = match envelope {
            Envelope::Connect(_) => None,
            Envelope::Disconnect(_) => None,
            Envelope::ChatMessage(e) => Some(e.receiver_id),
            Envelope::Typing(e) => Some(e.receiver_id),
            Envelope::Match(e) => Some(e.receiver_id),
            Envelope::Unmatch(e) => Some(e.receiver_id),
        };
        match receiver {
            Some(id) => match self.session(id) {
                Some(to) => Some(Delivery { to, message: Message(envelope.payload()) }),
                None => None,
            },
            None => None,
        }
    }

    /// Handles one envelope of any kind: changes the map as the envelope
    /// asks and returns what is to be written to which session.
    pub fn handle(&mut self, envelope: Envelope) -> (deliveries: Vec<Delivery>)
        ensures
            final(self)@ == sessions_after(old(self)@, envelope@),
            is_handled(old(self)@, envelope@, deliveries_of(deliveries@)),
    {
        match envelope {
            Envelope::Connect(msg) => self.connect(msg),
            Envelope::Disconnect(msg) => self.disconnect(msg),
            routed_kind => {
                let mut deliveries: Vec<Delivery> = Vec::new();
                match self.route(&routed_kind) {
                    Some(delivery) => {
                        deliveries.push(delivery);
                        assert(deliveries_of(deliveries@) =~= seq![delivery@]);
                    },
                    None => {
                        assert(deliveries_of(deliveries@) =~= Seq::<DeliveryView>::empty());
                    },
                }
                deliveries
            },
        }
    }
}

/// An envelope addressed to a registered identity is delivered once, with
/// its own payload, to the session registered for that identity: whatever
/// the registry returns for it is that one delivery, and a session
/// registered for another identity gets it only where it is that very session.
pub proof fn lemma_route_reaches_receiver_only(
    sessions: Sessions,
    envelope: EnvelopeView,
    receiver: Identity,
    deliveries: Seq<DeliveryView>,
)
    requires
        envelope.receiver() == Some(receiver),
        sessions.contains_key(receiver),
        is_handled(sessions, envelope, deliveries),
    ensures
        routed(sessions, envelope) == Some(
            DeliveryView { to: sessions[receiver], text: envelope.payload() },
        ),
        sessions_after(sessions, envelope) == sessions,
        deliveries.len() == 1,
        deliveries[0].to == sessions[receiver],
        deliveries[0].text == envelope.payload(),
        forall|other: Identity, i: int|
            sessions.contains_key(other) && sessions[other] != sessions[receiver] && 0 <= i
                < deliveries.len() ==> deliveries[i].to != sessions[other],
{
}

/// An envelope addressed to an identity that is not registered is dropped:
/// nothing is delivered and the map stays as it is.
pub proof fn lemma_route_to_unregistered_drops(
    sessions: Sessions,
    envelope: EnvelopeView,
    receiver: Identity,
    deliveries: Seq<DeliveryView>,
)
    requires
        envelope.receiver() == Some(receiver),
        !sessions.contains_key(receiver),
        is_handled(sessions, envelope, deliveries),
    ensures
        routed(sessions, envelope) is None,
        deliveries.len() == 0,
        sessions_after(sessions, envelope) == sessions,
{
}

/// Registering an identity again replaces its session: an envelope
/// addressed to it then reaches the new session, and where the old session
/// is registered for no other identity, nothing that the registry delivers
/// for any later envelope goes to the old session.
pub proof fn lemma_last_connect_wins(
    sessions: Sessions,
    id: Identity,
    addr: SessionAddr,
    later: EnvelopeView,
    deliveries: Seq<DeliveryView>,
)
    requires
        sessions.contains_key(id),
        is_handled(sessions.insert(id, addr), later, deliveries),
    ensures
        later.receiver() == Some(id) ==> routed(sessions.insert(id, addr), later) == Some(
            DeliveryView { to: addr, text: later.payload() },
        ),
        sessions[id] != addr && (forall|other: Identity|
            sessions.contains_key(other) && other != id ==> sessions[other] != sessions[id])
            ==> forall|i: int| 0 <= i < deliveries.len() ==> deliveries[i].to != sessions[id],
{
    let now = sessions.insert(id, addr);
    if sessions[id] != addr && (forall|other: Identity|
        sessions.contains_key(other) && other != id ==> sessions[other] != sessions[id]) {
        assert forall|i: int| 0 <= i < deliveries.len() implies deliveries[i].to
            != sessions[id] by {
            match later {
                EnvelopeView::Connect(e) => {
                    lemma_broadcast_targets(deliveries, now.remove(e.id), Connect::notice(e.id), i);
                },
                EnvelopeView::Disconnect(e) => {
                    if now.contains_key(e.id) {
                        lemma_broadcast_targets(
                            deliveries,
                            now.remove(e.id),
                            Disconnect::notice(e.id),
                            i,
                        );
                    }
                },
                _ => {},
            }
        }
    }
}

/// Unregistering an identity that is not registered is a no-op: the map
/// stays as it is and nobody is told. So unregistering an identity twice
/// leaves the same map as unregistering it once, and tells nobody anew.
pub proof fn lemma_unregister_is_idempotent(
    sessions: Sessions,
    gone: Identity,
    deliveries: Seq<DeliveryView>,
    again: Seq<DeliveryView>,
)
    requires
        is_handled(sessions, EnvelopeView::Disconnect(Disconnect { id: gone }), deliveries),
        is_handled(
            sessions_after(sessions, EnvelopeView::Disconnect(Disconnect { id: gone })),
            EnvelopeView::Disconnect(Disconnect { id: gone }),
            again,
        ),
    ensures
        !sessions.contains_key(gone) ==> deliveries.len() == 0 && sessions_after(
            sessions,
            EnvelopeView::Disconnect(Disconnect { id: gone }),
        ) == sessions,
        again.len() == 0,
        sessions_after(
            sessions_after(sessions, EnvelopeView::Disconnect(Disconnect { id: gone })),
            EnvelopeView::Disconnect(Disconnect { id: gone }),
        ) == sessions_after(sessions, EnvelopeView::Disconnect(Disconnect { id: gone })),
{
    assert(sessions.remove(gone).remove(gone) =~= sessions.remove(gone));
    if !sessions.contains_key(gone) {
        assert(sessions.remove(gone) =~= sessions);
    }
}

/// When a registered identity is unregistered, every identity that
/// remains registered is handed the disconnect notice that names it, and
/// an envelope addressed to it is dropped from then on.
pub proof fn lemma_unregister_notifies_and_drops(
    sessions: Sessions,
    gone: Identity,
    deliveries: Seq<DeliveryView>,
    later: EnvelopeView,
)
    requires
        sessions.contains_key(gone),
        is_handled(sessions, EnvelopeView::Disconnect(Disconnect { id: gone }), deliveries),
        later.receiver() == Some(gone),
    ensures
        forall|other: Identity|
            sessions.contains_key(other) && other != gone ==> deliveries.contains(
                DeliveryView { to: sessions[other], text: Disconnect::notice(gone) },
            ),
        routed(sessions_after(sessions, EnvelopeView::Disconnect(Disconnect { id: gone })), later)
            is None,
{
    let peers = sessions.remove(gone);
    let text = Disconnect::notice(gone);
    assert forall|other: Identity| sessions.contains_key(other) && other != gone implies deliveries.contains(
        DeliveryView { to: sessions[other], text },
    ) by {
        lemma_broadcast_reaches(deliveries, peers, text, other);
    }
}

/// A broadcast hands its text to the session of each of the peers.
pub proof fn lemma_broadcast_reaches(
    deliveries: Seq<DeliveryView>,
    peers: Sessions,
    text: Seq<char>,
    peer: Identity,
)
    requires
        is_broadcast(deliveries, peers, text),
        peers.contains_key(peer),
    ensures
        deliveries.contains(DeliveryView { to: peers[peer], text }),
{
    let order = choose|order: Seq<Identity>| is_broadcast_in(deliveries, peers, text, order);
    assert(order.to_set().contains(peer));
    let i = choose|i: int| 0 <= i < order.len() && order[i] == peer;
    assert(deliveries[i] == DeliveryView { to: peers[peer], text });
}

/// Every delivery of a broadcast carries its text to the session of one of the peers.
pub proof fn lemma_broadcast_targets(
    deliveries: Seq<DeliveryView>,
    peers: Sessions,
    text: Seq<char>,
    i: int,
)
    requires
        is_broadcast(deliveries, peers, text),
        0 <= i < deliveries.len(),
    ensures
        deliveries[i].text == text,
        exists|peer: Identity| peers.contains_key(peer) && deliveries[i].to == peers[peer],
{
    let order = choose|order: Seq<Identity>| is_broadcast_in(deliveries, peers, text, order);
    assert(deliveries[i] == DeliveryView { to: peers[order[i]], text });
    assert(order.to_set().contains(order[i]));
    assert(peers.contains_key(order[i]));
}

} // verus!
