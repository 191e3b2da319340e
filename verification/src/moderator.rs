//! The session registry of the matchmaker and the routing discipline of the
//! mesh: who learns of whom when a session joins or leaves, and how envelopes
//! travel between sessions.
//!
//! The registry owns no connection. Each operation returns the envelopes to
//! deliver, each with the session it is for, in the order in which they are to
//! be handed to the mailboxes.

use vstd::prelude::*;
use crate::message::{ClientId, Message, MessageView, PeerMessage, PeerMessageView};

verus! {

/// Why the registry turned a request down.
#[derive(Clone, Copy, Debug, PartialEq, Eq, Structural)]
pub enum Error {
    /// A session with that identity is registered already.
    AlreadyConnected,
}

impl Error {
    /// What to tell a person about the error.
    pub fn message(&self) -> (r: &'static str)
        ensures
            r@ == "Already connected"@,
    {
        "Already connected"
    }
}

/// A session asks to be registered under `id`.
#[derive(Clone, Copy, Debug, PartialEq, Eq)]
pub struct Connect {
    pub id: ClientId,
}

/// The session registered under `id` went away.
#[derive(Clone, Copy, Debug, PartialEq, Eq)]
pub struct Disconnect {
    pub id: ClientId,
}

/// An envelope on its way to the mailbox of session `to`.
#[derive(Debug, PartialEq, Eq)]
pub struct Delivery {
    pub to: ClientId,
    pub envelope: Message,
}

/// Mathematical value of a [`Delivery`].
pub struct DeliveryView {
    pub to: ClientId,
    pub envelope: MessageView,
}

impl View for Delivery {
    type V = DeliveryView;

    open spec fn view(&self) -> DeliveryView {
        DeliveryView { to: self.to, envelope: self.envelope@ }
    }
}

/// The values of a list of deliveries, in order.
pub open spec fn views(deliveries: Seq<Delivery>) -> Seq<DeliveryView> {
    deliveries.map_values(|d: Delivery| d@)
}

/// The sessions that remain when `id` leaves.
pub open spec fn without(sessions: Seq<ClientId>, id: ClientId) -> Seq<ClientId> {
    if sessions.contains(id) {
        sessions.remove(sessions.index_of(id))
    } else {
        sessions
    }
}

/// What a successful connect of `id` sends when `sessions` are registered: the
/// snapshot of the others to the newcomer, then the announcement of the
/// newcomer to each of the others, oldest session first.
pub open spec fn connect_deliveries(sessions: Seq<ClientId>, id: ClientId) -> Seq<DeliveryView> {
    seq![DeliveryView { to: id, envelope: MessageView::Peers(sessions) }] + sessions.map_values(
        |s: ClientId| DeliveryView { to: s, envelope: MessageView::NewPeer { id } },
    )
}

/// What a disconnect of `id` sends when `sessions` are registered: one notice
/// to each session that remains, and nothing when `id` is not registered.
pub open spec fn disconnect_deliveries(sessions: Seq<ClientId>, id: ClientId) -> Seq<
    DeliveryView,
> {
    if sessions.contains(id) {
        without(sessions, id).map_values(
            |s: ClientId| DeliveryView { to: s, envelope: MessageView::PeerDisconnected { id } },
        )
    } else {
        Seq::empty()
    }
}

/// Whether the registry passes `msg` from `from` on: the addressee is
/// registered, is not the sender, and the envelope is one that clients may
/// exchange.
pub open spec fn routes(sessions: Seq<ClientId>, from: ClientId, msg: PeerMessageView) -> bool {
    sessions.contains(msg.peer_id) && msg.peer_id != from && msg.content.is_routable()
}

/// What routing `msg` from `from` sends: the envelope, stamped with its true
/// sender, to the addressee; or nothing.
pub open spec fn route_deliveries(
    sessions: Seq<ClientId>,
    from: ClientId,
    msg: PeerMessageView,
) -> Seq<DeliveryView> {
    if routes(sessions, from, msg) {
        seq![DeliveryView { to: msg.peer_id, envelope: msg.content.with_sender(from) }]
    } else {
        Seq::empty()
    }
}

/// The registry of connected sessions.
pub struct Moderator {
    clients: Vec<ClientId>,
}

impl View for Moderator {
    type V = Seq<ClientId>;

    /// The registered sessions, oldest first.
    closed spec fn view(&self) -> Seq<ClientId> {
        self.clients@
    }
}

impl Moderator {
    #[verifier::type_invariant]
    spec fn unique_ids(&self) -> bool {
        self.clients@.no_duplicates()
    }

    /// A registry without sessions.
    pub fn new() -> (r: Self)
        ensures
            r@ == Seq::<ClientId>::empty(),
    {
        Moderator { clients: Vec::new() }
    }

    /// The registered sessions, oldest first. No identity occurs twice.
    pub fn clients(&self) -> (r: Vec<ClientId>)
        ensures
            r@ == self@,
            r@.no_duplicates(),
    {
        proof {
            use_type_invariant(self);
        }
        self.clients.clone()
    }

    /// How many sessions are registered.
    pub fn len(&self) -> (r: usize)
        ensures
            r == self@.len(),
    {
        self.clients.len()
    }

    /// Whether a session is registered under `id`.
    pub fn is_connected(&self, id: ClientId) -> (r: bool)
        ensures
            r == self@.contains(id),
    {
        self.position(id).is_some()
    }

    fn position(&self, id: ClientId) -> (r: Option<usize>)
        ensures
            r is Some <==> self.clients@.contains(id),
            r is Some ==> r.unwrap() < self.clients@.len() && self.clients@[r.unwrap() as int] == id
                && r.unwrap() == self.clients@.index_of(id),
    {
        proof {
            use_type_invariant(self);
        }
        let mut i: usize = 0;
        while i < self.clients.len()
            invariant
                i <= self.clients@.len(),
                self.clients@.no_duplicates(),
                forall|k: int| 0 <= k < i ==> self.clients@[k] != id,
            decreases self.clients@.len() - i,
        {
            if self.clients[i] == id {
                proof {
                    let j = self.clients@.index_of(id);
                    assert(self.clients@[i as int] == id);
                    assert(self.clients@.contains(id));
                    assert(0 <= j < self.clients@.len() && self.clients@[j] == id);
                }
                return Some(i);
            }
            i += 1;
        }
        None
    }

    /// Registers the session `msg.id`.
    ///
    /// Fails with [`Error::AlreadyConnected`], changing nothing, when the
    /// identity is registered. Otherwise the session is registered and the
    /// result holds what [`connect_deliveries`] describes.
    pub fn connect(&mut self, msg: Connect) -> (r: Result<Vec<Delivery>, Error>)
        ensures
            final(self)@.no_duplicates(),
            old(self)@.contains(msg.id) ==> r == Err::<Vec<Delivery>, Error>(Error::AlreadyConnected)
                && final(self)@ == old(self)@,
            !old(self)@.contains(msg.id) ==> r is Ok && final(self)@ == old(self)@.push(msg.id)
                && views(r.unwrap()@) == connect_deliveries(old(self)@, msg.id),
    {
        proof {
            use_type_invariant(&*self);
        }
        if self.is_connected(msg.id) {
            return Err(Error::AlreadyConnected);
        }
        let peers = self.clients.clone();
        let mut out: Vec<Delivery> = Vec::new();
        out.push(Delivery { to: msg.id, envelope: Message::Peers(peers) });
        let mut i: usize = 0;
        while i < self.clients.len()
            invariant
                i <= self.clients@.len(),
                out@.len() == i + 1,
                out@[0]@ == (DeliveryView {
                    to: msg.id,
                    envelope: MessageView::Peers(self.clients@),
                }),
                forall|k: int|
                    0 <= k < i ==> (#[trigger] out@[k + 1])@ == (DeliveryView {
                        to: self.clients@[k],
                        envelope: MessageView::NewPeer { id: msg.id },
                    }),
            decreases self.clients@.len() - i,
        {
            out.push(Delivery { to: self.clients[i], envelope: Message::NewPeer { id: msg.id } });
            i += 1;
        }
        proof {
            let want = connect_deliveries(self.clients@, msg.id);
            assert(views(out@).len() == want.len());
            assert forall|k: int| 0 <= k < want.len() implies views(out@)[k] == want[k] by {
                if k > 0 {
                    assert(out@[(k - 1) + 1]@ == want[k]);
                }
            }
            assert(views(out@) =~= want);
            assert(self.clients@.push(msg.id).no_duplicates()) by {
                let s = self.clients@.push(msg.id);
                assert forall|a: int, b: int| 0 <= a < s.len() && 0 <= b < s.len() && a != b implies s[a]
                    != s[b] by {
                    if a < self.clients@.len() && b < self.clients@.len() {
                    } else if a < self.clients@.len() {
                        assert(self.clients@.contains(s[a]));
                    } else {
                        assert(self.clients@.contains(s[b]));
                    }
                }
            }
        }
        let mut next = self.clients.clone();
        next.push(msg.id);
        self.clients = next;
        Ok(out)
    }

    /// Removes the session `msg.id` and tells every session that remains.
    ///
    /// A disconnect of an identity that is not registered changes nothing and
    /// sends nothing.
    pub fn disconnect(&mut self, msg: Disconnect) -> (r: Vec<Delivery>)
        ensures
            final(self)@.no_duplicates(),
            final(self)@ == without(old(self)@, msg.id),
            !final(self)@.contains(msg.id),
            views(r@) == disconnect_deliveries(old(self)@, msg.id),
            !old(self)@.contains(msg.id) ==> final(self)@ == old(self)@ && r@.len() == 0,
    {
        proof {
            use_type_invariant(&*self);
        }
        let mut out: Vec<Delivery> = Vec::new();
        let found = self.position(msg.id);
        match found {
            None => {
                assert(views(out@) =~= disconnect_deliveries(self.clients@, msg.id));
            },
            Some(at) => {
                proof {
                    lemma_without_drops(self.clients@, msg.id);
                }
                let mut next = self.clients.clone();
                next.remove(at);
                self.clients = next;
                let mut i: usize = 0;
                while i < self.clients.len()
                    invariant
                        i <= self.clients@.len(),
                        out@.len() == i,
                        forall|k: int|
                            0 <= k < i ==> (#[trigger] out@[k])@ == (DeliveryView {
                                to: self.clients@[k],
                                envelope: MessageView::PeerDisconnected { id: msg.id },
                            }),
                    decreases self.clients@.len() - i,
                {
                    out.push(
                        Delivery {
                            to: self.clients[i],
                            envelope: Message::PeerDisconnected { id: msg.id },
                        },
                    );
                    i += 1;
                }
                assert(views(out@) =~= disconnect_deliveries(old(self)@, msg.id));
            },
        }
        out
    }

    /// An envelope could not be handed to the mailbox of session `to`: the
    /// session counts as gone, as if it had disconnected.
    pub fn delivery_failed(&mut self, to: ClientId) -> (r: Vec<Delivery>)
        ensures
            final(self)@.no_duplicates(),
            final(self)@ == without(old(self)@, to),
            views(r@) == disconnect_deliveries(old(self)@, to),
    {
        self.disconnect(Disconnect { id: to })
    }

    /// Passes `msg`, sent by session `from`, on to the session it names.
    ///
    /// The envelope is delivered with `from` as its sender. It is dropped when
    /// the addressee is not registered, when the addressee is the sender, and
    /// when the envelope is not one that clients may exchange.
    pub fn route(&self, from: ClientId, msg: PeerMessage) -> (r: Vec<Delivery>)
        ensures
            views(r@) == route_deliveries(self@, from, msg@),
    {
        let mut out: Vec<Delivery> = Vec::new();
        if msg.peer_id != from && msg.content.is_routable() && self.is_connected(msg.peer_id) {
            let to = msg.peer_id;
            out.push(Delivery { to, envelope: msg.content.with_sender(from) });
        }
        assert(views(out@) =~= route_deliveries(self@, from, msg@));
        out
    }
}

/// Removing a registered identity from a list without repetitions leaves a
/// list without repetitions that holds every other identity and not this one.
pub proof fn lemma_without_drops(sessions: Seq<ClientId>, id: ClientId)
    requires
        sessions.no_duplicates(),
    ensures
        without(sessions, id).no_duplicates(),
        !without(sessions, id).contains(id),
        forall|s: ClientId| s != id ==> (without(sessions, id).contains(s) <==> sessions.contains(s)),
        sessions.contains(id) ==> without(sessions, id).len() + 1 == sessions.len(),
{
    if sessions.contains(id) {
        let at = sessions.index_of(id);
        let rest = sessions.remove(at);
        assert forall|a: int, b: int| 0 <= a < rest.len() && 0 <= b < rest.len() && a != b implies rest[a]
            != rest[b] by {
            let a2 = if a < at { a } else { a + 1 };
            let b2 = if b < at { b } else { b + 1 };
            assert(rest[a] == sessions[a2] && rest[b] == sessions[b2]);
        }
        assert(!rest.contains(id)) by {
            if rest.contains(id) {
                let k = choose|k: int| 0 <= k < rest.len() && rest[k] == id;
                let k2 = if k < at { k } else { k + 1 };
                assert(sessions[k2] == id);
            }
        }
        assert forall|s: ClientId| s != id implies (rest.contains(s) <==> sessions.contains(s)) by {
            if rest.contains(s) {
                let k = choose|k: int| 0 <= k < rest.len() && rest[k] == s;
                let k2 = if k < at { k } else { k + 1 };
                assert(sessions[k2] == s);
            }
            if sessions.contains(s) {
                let k = choose|k: int| 0 <= k < sessions.len() && sessions[k] == s;
                let k2 = if k < at { k } else { k - 1 };
                assert(rest[k2] == s);
            }
        }
    }
}

} // verus!
