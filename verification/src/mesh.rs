//! What holds of the mesh as a whole: the registry replayed over a history of
//! requests, and the laws of announcement, departure and routing.

use vstd::prelude::*;
use crate::message::{ClientId, MessageView, PeerMessage, PeerMessageView};
use crate::peer::PeerView;
use crate::socket::{is_offer_to, law_offer_needs_new_peer, message_step};
use crate::moderator::{
    connect_deliveries, disconnect_deliveries, lemma_without_drops, route_deliveries, views,
    without, Connect, Delivery, DeliveryView, Disconnect, Moderator,
};

verus! {

/// A request to the registry.
#[derive(Debug, PartialEq, Eq)]
pub enum Request {
    Connect(Connect),
    Disconnect(Disconnect),
    /// Session `from` asks for `msg` to be passed on.
    Route { from: ClientId, msg: PeerMessage },
}

/// Mathematical value of a [`Request`].
pub enum RequestView {
    Connect(ClientId),
    Disconnect(ClientId),
    Route { from: ClientId, msg: PeerMessageView },
}

impl View for Request {
    type V = RequestView;

    open spec fn view(&self) -> RequestView {
        match *self {
            Request::Connect(c) => RequestView::Connect(c.id),
            Request::Disconnect(d) => RequestView::Disconnect(d.id),
            Request::Route { from, msg } => RequestView::Route { from, msg: msg@ },
        }
    }
}

/// The sessions registered once `request` was handled with `sessions`
/// registered before.
pub open spec fn sessions_after_request(sessions: Seq<ClientId>, request: RequestView) -> Seq<
    ClientId,
> {
    match request {
        RequestView::Connect(id) => if sessions.contains(id) {
            sessions
        } else {
            sessions.push(id)
        },
        RequestView::Disconnect(id) => without(sessions, id),
        RequestView::Route { .. } => sessions,
    }
}

/// The envelopes that handling `request` sends with `sessions` registered.
pub open spec fn deliveries_of_request(sessions: Seq<ClientId>, request: RequestView) -> Seq<
    DeliveryView,
> {
    match request {
        RequestView::Connect(id) => if sessions.contains(id) {
            Seq::empty()
        } else {
            connect_deliveries(sessions, id)
        },
        RequestView::Disconnect(id) => disconnect_deliveries(sessions, id),
        RequestView::Route { from, msg } => route_deliveries(sessions, from, msg),
    }
}

/// The sessions registered after a registry that started empty handled
/// `history`, oldest request first.
pub open spec fn sessions_after(history: Seq<RequestView>) -> Seq<ClientId>
    decreases history.len(),
{
    if history.len() == 0 {
        Seq::empty()
    } else {
        sessions_after_request(sessions_after(history.drop_last()), history.last())
    }
}

/// Every envelope sent while a registry that started empty handled `history`,
/// in the order of sending.
pub open spec fn delivered(history: Seq<RequestView>) -> Seq<DeliveryView>
    decreases history.len(),
{
    if history.len() == 0 {
        Seq::empty()
    } else {
        delivered(history.drop_last()) + deliveries_of_request(
            sessions_after(history.drop_last()),
            history.last(),
        )
    }
}

/// Whether delivery `d` tells session `to` of session `who`: as a newcomer,
/// or as a member of the snapshot that `to` got on joining.
pub open spec fn announces(d: DeliveryView, to: ClientId, who: ClientId) -> bool {
    d.to == to && match d.envelope {
        MessageView::NewPeer { id } => id == who,
        MessageView::Peers(ids) => ids.contains(who),
        _ => false,
    }
}

/// Whether some delivery of `log` tells `to` of `who`.
pub open spec fn announced(log: Seq<DeliveryView>, to: ClientId, who: ClientId) -> bool {
    exists|k: int| 0 <= k < log.len() && announces(#[trigger] log[k], to, who)
}

impl Moderator {
    /// Handles one request: a connect that is refused sends nothing.
    pub fn handle(&mut self, request: Request) -> (r: Vec<Delivery>)
        ensures
            final(self)@ == sessions_after_request(old(self)@, request@),
            views(r@) == deliveries_of_request(old(self)@, request@),
    {
        match request {
            Request::Connect(c) => match self.connect(c) {
                Ok(out) => out,
                Err(_) => {
                    let out: Vec<Delivery> = Vec::new();
                    assert(views(out@) =~= Seq::<DeliveryView>::empty());
                    out
                },
            },
            Request::Disconnect(d) => self.disconnect(d),
            Request::Route { from, msg } => self.route(from, msg),
        }
    }
}

/// Handling a request keeps the registered identities distinct.
pub proof fn lemma_request_keeps_ids_unique(sessions: Seq<ClientId>, request: RequestView)
    requires
        sessions.no_duplicates(),
    ensures
        sessions_after_request(sessions, request).no_duplicates(),
{
    match request {
        RequestView::Connect(id) => {
            if !sessions.contains(id) {
                let s = sessions.push(id);
                assert forall|a: int, b: int| 0 <= a < s.len() && 0 <= b < s.len() && a != b implies s[a]
                    != s[b] by {
                    if a < sessions.len() && b < sessions.len() {
                    } else if a < sessions.len() {
                        assert(sessions.contains(s[a]));
                    } else {
                        assert(sessions.contains(s[b]));
                    }
                }
            }
        },
        RequestView::Disconnect(id) => {
            lemma_without_drops(sessions, id);
        },
        RequestView::Route { .. } => {},
    }
}

/// Unique identities: whatever requests the registry has handled, no two of
/// its sessions share an identity.
pub proof fn law_unique_ids(history: Seq<RequestView>)
    ensures
        sessions_after(history).no_duplicates(),
    decreases history.len(),
{
    if history.len() > 0 {
        law_unique_ids(history.drop_last());
        lemma_request_keeps_ids_unique(sessions_after(history.drop_last()), history.last());
    }
}

proof fn lemma_all_announced(history: Seq<RequestView>)
    ensures
        forall|i: ClientId, j: ClientId|
            sessions_after(history).contains(i) && sessions_after(history).contains(j) && i != j
                ==> #[trigger] announced(delivered(history), j, i),
    decreases history.len(),
{
    if history.len() > 0 {
        let before = sessions_after(history.drop_last());
        let log = delivered(history.drop_last());
        let sent = deliveries_of_request(before, history.last());
        let after = sessions_after(history);
        lemma_all_announced(history.drop_last());
        law_unique_ids(history.drop_last());
        assert(delivered(history) == log + sent);
        assert forall|i: ClientId, j: ClientId|
            after.contains(i) && after.contains(j) && i != j implies #[trigger] announced(
            log + sent,
            j,
            i,
        ) by {
            if before.contains(i) && before.contains(j) {
                assert(announced(log, j, i));
                let k = choose|k: int| 0 <= k < log.len() && announces(#[trigger] log[k], j, i);
                assert((log + sent)[k] == log[k]);
            } else {
                match history.last() {
                    RequestView::Connect(id) => {
                        assert(!before.contains(id));
                        assert(after == before.push(id));
                        assert(sent == connect_deliveries(before, id));
                        if !before.contains(i) {
                            assert(i == id) by {
                                let a = choose|a: int| 0 <= a < after.len() && after[a] == i;
                                if a < before.len() {
                                    assert(before[a] == i);
                                }
                            }
                            assert(before.contains(j)) by {
                                let b = choose|b: int| 0 <= b < after.len() && after[b] == j;
                                assert(b < before.len());
                                assert(before[b] == j);
                            }
                            let at = choose|at: int| 0 <= at < before.len() && before[at] == j;
                            let k = log.len() + 1 + at;
                            assert((log + sent)[k] == sent[1 + at]);
                            assert(announces((log + sent)[k], j, i));
                        } else {
                            assert(j == id) by {
                                let b = choose|b: int| 0 <= b < after.len() && after[b] == j;
                                if b < before.len() {
                                    assert(before[b] == j);
                                }
                            }
                            let k = log.len() as int;
                            assert((log + sent)[k] == sent[0]);
                            assert(announces((log + sent)[k], j, i));
                        }
                    },
                    RequestView::Disconnect(id) => {
                        lemma_without_drops(before, id);
                    },
                    RequestView::Route { .. } => {},
                }
            }
        }
    }
}

/// Mesh announcement: of any two sessions that are registered after
/// `history`, each was told of the other, by an announcement of the other as
/// a newcomer or by the snapshot it got when it joined.
pub proof fn law_mesh_announcement(history: Seq<RequestView>, i: ClientId, j: ClientId)
    requires
        sessions_after(history).contains(i),
        sessions_after(history).contains(j),
        i != j,
    ensures
        announced(delivered(history), j, i),
        announced(delivered(history), i, j),
{
    lemma_all_announced(history);
}

/// Disconnect broadcast: when session `x` leaves, session `s` that stays gets
/// the notice of it once, and that is all the registry sends.
pub proof fn law_disconnect_broadcast(sessions: Seq<ClientId>, x: ClientId, s: ClientId)
    requires
        sessions.no_duplicates(),
        sessions.contains(x),
        sessions.contains(s),
        s != x,
    ensures
        forall|k: int|
            0 <= k < disconnect_deliveries(sessions, x).len() ==> (#[trigger] disconnect_deliveries(
                sessions,
                x,
            )[k]).envelope == (MessageView::PeerDisconnected { id: x }),
        exists|k: int|
            0 <= k < disconnect_deliveries(sessions, x).len() && (#[trigger] disconnect_deliveries(
                sessions,
                x,
            )[k]).to == s && forall|m: int|
                0 <= m < disconnect_deliveries(sessions, x).len() && (
                #[trigger] disconnect_deliveries(sessions, x)[m]).to == s ==> m == k,
{
    lemma_without_drops(sessions, x);
    let rest = without(sessions, x);
    let sent = disconnect_deliveries(sessions, x);
    assert(rest.contains(s));
    let k = choose|k: int| 0 <= k < rest.len() && rest[k] == s;
    assert(sent[k].to == s);
    assert forall|m: int| 0 <= m < sent.len() && (#[trigger] sent[m]).to == s implies m == k by {
        assert(rest[m] == s);
    }
}

/// Idempotent disconnect: a disconnect of an identity that is not registered
/// changes nothing and sends nothing; so does a second disconnect after a
/// first.
pub proof fn law_disconnect_idempotent(sessions: Seq<ClientId>, x: ClientId)
    requires
        sessions.no_duplicates(),
    ensures
        !sessions.contains(x) ==> without(sessions, x) == sessions && disconnect_deliveries(
            sessions,
            x,
        ) == Seq::<DeliveryView>::empty(),
        without(without(sessions, x), x) == without(sessions, x),
        disconnect_deliveries(without(sessions, x), x) == Seq::<DeliveryView>::empty(),
{
    lemma_without_drops(sessions, x);
}

/// No loopback, for one request: no envelope that the registry sends to a
/// session speaks of that session.
pub proof fn law_no_loopback(sessions: Seq<ClientId>, request: RequestView, k: int)
    requires
        sessions.no_duplicates(),
        0 <= k < deliveries_of_request(sessions, request).len(),
    ensures
        !deliveries_of_request(sessions, request)[k].envelope.names(
            deliveries_of_request(sessions, request)[k].to,
        ),
{
    match request {
        RequestView::Connect(id) => {
            if k > 0 {
                assert(sessions.contains(sessions[k - 1]));
            }
        },
        RequestView::Disconnect(id) => {
            lemma_without_drops(sessions, id);
            let rest = without(sessions, id);
            assert(rest.contains(rest[k]));
        },
        RequestView::Route { from, msg } => {},
    }
}

/// No loopback, for a whole history: no session ever gets an envelope from
/// the registry whose sender, or whose subject, is the session itself.
pub proof fn law_no_loopback_ever(history: Seq<RequestView>, k: int)
    requires
        0 <= k < delivered(history).len(),
    ensures
        !delivered(history)[k].envelope.names(delivered(history)[k].to),
    decreases history.len(),
{
    if history.len() > 0 {
        let log = delivered(history.drop_last());
        let before = sessions_after(history.drop_last());
        if k < log.len() {
            law_no_loopback_ever(history.drop_last(), k);
        } else {
            law_unique_ids(history.drop_last());
            law_no_loopback(before, history.last(), k - log.len());
        }
    }
}

/// Whether the command `k` that the client `from`, with the drivers
/// `peers`, derives from the envelope of delivery `d` starts a negotiation
/// with `to` as the offering side.
pub open spec fn offers(d: DeliveryView, peers: Seq<PeerView>, k: int, from: ClientId, to: ClientId) -> bool {
    &&& d.to == from
    &&& 0 <= k < message_step(peers, from, d.envelope).commands.len()
    &&& is_offer_to(message_step(peers, from, d.envelope).commands[k], to)
}

/// Single initiator: of what a connect sends, whatever drivers the
/// recipients hold, at most one delivery makes one of `a` and `b` offer to
/// the other, and it prompts that offer once. The side that offers is the
/// one that was registered before; the newcomer, which gets the snapshot,
/// does not.
pub proof fn law_single_initiator(
    sessions: Seq<ClientId>,
    newcomer: ClientId,
    a: ClientId,
    b: ClientId,
    i: int,
    peers_i: Seq<PeerView>,
    ki: int,
    j: int,
    peers_j: Seq<PeerView>,
    kj: int,
)
    requires
        sessions.no_duplicates(),
        !sessions.contains(newcomer),
        0 <= i < connect_deliveries(sessions, newcomer).len(),
        0 <= j < connect_deliveries(sessions, newcomer).len(),
        offers(connect_deliveries(sessions, newcomer)[i], peers_i, ki, a, b) || offers(
            connect_deliveries(sessions, newcomer)[i],
            peers_i,
            ki,
            b,
            a,
        ),
        offers(connect_deliveries(sessions, newcomer)[j], peers_j, kj, a, b) || offers(
            connect_deliveries(sessions, newcomer)[j],
            peers_j,
            kj,
            b,
            a,
        ),
    ensures
        i == j,
        peers_i == peers_j ==> ki == kj,
        connect_deliveries(sessions, newcomer)[i].to != newcomer,
        sessions.contains(connect_deliveries(sessions, newcomer)[i].to),
{
    let sent = connect_deliveries(sessions, newcomer);
    let (from_i, to_i) = if offers(sent[i], peers_i, ki, a, b) {
        (a, b)
    } else {
        (b, a)
    };
    let (from_j, to_j) = if offers(sent[j], peers_j, kj, a, b) {
        (a, b)
    } else {
        (b, a)
    };
    law_offer_needs_new_peer(peers_i, from_i, sent[i].envelope, ki, to_i);
    law_offer_needs_new_peer(peers_j, from_j, sent[j].envelope, kj, to_j);
    assert(i > 0 && j > 0);
    assert(sent[i].to == sessions[i - 1]);
    assert(sent[j].to == sessions[j - 1]);
    assert(sessions.contains(sessions[i - 1]));
    assert(to_i == newcomer && to_j == newcomer);
    assert(from_i == from_j);
}

} // verus!
