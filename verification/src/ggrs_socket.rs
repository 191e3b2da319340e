//! The socket as a rollback session sees it: players in an order on which
//! all clients agree, and payloads with the peer they are for or from.

use vstd::prelude::*;
use crate::message::ClientId;
use crate::peer::{Packet, PacketView};
use crate::socket::{packet_views, WebRTCSocket};

verus! {

/// A player of a session.
#[derive(Clone, Copy, Debug, PartialEq, Eq, Structural)]
pub enum PlayerType {
    /// The player on this client.
    Local,
    /// The player on the peer with the given identity.
    Remote(ClientId),
}

/// `sorted` with `x` put in after the last item that is not larger.
pub open spec fn insert_sorted(sorted: Seq<ClientId>, x: ClientId) -> Seq<ClientId>
    decreases sorted.len(),
{
    if sorted.len() == 0 {
        seq![x]
    } else if sorted.last() <= x {
        sorted.push(x)
    } else {
        insert_sorted(sorted.drop_last(), x).push(sorted.last())
    }
}

/// The identities of `ids` in ascending order.
pub open spec fn sorted_ids(ids: Seq<ClientId>) -> Seq<ClientId>
    decreases ids.len(),
{
    if ids.len() == 0 {
        Seq::empty()
    } else {
        insert_sorted(sorted_ids(ids.drop_last()), ids.last())
    }
}

/// Whether `ids` ascends.
pub open spec fn ascending(ids: Seq<ClientId>) -> bool {
    forall|a: int, b: int| 0 <= a < b < ids.len() ==> ids[a] <= ids[b]
}

/// The player that `id` is on the client `me`.
pub open spec fn player_of(me: ClientId, id: ClientId) -> PlayerType {
    if id == me {
        PlayerType::Local
    } else {
        PlayerType::Remote(id)
    }
}

/// The players of a session of `me` with the peers `ready`: this client and
/// each peer, in ascending order of their identities.
pub open spec fn players_of(me: ClientId, ready: Seq<ClientId>) -> Seq<PlayerType> {
    sorted_ids(ready.push(me)).map_values(|id: ClientId| player_of(me, id))
}

/// Putting `x` into `s` is inserting it where the larger items begin.
pub proof fn lemma_insert_sorted(s: Seq<ClientId>, x: ClientId, at: int)
    requires
        0 <= at <= s.len(),
        forall|k: int| at <= k < s.len() ==> s[k] > x,
        at > 0 ==> s[at - 1] <= x,
    ensures
        insert_sorted(s, x) == s.insert(at, x),
    decreases s.len(),
{
    if s.len() == 0 {
        assert(seq![x] =~= s.insert(at, x));
    } else if at == s.len() {
        assert(s.push(x) =~= s.insert(at, x));
    } else {
        lemma_insert_sorted(s.drop_last(), x, at);
        assert(s.drop_last().insert(at, x).push(s.last()) =~= s.insert(at, x));
    }
}

/// Putting an item into an ascending list gives an ascending list of the
/// same items and the new one.
pub proof fn lemma_insert_sorted_ascends(s: Seq<ClientId>, x: ClientId)
    requires
        ascending(s),
    ensures
        ascending(insert_sorted(s, x)),
        insert_sorted(s, x).len() == s.len() + 1,
        forall|y: ClientId| #[trigger] insert_sorted(s, x).contains(y) <==> (y == x || s.contains(y)),
    decreases s.len(),
{
    let r = insert_sorted(s, x);
    if s.len() == 0 {
        assert(r[0] == x);
        assert forall|y: ClientId| #[trigger] r.contains(y) <==> (y == x || s.contains(y)) by {}
    } else if s.last() <= x {
        assert(r[s.len() as int] == x);
        assert forall|y: ClientId| #[trigger] r.contains(y) <==> (y == x || s.contains(y)) by {
            if s.contains(y) {
                let k = choose|k: int| 0 <= k < s.len() && s[k] == y;
                assert(r[k] == y);
            }
        }
    } else {
        let front = s.drop_last();
        lemma_insert_sorted_ascends(front, x);
        let inner = insert_sorted(front, x);
        assert forall|a: int, b: int| 0 <= a < b < r.len() implies r[a] <= r[b] by {
            if b == r.len() - 1 {
                assert(inner.contains(inner[a]));
                if inner[a] != x {
                    let k = choose|k: int| 0 <= k < front.len() && front[k] == inner[a];
                    assert(s[k] <= s[s.len() - 1]);
                }
            }
        }
        assert forall|y: ClientId| #[trigger] r.contains(y) <==> (y == x || s.contains(y)) by {
            if r.contains(y) {
                let k = choose|k: int| 0 <= k < r.len() && r[k] == y;
                if k < inner.len() {
                    assert(inner.contains(y));
                    if y != x {
                        let j = choose|j: int| 0 <= j < front.len() && front[j] == y;
                        assert(s[j] == y);
                    }
                } else {
                    assert(s[s.len() - 1] == y);
                }
            }
            if y == x || s.contains(y) {
                if y == x || front.contains(y) {
                    assert(inner.contains(y));
                    let k = choose|k: int| 0 <= k < inner.len() && inner[k] == y;
                    assert(r[k] == y);
                } else {
                    let j = choose|j: int| 0 <= j < s.len() && s[j] == y;
                    if j < front.len() {
                        assert(front[j] == y);
                    }
                    assert(r[r.len() - 1] == y);
                }
            }
        }
    }
}

/// The sorted list ascends and holds the same identities, as many as
/// before.
pub proof fn lemma_sorted_ids(ids: Seq<ClientId>)
    ensures
        ascending(sorted_ids(ids)),
        sorted_ids(ids).len() == ids.len(),
        forall|y: ClientId| #[trigger] sorted_ids(ids).contains(y) <==> ids.contains(y),
    decreases ids.len(),
{
    if ids.len() > 0 {
        let front = ids.drop_last();
        lemma_sorted_ids(front);
        lemma_insert_sorted_ascends(sorted_ids(front), ids.last());
        assert forall|y: ClientId| #[trigger] sorted_ids(ids).contains(y) <==> ids.contains(y) by {
            if ids.contains(y) {
                let k = choose|k: int| 0 <= k < ids.len() && ids[k] == y;
                if k < front.len() {
                    assert(front[k] == y);
                }
            }
            if front.contains(y) {
                let k = choose|k: int| 0 <= k < front.len() && front[k] == y;
                assert(ids[k] == y);
            }
            if y == ids.last() {
                assert(ids[ids.len() - 1] == y);
            }
        }
    }
}

/// The identities of `ids` in ascending order.
pub fn sort_ids(ids: &Vec<ClientId>) -> (r: Vec<ClientId>)
    ensures
        r@ == sorted_ids(ids@),
{
    let mut out: Vec<ClientId> = Vec::new();
    let mut i: usize = 0;
    while i < ids.len()
        invariant
            i <= ids@.len(),
            out@ == sorted_ids(ids@.take(i as int)),
            out@.len() == i,
        decreases ids@.len() - i,
    {
        let x = ids[i];
        let mut at: usize = out.len();
        while at > 0 && out[at - 1] > x
            invariant
                at <= out@.len(),
                forall|k: int| at <= k < out@.len() ==> out@[k] > x,
            decreases at,
        {
            at -= 1;
        }
        proof {
            lemma_insert_sorted(out@, x, at as int);
            assert(ids@.take(i + 1).drop_last() =~= ids@.take(i as int));
        }
        out.insert(at, x);
        i += 1;
    }
    proof {
        assert(ids@.take(i as int) =~= ids@);
    }
    out
}

/// The application's handle on a socket.
#[derive(Clone, Copy, Debug)]
pub struct GgrsSocket {
    id: ClientId,
}

impl GgrsSocket {
    /// The handle on `socket`.
    pub fn new(socket: &WebRTCSocket) -> (r: Self)
        ensures
            r.local_id() == socket@.id,
    {
        GgrsSocket { id: socket.local_id() }
    }

    /// The identity of this client.
    pub closed spec fn local_id(&self) -> ClientId {
        self.id
    }

    /// The identity of this client.
    pub fn id(&self) -> (r: ClientId)
        ensures
            r == self.local_id(),
    {
        self.id
    }

    /// The players of a session with the peers that the socket reports as
    /// ready: see [`players_of`]. Every client of a mesh lists the players
    /// in the same order.
    pub fn players(&self, ready_peers: Vec<ClientId>) -> (r: Vec<PlayerType>)
        ensures
            r@ == players_of(self.local_id(), ready_peers@),
    {
        let mut ids = ready_peers;
        ids.push(self.id);
        let sorted = sort_ids(&ids);
        let mut out: Vec<PlayerType> = Vec::new();
        let mut i: usize = 0;
        while i < sorted.len()
            invariant
                i <= sorted@.len(),
                out@.len() == i,
                forall|k: int| 0 <= k < i ==> out@[k] == player_of(self.id, #[trigger] sorted@[k]),
            decreases sorted@.len() - i,
        {
            if sorted[i] == self.id {
                out.push(PlayerType::Local);
            } else {
                out.push(PlayerType::Remote(sorted[i]));
            }
            i += 1;
        }
        assert(out@ =~= players_of(self.id, ready_peers@));
        out
    }

    /// Wraps a payload for the peer `addr`.
    pub fn send_to(&self, payload: Vec<u8>, addr: ClientId) -> (r: Packet)
        ensures
            r@ == (PacketView { id: addr, payload: payload@ }),
    {
        Packet::new(addr, payload)
    }

    /// Unwraps the packets that came in: each payload with the peer it came
    /// from, in the order of arrival.
    pub fn receive_all_messages(&self, packets: Vec<Packet>) -> (r: Vec<(ClientId, Vec<u8>)>)
        ensures
            r@.len() == packets@.len(),
            forall|k: int|
                0 <= k < r@.len() ==> (#[trigger] r@[k]).0 == packets@[k].id && r@[k].1@
                    == packets@[k].payload@,
    {
        let mut out: Vec<(ClientId, Vec<u8>)> = Vec::new();
        let mut i: usize = 0;
        while i < packets.len()
            invariant
                i <= packets@.len(),
                out@.len() == i,
                forall|k: int|
                    0 <= k < i ==> (#[trigger] out@[k]).0 == packets@[k].id && out@[k].1@
                        == packets@[k].payload@,
            decreases packets@.len() - i,
        {
            out.push((packets[i].id, packets[i].payload.clone()));
            i += 1;
        }
        out
    }
}

} // verus!
