//! The daemon's peer-to-peer layer: which peers are connected, over which
//! connection, and which disconnections the user asked for.
//!
//! A peer's receive loop ends when its connection closes. The daemon then
//! reports the peer as disconnected, unless the user disconnected it: that
//! disconnection was already answered.

use vstd::prelude::*;
use vstd::utf8::*;
use crate::schemas::NetEvent;
use crate::socket::string_from_utf8;
use crate::daemon::error::Error;
use crate::text::{chars_of, is_white, lemma_trimmed_edges, string_of, trim, trim_chars, trim_end, trim_start};
use crate::ticket::{is_endpoint_id_text, is_ticket_json, parse_endpoint_id, parse_ticket};

verus! {

/// The registry as a value: connected peers with their connections, in the
/// order they were first registered, and the peers whose disconnection was
/// requested locally.
pub struct RegistryView<C> {
    pub entries: Seq<(Seq<char>, C)>,
    pub disconnecting: Set<Seq<char>>,
}

/// The connected peers' ids, in order.
pub open spec fn ids<C>(es: Seq<(Seq<char>, C)>) -> Seq<Seq<char>> {
    es.map_values(|e: (Seq<char>, C)| e.0)
}

pub open spec fn has_peer<C>(es: Seq<(Seq<char>, C)>, k: Seq<char>) -> bool {
    exists|i: int| 0 <= i < es.len() && #[trigger] es[i].0 == k
}

/// Where peer `k` stands among the entries (meaningful when it is there).
pub open spec fn peer_index<C>(es: Seq<(Seq<char>, C)>, k: Seq<char>) -> int {
    choose|i: int| 0 <= i < es.len() && #[trigger] es[i].0 == k
}

/// No peer is listed twice.
pub open spec fn distinct_ids<C>(es: Seq<(Seq<char>, C)>) -> bool {
    forall|i: int, j: int| 0 <= i < es.len() && 0 <= j < es.len() && i != j ==> es[i].0 != es[j].0
}

/// Registering a connection to `k`: it replaces an earlier connection to
/// `k` in place, or joins the end of the list.
pub open spec fn after_register<C>(v: RegistryView<C>, k: Seq<char>, c: C) -> RegistryView<C> {
    RegistryView {
        entries: if has_peer(v.entries, k) {
            v.entries.update(peer_index(v.entries, k), (k, c))
        } else {
            v.entries.push((k, c))
        },
        disconnecting: v.disconnecting,
    }
}

/// A disconnection requested by the user: the peer leaves the list and its
/// disconnection is remembered; an unknown peer changes nothing.
pub open spec fn after_disconnect<C>(v: RegistryView<C>, k: Seq<char>) -> RegistryView<C> {
    if has_peer(v.entries, k) {
        RegistryView { entries: v.entries.remove(peer_index(v.entries, k)), disconnecting: v.disconnecting.insert(k) }
    } else {
        v
    }
}

/// The end of peer `k`'s receive loop: the peer leaves the list, and a
/// remembered disconnection of it is forgotten.
pub open spec fn after_loop_end<C>(v: RegistryView<C>, k: Seq<char>) -> RegistryView<C> {
    RegistryView {
        entries: if has_peer(v.entries, k) { v.entries.remove(peer_index(v.entries, k)) } else { v.entries },
        disconnecting: v.disconnecting.remove(k),
    }
}

/// Whether the end of `k`'s receive loop is reported: when nobody asked for it.
pub open spec fn loop_end_reported<C>(v: RegistryView<C>, k: Seq<char>) -> bool {
    !v.disconnecting.contains(k)
}

/// The connected peers, with their connections, and the disconnections asked for.
pub struct PeerRegistry<C> {
    peers: Vec<(String, C)>,
    disconnecting: Vec<String>,
}

impl<C> View for PeerRegistry<C> {
    type V = RegistryView<C>;

    closed spec fn view(&self) -> RegistryView<C> {
        RegistryView {
            entries: self.peers@.map_values(|e: (String, C)| (e.0@, e.1)),
            disconnecting: self.disconnecting@.map_values(|s: String| s@).to_set(),
        }
    }
}

impl<C> PeerRegistry<C> {
    /// The registry's invariant: no peer is listed twice.
    pub closed spec fn wf(&self) -> bool {
        distinct_ids(self@.entries)
    }

    /// An empty registry.
    pub fn new() -> (r: Self)
        ensures
            r.wf(),
            r@.entries == Seq::<(Seq<char>, C)>::empty(),
            r@.disconnecting == Set::<Seq<char>>::empty(),
    {
        let r = PeerRegistry { peers: Vec::new(), disconnecting: Vec::new() };
        assert(r@.entries =~= Seq::<(Seq<char>, C)>::empty());
        assert(r@.disconnecting =~= Set::<Seq<char>>::empty());
        r
    }

    fn find(&self, peer_id: &String) -> (r: Option<usize>)
        ensures
            r matches Some(i) ==> i < self@.entries.len() && self@.entries[i as int].0 == peer_id@,
            r is None ==> !has_peer(self@.entries, peer_id@),
    {
        let mut i: usize = 0;
        while i < self.peers.len()
            invariant
                i <= self.peers@.len(),
                self@.entries.len() == self.peers@.len(),
                forall|j: int| 0 <= j < i ==> self@.entries[j].0 != peer_id@,
            decreases self.peers@.len() - i,
        {
            if self.peers[i].0 == *peer_id {
                return Some(i);
            }
            i = i + 1;
        }
        None
    }

    proof fn lemma_index_unique(&self, k: Seq<char>, i: int)
        requires
            self.wf(),
            0 <= i < self@.entries.len(),
            self@.entries[i].0 == k,
        ensures
            has_peer(self@.entries, k),
            peer_index(self@.entries, k) == i,
    {
        let j = peer_index(self@.entries, k);
        assert(self@.entries[i].0 == k);
    }

    /// Records the connection to `peer_id`, replacing an earlier one; with
    /// `announce` (a peer that connected to us), the event that reports it.
    pub fn register(&mut self, peer_id: String, conn: C, announce: bool) -> (r: Option<NetEvent>)
        requires
            old(self).wf(),
        ensures
            final(self).wf(),
            final(self)@ == after_register(old(self)@, peer_id@, conn),
            r is Some <==> announce,
            r matches Some(e) ==> e matches NetEvent::PeerConnected { peer_id: p } && p@ == peer_id@,
    {
        let ghost k = peer_id@;
        let event = if announce { Some(NetEvent::PeerConnected { peer_id: peer_id.clone() }) } else { None };
        match self.find(&peer_id) {
            Some(i) => {
                proof { self.lemma_index_unique(k, i as int); }
                let ghost before = self.peers@;
                let _old = self.peers.remove(i);
                self.peers.insert(i, (peer_id, conn));
                assert(self.peers@ =~= before.update(i as int, self.peers@[i as int]));
                assert(self@.entries =~= old(self)@.entries.update(i as int, (k, conn)));
            },
            None => {
                self.peers.push((peer_id, conn));
                assert(self@.entries =~= old(self)@.entries.push((k, conn)));
            },
        }
        assert(self@.disconnecting =~= old(self)@.disconnecting);
        event
    }

    /// The connection to `peer_id`, if it is connected.
    pub fn get(&self, peer_id: &String) -> (r: Option<&C>)
        requires
            self.wf(),
        ensures
            r is Some <==> has_peer(self@.entries, peer_id@),
            r matches Some(c) ==> *c == self@.entries[peer_index(self@.entries, peer_id@)].1,
    {
        match self.find(peer_id) {
            Some(i) => {
                proof { self.lemma_index_unique(peer_id@, i as int); }
                Some(&self.peers[i].1)
            },
            None => None,
        }
    }

    /// The ids of the connected peers.
    pub fn list_peers(&self) -> (r: Vec<String>)
        ensures
            r@.map_values(|s: String| s@) == ids(self@.entries),
    {
        let mut r: Vec<String> = Vec::new();
        let mut i: usize = 0;
        while i < self.peers.len()
            invariant
                i <= self.peers@.len(),
                self@.entries.len() == self.peers@.len(),
                r@.map_values(|s: String| s@) == ids(self@.entries).take(i as int),
            decreases self.peers@.len() - i,
        {
            let ghost before = r@;
            r.push(self.peers[i].0.clone());
            assert(r@.map_values(|s: String| s@) =~= before.map_values(|s: String| s@).push(self.peers@[i as int].0@));
            assert(ids(self@.entries).take(i + 1) =~= ids(self@.entries).take(i as int).push(ids(self@.entries)[i as int]));
            i = i + 1;
        }
        assert(ids(self@.entries).take(i as int) =~= ids(self@.entries));
        r
    }

    fn remember_disconnect(&mut self, peer_id: String)
        ensures
            final(self)@.entries == old(self)@.entries,
            final(self)@.disconnecting == old(self)@.disconnecting.insert(peer_id@),
            final(self).peers@ == old(self).peers@,
    {
        let mut i: usize = 0;
        while i < self.disconnecting.len()
            invariant
                i <= self.disconnecting@.len(),
                forall|j: int| 0 <= j < i ==> self.disconnecting@[j]@ != peer_id@,
            decreases self.disconnecting@.len() - i,
        {
            if self.disconnecting[i] == peer_id {
                proof {
                    assert(self@.disconnecting.contains(peer_id@)) by {
                        assert(self.disconnecting@.map_values(|s: String| s@)[i as int] == peer_id@);
                    }
                    assert(self@.disconnecting.insert(peer_id@) =~= self@.disconnecting);
                }
                return;
            }
            i = i + 1;
        }
        let ghost before = self.disconnecting@.map_values(|s: String| s@);
        self.disconnecting.push(peer_id);
        proof {
            let after = self.disconnecting@.map_values(|s: String| s@);
            assert(after =~= before.push(peer_id@));
            before.lemma_push_to_set_commute(peer_id@);
        }
    }

    /// A disconnection requested by the user: the peer's connection leaves
    /// the registry and is returned, to be closed; `None` for a peer that is
    /// not connected.
    pub fn disconnect(&mut self, peer_id: &String) -> (r: Option<C>)
        requires
            old(self).wf(),
        ensures
            final(self).wf(),
            final(self)@ == after_disconnect(old(self)@, peer_id@),
            r is Some <==> has_peer(old(self)@.entries, peer_id@),
            r matches Some(c) ==> c == old(self)@.entries[peer_index(old(self)@.entries, peer_id@)].1,
    {
        match self.find(peer_id) {
            Some(i) => {
                proof { self.lemma_index_unique(peer_id@, i as int); }
                let ghost before = self.peers@;
                let (_, conn) = self.peers.remove(i);
                assert(self@.entries =~= old(self)@.entries.remove(i as int));
                self.remember_disconnect(peer_id.clone());
                assert(self.wf()) by {
                    assert forall|a: int, b: int| 0 <= a < self@.entries.len() && 0 <= b < self@.entries.len() && a != b
                        implies self@.entries[a].0 != self@.entries[b].0 by {
                        let a2 = if a < i { a } else { a + 1 };
                        let b2 = if b < i { b } else { b + 1 };
                        assert(self@.entries[a] == old(self)@.entries[a2]);
                        assert(self@.entries[b] == old(self)@.entries[b2]);
                    }
                }
                Some(conn)
            },
            None => None,
        }
    }

    fn forget_disconnect(&mut self, peer_id: &String) -> (was: bool)
        ensures
            final(self)@.entries == old(self)@.entries,
            final(self).peers@ == old(self).peers@,
            final(self)@.disconnecting == old(self)@.disconnecting.remove(peer_id@),
            was == old(self)@.disconnecting.contains(peer_id@),
    {
        let ghost k = peer_id@;
        let mut kept: Vec<String> = Vec::new();
        let mut was = false;
        let mut i: usize = 0;
        let ghost src = self.disconnecting@.map_values(|s: String| s@);
        assert(src.take(0).to_set() =~= Set::<Seq<char>>::empty());
        assert(kept@.map_values(|s: String| s@).to_set() =~= Set::<Seq<char>>::empty());
        while i < self.disconnecting.len()
            invariant
                i <= self.disconnecting@.len(),
                src == self.disconnecting@.map_values(|s: String| s@),
                k == peer_id@,
                self@ == old(self)@,
                self.peers@ == old(self).peers@,
                kept@.map_values(|s: String| s@).to_set() == src.take(i as int).to_set().remove(k),
                was == src.take(i as int).to_set().contains(k),
            decreases self.disconnecting@.len() - i,
        {
            let ghost kv = kept@.map_values(|s: String| s@);
            let ghost t = src.take(i as int);
            assert(src.take(i + 1) =~= t.push(src[i as int]));
            proof { t.lemma_push_to_set_commute(src[i as int]); }
            assert(src[i as int] == self.disconnecting@[i as int]@);
            if self.disconnecting[i] == *peer_id {
                was = true;
                assert(t.to_set().insert(k).remove(k) =~= t.to_set().remove(k));
            } else {
                kept.push(self.disconnecting[i].clone());
                proof {
                    let kv2 = kept@.map_values(|s: String| s@);
                    assert(kv2 =~= kv.push(src[i as int]));
                    kv.lemma_push_to_set_commute(src[i as int]);
                    assert(t.to_set().remove(k).insert(src[i as int]) =~= t.to_set().insert(src[i as int]).remove(k));
                }
            }
            i = i + 1;
        }
        assert(src.take(i as int) =~= src);
        self.disconnecting = kept;
        was
    }

    /// The end of `peer_id`'s receive loop: the peer leaves the registry, and
    /// the event to report, unless its disconnection was asked for.
    pub fn on_receive_loop_end(&mut self, peer_id: String) -> (r: Option<NetEvent>)
        requires
            old(self).wf(),
        ensures
            final(self).wf(),
            final(self)@ == after_loop_end(old(self)@, peer_id@),
            r is Some <==> loop_end_reported(old(self)@, peer_id@),
            r matches Some(e) ==> e matches NetEvent::PeerDisconnected { peer_id: p } && p@ == peer_id@,
    {
        match self.find(&peer_id) {
            Some(i) => {
                proof { self.lemma_index_unique(peer_id@, i as int); }
                let _gone = self.peers.remove(i);
                assert(self@.entries =~= old(self)@.entries.remove(i as int));
                assert(self.wf()) by {
                    assert forall|a: int, b: int| 0 <= a < self@.entries.len() && 0 <= b < self@.entries.len() && a != b
                        implies self@.entries[a].0 != self@.entries[b].0 by {
                        let a2 = if a < i { a } else { a + 1 };
                        let b2 = if b < i { b } else { b + 1 };
                        assert(self@.entries[a] == old(self)@.entries[a2]);
                        assert(self@.entries[b] == old(self)@.entries[b2]);
                    }
                }
            },
            None => {},
        }
        let intentional = self.forget_disconnect(&peer_id);
        if intentional {
            None
        } else {
            Some(NetEvent::PeerDisconnected { peer_id })
        }
    }
}

/// Law: a peer that the user disconnected is not reported as disconnected
/// when its receive loop ends; any other peer is.
pub proof fn lemma_requested_disconnect_is_silent<C>(v: RegistryView<C>, k: Seq<char>)
    requires
        has_peer(v.entries, k),
    ensures
        !loop_end_reported(after_disconnect(v, k), k),
        !v.disconnecting.contains(k) ==> loop_end_reported(v, k),
{
}

/// Law: a registered peer is listed with its connection; a disconnected one
/// is no longer listed.
pub proof fn lemma_register_then_disconnect<C>(v: RegistryView<C>, k: Seq<char>, c: C)
    requires
        distinct_ids(v.entries),
    ensures
        has_peer(after_register(v, k, c).entries, k),
        ({
            let w = after_register(v, k, c);
            w.entries[peer_index(w.entries, k)].1 == c
        }),
        !has_peer(after_disconnect(after_register(v, k, c), k).entries, k),
{
    let w = after_register(v, k, c);
    let i: int = if has_peer(v.entries, k) { peer_index(v.entries, k) } else { v.entries.len() as int };
    assert(w.entries[i] == (k, c));
    assert(w.entries[i].0 == k);
    assert(has_peer(w.entries, k));
    assert(distinct_ids(w.entries)) by {
        assert forall|a: int, b: int| 0 <= a < w.entries.len() && 0 <= b < w.entries.len() && a != b
            implies w.entries[a].0 != w.entries[b].0 by {
            if a != i && b != i {
                assert(w.entries[a] == v.entries[a] && w.entries[b] == v.entries[b]);
            } else if a == i {
                if has_peer(v.entries, k) {
                    assert(w.entries[b] == v.entries[b]);
                } else {
                    assert(w.entries[b] == v.entries[b]);
                    assert(!(v.entries[b].0 == k));
                }
            } else {
                if has_peer(v.entries, k) {
                    assert(w.entries[a] == v.entries[a]);
                } else {
                    assert(w.entries[a] == v.entries[a]);
                    assert(!(v.entries[a].0 == k));
                }
            }
        }
    }
    let j = peer_index(w.entries, k);
    assert(j == i);
    let d = after_disconnect(w, k);
    assert forall|m: int| 0 <= m < d.entries.len() implies d.entries[m].0 != k by {
        let m2 = if m < j { m } else { m + 1 };
        assert(d.entries[m] == w.entries[m2]);
    }
}

/// Largest message, in bytes, accepted from a peer.
pub const MAX_MESSAGE_BYTES: usize = 65536;

/// The event for a message that arrived from `peer_id` with the bytes
/// `payload` at `now_secs` seconds after the epoch; none for a payload that
/// is not UTF-8, which is dropped.
pub fn incoming_message(peer_id: String, payload: Vec<u8>, now_secs: u64) -> (r: Option<NetEvent>)
    ensures
        r is Some <==> valid_utf8(payload@),
        r matches Some(e) ==> e matches NetEvent::PeerMessage { peer_id: p, message: m, timestamp_secs: t }
            && p@ == peer_id@ && m@ == decode_utf8(payload@) && t == now_secs as i64,
{
    match string_from_utf8(payload) {
        Some(message) => Some(NetEvent::PeerMessage { peer_id, message, timestamp_secs: now_secs as i64 }),
        None => None,
    }
}

/// The failure of sending to a peer that is not connected.
pub fn not_connected_text(peer_id: &str) -> (r: String)
    ensures
        r@ == "peer "@ + peer_id@ + " is not connected"@,
{
    let mut r = String::from_str("peer ");
    r.append(peer_id);
    r.append(" is not connected");
    r
}

/// What a connect target names, once surrounding white space and a copied
/// `my ticket:` prefix are taken off.
pub open spec fn connect_payload(raw: Seq<char>) -> Seq<char> {
    let t = trim(raw);
    if t.len() >= 10 && t.take(10) == "my ticket:"@ {
        trim(t.skip(10))
    } else {
        t
    }
}

/// Law: a connect target reaches the daemon as the user meant it. A ticket
/// or id given as it is, and the `my ticket: ...` line that `myid` shows,
/// copied whole, both name the ticket itself.
pub proof fn lemma_copied_ticket_line(t: Seq<char>)
    requires
        trim(t) == t,
    ensures
        connect_payload(t) == t || (t.len() >= 10 && t.take(10) == "my ticket:"@),
        connect_payload("my ticket: "@ + t) == t,
{
    reveal_strlit("my ticket: ");
    reveal_strlit("my ticket:");
    let p = "my ticket: "@;
    let s = p + t;
    assert(s[0] == 'm');
    assert(!is_white(s[0]));
    assert(trim_start(s) == s);
    if t.len() > 0 {
        lemma_trimmed_edges(t);
        assert(s.last() == t.last());
        assert(trim_end(s) == s);
        assert(trim(s) == s);
        assert(s.take(10) =~= "my ticket:"@);
        let rest = s.skip(10);
        assert(rest =~= seq![' '] + t);
        assert(rest[0] == ' ');
        assert(rest.drop_first() =~= t);
        assert(trim_start(rest) == trim_start(t));
        assert(trim(rest) == t);
    } else {
        assert(s =~= p);
        assert(s.last() == ' ');
        assert(s.drop_last() =~= "my ticket:"@);
        let q = s.drop_last();
        assert(q.last() == ':');
        assert(trim_end(q) == q);
        assert(trim_end(s) == q);
        assert(trim(s) == q);
        assert(q.take(10) =~= q);
        assert(q.skip(10) =~= Seq::<char>::empty());
        assert(trim_start(q.skip(10)) =~= Seq::<char>::empty());
        assert(trim(q.skip(10)) =~= t);
    }
}

/// The message refusing a connect target that is neither a ticket nor an id.
pub open spec fn bad_target_text() -> Seq<char> {
    "connect expects either a full ticket JSON or a valid endpoint id"@
}

/// The part of a user's connect target that names the peer.
pub fn connect_payload_of(raw: &str) -> (r: String)
    ensures
        r@ == connect_payload(raw@),
{
    let cs = chars_of(raw);
    let t = trim_chars(cs.as_slice());
    let prefix = chars_of("my ticket:");
    proof { reveal_strlit("my ticket:"); }
    if t.len() >= 10 {
        let mut same = true;
        let mut i: usize = 0;
        assert(prefix@.len() == 10);
        assert(t@.take(0) =~= prefix@.take(0));
        while i < 10
            invariant
                i <= 10 <= t@.len(),
                prefix@ == "my ticket:"@,
                prefix@.len() == 10,
                same <==> t@.take(i as int) == prefix@.take(i as int),
            decreases 10 - i,
        {
            assert(t@.take(i + 1) =~= t@.take(i as int).push(t@[i as int]));
            assert(prefix@.take(i + 1) =~= prefix@.take(i as int).push(prefix@[i as int]));
            proof {
                if t@.take(i + 1) == prefix@.take(i + 1) {
                    assert(t@.take(i + 1).take(i as int) =~= t@.take(i as int));
                    assert(prefix@.take(i + 1).take(i as int) =~= prefix@.take(i as int));
                    assert(t@.take(i + 1)[i as int] == prefix@.take(i + 1)[i as int]);
                }
            }
            if t[i] != prefix[i] {
                same = false;
            }
            i = i + 1;
        }
        assert(prefix@.take(10) =~= prefix@);
        if same {
            let mut rest: Vec<char> = Vec::new();
            let mut j: usize = 10;
            while j < t.len()
                invariant
                    10 <= j <= t@.len(),
                    rest@ == t@.subrange(10, j as int),
                decreases t@.len() - j,
            {
                rest.push(t[j]);
                assert(t@.subrange(10, j as int).push(t@[j as int]) =~= t@.subrange(10, j + 1));
                j = j + 1;
            }
            assert(rest@ =~= t@.skip(10));
            let r = trim_chars(rest.as_slice());
            return string_of(r.as_slice());
        }
    }
    string_of(t.as_slice())
}

/// Best-effort reading of a user's connect target: the exact JSON ticket
/// that `myid` shows, a copied `my ticket: {...}` line, or a bare endpoint id.
pub fn parse_connect_target(raw: &str) -> (r: Result<iroh::EndpointAddr, Error>)
    ensures
        r is Ok <==> (is_ticket_json(connect_payload(raw@)) || is_endpoint_id_text(connect_payload(raw@))),
        r matches Err(e) ==> e.kind == crate::daemon::error::ErrorKind::Other && e.payload is Some
            && e.payload.unwrap()@ == bad_target_text(),
{
    let payload = connect_payload_of(raw);
    match parse_ticket(payload.as_str()) {
        Some((addr, _)) => Ok(addr),
        None => match parse_endpoint_id(payload.as_str()) {
            Some(addr) => Ok(addr),
            None => Err(Error::other(String::from_str("connect expects either a full ticket JSON or a valid endpoint id"))),
        },
    }
}

} // verus!
