//! Peer registry: the local, best-effort cache of remote peers and the topics
//! they are believed to be subscribed to.
//!
//! Discovery events create and remove records; decoded control messages only
//! mutate an existing record, never create one. All operations run on the
//! single event-loop driver, so the registry needs no locking.

use vstd::prelude::*;
use vstd::string::*;
use crate::base::PeerInfo;
use crate::strutil::{str_eq, str_position, vec_contains_str, views_of};

verus! {

/// The mathematical value of one registry record.
pub struct RecordView {
    pub id: Seq<char>,
    pub addr: Seq<char>,
    pub topics: Seq<Seq<char>>,
}

/// Whether the registry model holds a record for `id`.
pub open spec fn reg_has(r: Seq<RecordView>, id: Seq<char>) -> bool {
    exists|i: int| 0 <= i < r.len() && r[i].id == id
}

/// The position of the record for `id`, when one exists.
pub open spec fn reg_index(r: Seq<RecordView>, id: Seq<char>) -> int {
    choose|i: int| 0 <= i < r.len() && r[i].id == id
}

/// A topic sequence without repetition.
pub open spec fn distinct_topics(ts: Seq<Seq<char>>) -> bool {
    forall|a: int, b: int| 0 <= a < b < ts.len() ==> ts[a] != ts[b]
}

/// Well-formed registry model: record ids are pairwise distinct and each
/// believed subscription sequence holds no repetition.
pub open spec fn reg_wf(r: Seq<RecordView>) -> bool {
    &&& forall|a: int, b: int| 0 <= a < b < r.len() ==> r[a].id != r[b].id
    &&& forall|i: int| 0 <= i < r.len() ==> distinct_topics(#[trigger] r[i].topics)
}

/// Adding a topic to a believed set: a no-op when it is already there.
pub open spec fn insert_topic(ts: Seq<Seq<char>>, t: Seq<char>) -> Seq<Seq<char>> {
    if ts.contains(t) {
        ts
    } else {
        ts.push(t)
    }
}

/// The position of `t` in `ts`, when present.
pub open spec fn topic_index(ts: Seq<Seq<char>>, t: Seq<char>) -> int {
    choose|i: int| 0 <= i < ts.len() && ts[i] == t
}

/// Dropping a topic from a believed set: a no-op when it is absent.
pub open spec fn remove_topic(ts: Seq<Seq<char>>, t: Seq<char>) -> Seq<Seq<char>> {
    if ts.contains(t) {
        ts.remove(topic_index(ts, t))
    } else {
        ts
    }
}

/// Effect of a discovery report: inserts a fresh record with an empty
/// believed set, or leaves the registry as it is when the peer is known.
pub open spec fn discovered_step(r: Seq<RecordView>, id: Seq<char>, addr: Seq<char>) -> Seq<
    RecordView,
> {
    if reg_has(r, id) {
        r
    } else {
        r.push(RecordView { id, addr, topics: Seq::empty() })
    }
}

/// Effect of a discovery expiry: removes the record, or is a no-op.
pub open spec fn expired_step(r: Seq<RecordView>, id: Seq<char>) -> Seq<RecordView> {
    if reg_has(r, id) {
        r.remove(reg_index(r, id))
    } else {
        r
    }
}

/// Effect of a subscribe announce: adds the topic to the sender's believed
/// set; dropped when the sender is unknown.
pub open spec fn subscribe_announce_step(
    r: Seq<RecordView>,
    id: Seq<char>,
    t: Seq<char>,
) -> Seq<RecordView> {
    if reg_has(r, id) {
        let i = reg_index(r, id);
        r.update(i, RecordView { id: r[i].id, addr: r[i].addr, topics: insert_topic(r[i].topics, t) })
    } else {
        r
    }
}

/// Effect of an unsubscribe announce: drops the topic from the sender's
/// believed set; dropped when the sender is unknown.
pub open spec fn unsubscribe_announce_step(
    r: Seq<RecordView>,
    id: Seq<char>,
    t: Seq<char>,
) -> Seq<RecordView> {
    if reg_has(r, id) {
        let i = reg_index(r, id);
        r.update(i, RecordView { id: r[i].id, addr: r[i].addr, topics: remove_topic(r[i].topics, t) })
    } else {
        r
    }
}

/// With distinct ids, the record found at position `k` is the one
/// `reg_index` names.
pub proof fn lemma_reg_index_unique(r: Seq<RecordView>, id: Seq<char>, k: int)
    requires
        forall|a: int, b: int| 0 <= a < b < r.len() ==> r[a].id != r[b].id,
        0 <= k < r.len(),
        r[k].id == id,
    ensures
        reg_has(r, id),
        reg_index(r, id) == k,
{
    assert(reg_has(r, id));
    let i = reg_index(r, id);
    assert(0 <= i < r.len() && r[i].id == id);
}

/// With distinct topics, the topic found at position `k` is the one
/// `topic_index` names.
pub proof fn lemma_topic_index_unique(ts: Seq<Seq<char>>, t: Seq<char>, k: int)
    requires
        distinct_topics(ts),
        0 <= k < ts.len(),
        ts[k] == t,
    ensures
        ts.contains(t),
        topic_index(ts, t) == k,
{
    assert(ts.contains(t));
    let i = topic_index(ts, t);
    assert(0 <= i < ts.len() && ts[i] == t);
}

/// Adding a topic keeps a believed set free of repetition, and the topic is
/// in the result.
pub proof fn lemma_insert_topic_distinct(ts: Seq<Seq<char>>, t: Seq<char>)
    requires
        distinct_topics(ts),
    ensures
        distinct_topics(insert_topic(ts, t)),
        insert_topic(ts, t).contains(t),
{
    if !ts.contains(t) {
        let r1 = ts.push(t);
        assert(r1[ts.len() as int] == t);
        assert forall|a: int, b: int| 0 <= a < b < r1.len() implies r1[a] != r1[b] by {
            if b < ts.len() {
                assert(r1[a] == ts[a] && r1[b] == ts[b]);
            } else {
                assert(r1[a] == ts[a]);
                assert(!ts.contains(t));
                assert(ts[a] != t);
            }
        }
    }
}

/// Dropping a topic from a repetition-free believed set removes it for good.
pub proof fn lemma_remove_topic_absent(ts: Seq<Seq<char>>, t: Seq<char>)
    requires
        distinct_topics(ts),
    ensures
        distinct_topics(remove_topic(ts, t)),
        !remove_topic(ts, t).contains(t),
{
    if ts.contains(t) {
        let k = topic_index(ts, t);
        assert(0 <= k < ts.len() && ts[k] == t);
        let r1 = ts.remove(k);
        assert forall|j: int| 0 <= j < r1.len() implies r1[j] != t by {
            if j < k {
                assert(r1[j] == ts[j]);
            } else {
                assert(r1[j] == ts[j + 1]);
            }
        }
        assert forall|a: int, b: int| 0 <= a < b < r1.len() implies r1[a] != r1[b] by {
            if b < k {
                assert(r1[a] == ts[a] && r1[b] == ts[b]);
            } else if a < k {
                assert(r1[a] == ts[a] && r1[b] == ts[b + 1]);
            } else {
                assert(r1[a] == ts[a + 1] && r1[b] == ts[b + 1]);
            }
        }
        if r1.contains(t) {
            let w = choose|j: int| 0 <= j < r1.len() && r1[j] == t;
            assert(r1[w] != t);
        }
    }
}

/// Reporting the same peer discovered twice is idempotent: the second report
/// changes nothing.
pub proof fn lemma_discovered_idempotent(r: Seq<RecordView>, id: Seq<char>, addr: Seq<char>)
    ensures
        discovered_step(discovered_step(r, id, addr), id, addr) == discovered_step(r, id, addr),
{
    let r1 = discovered_step(r, id, addr);
    if !reg_has(r, id) {
        assert(r1[r.len() as int].id == id);
        assert(reg_has(r1, id));
    }
}

/// Once a peer has expired, a subscribe announce from it is dropped: the
/// registry stays without a record for that id.
pub proof fn lemma_expired_drops_announce(r: Seq<RecordView>, id: Seq<char>, t: Seq<char>)
    requires
        reg_wf(r),
    ensures
        !reg_has(expired_step(r, id), id),
        subscribe_announce_step(expired_step(r, id), id, t) == expired_step(r, id),
{
    let r1 = expired_step(r, id);
    if reg_has(r, id) {
        let k = reg_index(r, id);
        assert(0 <= k < r.len() && r[k].id == id);
        assert forall|i: int| 0 <= i < r1.len() implies r1[i].id != id by {
            if i < k {
                assert(r1[i] == r[i]);
            } else {
                assert(r1[i] == r[i + 1]);
            }
        }
    }
}

/// The peer registry. Records stand in discovery order; ids are distinct.
#[derive(Debug, PartialEq, Eq)]
pub struct PeerRegistry {
    pub entries: Vec<(String, PeerInfo)>,
}

impl View for PeerRegistry {
    type V = Seq<RecordView>;

    open spec fn view(&self) -> Seq<RecordView> {
        self.entries@.map_values(
            |e: (String, PeerInfo)|
                RecordView {
                    id: e.0@,
                    addr: e.1.multi_addr@,
                    topics: views_of(e.1.subscribed_topics@),
                },
        )
    }
}

impl PeerRegistry {
    pub open spec fn wf(&self) -> bool {
        reg_wf(self@)
    }

    /// An empty registry.
    pub fn new() -> (r: Self)
        ensures
            r@ =~= Seq::<RecordView>::empty(),
            r.wf(),
    {
        PeerRegistry { entries: Vec::new() }
    }

    /// Position of the record for `peer_id`; the record count when unknown.
    fn position_of(&self, peer_id: &str) -> (r: usize)
        ensures
            r <= self@.len(),
            r < self@.len() ==> self@[r as int].id == peer_id@,
            r == self@.len() ==> !reg_has(self@, peer_id@),
    {
        let n = self.entries.len();
        let mut i: usize = 0;
        while i < n
            invariant
                n == self.entries@.len(),
                n == self@.len(),
                0 <= i <= n,
                forall|k: int| 0 <= k < i ==> self@[k].id != peer_id@,
            decreases n - i,
        {
            if str_eq(self.entries[i].0.as_str(), peer_id) {
                return i;
            }
            i = i + 1;
        }
        n
    }

    /// Whether a record for `peer_id` exists.
    pub fn is_known(&self, peer_id: &str) -> (r: bool)
        ensures
            r == reg_has(self@, peer_id@),
    {
        let p = self.position_of(peer_id);
        p < self.entries.len()
    }

    /// Discovery reported `peer_id` reachable at `multi_addr`: inserts a
    /// record with an empty believed set, or no-ops if one is present.
    pub fn on_peer_discovered(&mut self, peer_id: &str, multi_addr: &str)
        requires
            old(self).wf(),
        ensures
            final(self)@ == discovered_step(old(self)@, peer_id@, multi_addr@),
            final(self).wf(),
    {
        let p = self.position_of(peer_id);
        if p == self.entries.len() {
            let info = PeerInfo { multi_addr: multi_addr.to_owned(), subscribed_topics: Vec::new() };
            self.entries.push((peer_id.to_owned(), info));
            proof {
                assert(views_of(Seq::<String>::empty()) =~= Seq::<Seq<char>>::empty());
                assert(self@ =~= old(self)@.push(
                    RecordView { id: peer_id@, addr: multi_addr@, topics: Seq::empty() },
                ));
            }
        }
    }

    /// Discovery reported `peer_id` expired: removes its record if present.
    pub fn on_peer_expired(&mut self, peer_id: &str)
        requires
            old(self).wf(),
        ensures
            final(self)@ == expired_step(old(self)@, peer_id@),
            final(self).wf(),
    {
        let p = self.position_of(peer_id);
        if p < self.entries.len() {
            proof {
                lemma_reg_index_unique(self@, peer_id@, p as int);
            }
            self.entries.remove(p);
            proof {
                assert(self@ =~= old(self)@.remove(p as int));
            }
        }
    }

    /// A subscribe announce arrived from `peer_id`: adds the topic to its
    /// believed set. Returns whether the sender was known; an announce from
    /// an unknown peer is dropped and never creates a record.
    pub fn on_subscribe_announce(&mut self, peer_id: &str, topic: &str) -> (known: bool)
        requires
            old(self).wf(),
        ensures
            known == reg_has(old(self)@, peer_id@),
            final(self)@ == subscribe_announce_step(old(self)@, peer_id@, topic@),
            final(self).wf(),
    {
        let p = self.position_of(peer_id);
        if p < self.entries.len() {
            proof {
                lemma_reg_index_unique(self@, peer_id@, p as int);
            }
            let mut entry = self.entries.remove(p);
            if !vec_contains_str(&entry.1.subscribed_topics, topic) {
                entry.1.subscribed_topics.push(topic.to_owned());
                proof {
                    let oldts = old(self)@[p as int].topics;
                    assert(views_of(entry.1.subscribed_topics@) =~= oldts.push(topic@));
                }
            }
            let ghost new_topics = views_of(entry.1.subscribed_topics@);
            self.entries.insert(p, entry);
            proof {
                let oldv = old(self)@;
                let rec = RecordView {
                    id: oldv[p as int].id,
                    addr: oldv[p as int].addr,
                    topics: insert_topic(oldv[p as int].topics, topic@),
                };
                assert(new_topics =~= rec.topics);
                assert(self@ =~= oldv.update(p as int, rec));
            }
            true
        } else {
            false
        }
    }

    /// An unsubscribe announce arrived from `peer_id`: drops the topic from
    /// its believed set. Returns whether the sender was known.
    pub fn on_unsubscribe_announce(&mut self, peer_id: &str, topic: &str) -> (known: bool)
        requires
            old(self).wf(),
        ensures
            known == reg_has(old(self)@, peer_id@),
            final(self)@ == unsubscribe_announce_step(old(self)@, peer_id@, topic@),
            final(self).wf(),
    {
        let p = self.position_of(peer_id);
        if p < self.entries.len() {
            proof {
                lemma_reg_index_unique(self@, peer_id@, p as int);
            }
            let mut entry = self.entries.remove(p);
            let tpos = str_position(&entry.1.subscribed_topics, topic);
            if tpos < entry.1.subscribed_topics.len() {
                proof {
                    assert(views_of(entry.1.subscribed_topics@) == old(self)@[p as int].topics);
                    assert(distinct_topics(old(self)@[p as int].topics));
                    lemma_topic_index_unique(
                        views_of(entry.1.subscribed_topics@),
                        topic@,
                        tpos as int,
                    );
                }
                entry.1.subscribed_topics.remove(tpos);
                proof {
                    let oldts = old(self)@[p as int].topics;
                    assert(views_of(entry.1.subscribed_topics@) =~= oldts.remove(tpos as int));
                }
            }
            let ghost new_topics = views_of(entry.1.subscribed_topics@);
            self.entries.insert(p, entry);
            proof {
                let oldv = old(self)@;
                let rec = RecordView {
                    id: oldv[p as int].id,
                    addr: oldv[p as int].addr,
                    topics: remove_topic(oldv[p as int].topics, topic@),
                };
                assert(new_topics =~= rec.topics);
                assert(self@ =~= oldv.update(p as int, rec));
            }
            true
        } else {
            false
        }
    }

    /// The records, in registry order, for display.
    pub fn list(&self) -> (r: &Vec<(String, PeerInfo)>)
        ensures
            r == &self.entries,
    {
        &self.entries
    }
}

} // verus!
