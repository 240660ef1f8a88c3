//! The spider's frontier: topics waiting to be crawled, in order, and the
//! topics already crawled.

use vstd::prelude::*;
use crate::text::{to_lowercase, unicode_lowercase, utf8_len, chars_of, utf8_len_wide};
use super::spider::{initial_seed_table, initial_seeds, Seed};

verus! {

/// Deepest seed that is still crawled.
pub const MAX_SEED_DEPTH: u32 = 8;

/// Counters of the spider's work.
#[derive(Debug, Clone, Copy, PartialEq, Eq, Structural)]
pub struct SpiderStats {
    /// Topics crawled.
    pub topics_crawled: u64,
    /// Facts found.
    pub facts_discovered: u64,
    /// Facts that were new.
    pub facts_new: u64,
    /// Facts already known that gained an attestation.
    pub facts_attested: u64,
    /// Contradictions detected.
    pub contradictions_found: u64,
}

impl Default for SpiderStats {
    /// All counters at zero.
    fn default() -> (s: SpiderStats)
        ensures
            s == (SpiderStats {
                topics_crawled: 0,
                facts_discovered: 0,
                facts_new: 0,
                facts_attested: 0,
                contradictions_found: 0,
            }),
    {
        SpiderStats { topics_crawled: 0, facts_discovered: 0, facts_new: 0, facts_attested: 0, contradictions_found: 0 }
    }
}

/// A seed as plain values: topic, depth, domain.
pub open spec fn seed_view(s: Seed) -> (Seq<char>, u32, Seq<char>) {
    (s.topic@, s.depth, s.domain@)
}

/// The initial seeds at depth 0.
pub open spec fn initial_frontier() -> Seq<(Seq<char>, u32, Seq<char>)> {
    initial_seed_table().map_values(|p: (&'static str, &'static str)| (p.0@, 0u32, p.1@))
}

/// The semantic spider's frontier: topics waiting to be crawled, first in
/// first out, the lowercase topics already crawled, and the work counters.
#[derive(Debug)]
pub struct SemanticSpider {
    pending: Vec<Seed>,
    visited: Vec<String>,
    /// Counters of the work done.
    pub stats: SpiderStats,
}

impl SemanticSpider {
    /// The seeds waiting, in order.
    pub closed spec fn pending_view(&self) -> Seq<(Seq<char>, u32, Seq<char>)> {
        self.pending@.map_values(|s: Seed| seed_view(s))
    }

    /// The work counters.
    pub closed spec fn counters(&self) -> SpiderStats {
        self.stats
    }

    /// The lowercase topics already crawled.
    pub closed spec fn visited_view(&self) -> Set<Seq<char>> {
        self.visited@.map_values(|s: String| s@).to_set()
    }

    fn push_initial(&mut self)
        ensures
            final(self).pending_view() == old(self).pending_view() + initial_frontier(),
            final(self).visited@ == old(self).visited@,
            final(self).counters() == old(self).counters(),
    {
        let seeds = initial_seeds();
        let ghost start = self.pending_view();
        let mut i: usize = 0;
        while i < seeds.len()
            invariant
                seeds@.len() == initial_seed_table().len(),
                forall|k: int|
                    0 <= k < seeds@.len() ==> (#[trigger] seeds@[k]).0@ == initial_seed_table()[k].0@ && seeds@[k].1@
                        == initial_seed_table()[k].1@,
                i <= seeds@.len(),
                self.pending_view() == start + initial_frontier().take(i as int),
                self.visited@ == old(self).visited@,
                self.stats == old(self).stats,
            decreases seeds@.len() - i,
        {
            let ghost before = self.pending@;
            let topic = seeds[i].0.clone();
            let domain = seeds[i].1.clone();
            self.pending.push(Seed { topic, depth: 0, domain });
            proof {
                assert(self.pending@ == before.push(self.pending@.last()));
                assert(self.pending_view() =~= before.map_values(|s: Seed| seed_view(s)).push(
                    initial_frontier()[i as int],
                ));
                assert(initial_frontier().take(i + 1) =~= initial_frontier().take(i as int).push(
                    initial_frontier()[i as int],
                ));
            }
            i = i + 1;
        }
        assert(initial_frontier().take(i as int) =~= initial_frontier());
    }

    /// A frontier holding the initial seeds, nothing crawled yet.
    pub fn new() -> (f: SemanticSpider)
        ensures
            f.pending_view() == initial_frontier(),
            f.visited_view() == Set::<Seq<char>>::empty(),
            f.counters() == (SpiderStats {
                topics_crawled: 0,
                facts_discovered: 0,
                facts_new: 0,
                facts_attested: 0,
                contradictions_found: 0,
            }),
    {
        let mut f = SemanticSpider { pending: Vec::new(), visited: Vec::new(), stats: SpiderStats::default() };
        assert(f.pending_view() =~= Seq::<(Seq<char>, u32, Seq<char>)>::empty());
        f.push_initial();
        assert(f.pending_view() =~= initial_frontier());
        assert(f.visited@.map_values(|s: String| s@) =~= Seq::<Seq<char>>::empty());
        assert(f.visited_view() =~= Set::<Seq<char>>::empty());
        f
    }

    /// A frontier holding `seeds` (in order) as the waiting topics, nothing
    /// crawled yet: the frontier saved by an earlier run.
    pub fn from_pending(seeds: Vec<Seed>) -> (f: SemanticSpider)
        ensures
            f.pending_view() == seeds@.map_values(|s: Seed| seed_view(s)),
            f.visited_view() == Set::<Seq<char>>::empty(),
            f.counters() == (SpiderStats {
                topics_crawled: 0,
                facts_discovered: 0,
                facts_new: 0,
                facts_attested: 0,
                contradictions_found: 0,
            }),
    {
        let f = SemanticSpider { pending: seeds, visited: Vec::new(), stats: SpiderStats::default() };
        assert(f.visited@.map_values(|s: String| s@) =~= Seq::<Seq<char>>::empty());
        assert(f.visited_view() =~= Set::<Seq<char>>::empty());
        f
    }

    /// The waiting seeds as (topic, depth, domain), in order, for saving.
    pub fn pending_seeds(&self) -> (v: Vec<(String, u32, String)>)
        ensures
            v@.len() == self.pending_view().len(),
            forall|k: int|
                0 <= k < v@.len() ==> (#[trigger] v@[k]).0@ == self.pending_view()[k].0 && v@[k].1
                    == self.pending_view()[k].1 && v@[k].2@ == self.pending_view()[k].2,
    {
        let mut v: Vec<(String, u32, String)> = Vec::new();
        let mut i: usize = 0;
        while i < self.pending.len()
            invariant
                i <= self.pending@.len(),
                v@.len() == i,
                forall|k: int|
                    0 <= k < i ==> (#[trigger] v@[k]).0@ == self.pending@[k].topic@ && v@[k].1 == self.pending@[k].depth
                        && v@[k].2@ == self.pending@[k].domain@,
            decreases self.pending@.len() - i,
        {
            let s = &self.pending[i];
            v.push((String::from_str(s.topic.as_str()), s.depth, String::from_str(s.domain.as_str())));
            i = i + 1;
        }
        v
    }

    /// Takes the oldest waiting seed, if any.
    pub fn next_seed(&mut self) -> (s: Option<Seed>)
        ensures
            old(self).pending_view().len() == 0 ==> s is None && final(self).pending_view() == old(self).pending_view(),
            old(self).pending_view().len() > 0 ==> (s matches Some(seed) && seed_view(seed) == old(self).pending_view()[0])
                && final(self).pending_view() == old(self).pending_view().skip(1),
            final(self).visited_view() == old(self).visited_view(),
            final(self).counters() == old(self).counters(),
    {
        if self.pending.len() == 0 {
            return None;
        }
        let ghost before = self.pending@;
        let seed = self.pending.remove(0);
        assert(self.pending@ =~= before.skip(1));
        assert(self.pending_view() =~= before.map_values(|s: Seed| seed_view(s)).skip(1));
        Some(seed)
    }

    /// Queues a seed behind the others.
    pub fn add_seed(&mut self, seed: Seed)
        ensures
            final(self).pending_view() == old(self).pending_view().push(seed_view(seed)),
            final(self).visited_view() == old(self).visited_view(),
            final(self).counters() == old(self).counters(),
    {
        let ghost before = self.pending@;
        let ghost v = seed_view(seed);
        self.pending.push(seed);
        assert(self.pending_view() =~= before.map_values(|s: Seed| seed_view(s)).push(v));
    }

    fn visited_index(&self, low: &str) -> (b: bool)
        ensures
            b == self.visited_view().contains(low@),
    {
        let mut i: usize = 0;
        while i < self.visited.len()
            invariant
                i <= self.visited@.len(),
                forall|j: int| 0 <= j < i ==> (#[trigger] self.visited@[j])@ != low@,
            decreases self.visited@.len() - i,
        {
            if crate::text::str_eq(self.visited[i].as_str(), low) {
                assert(self.visited@.map_values(|s: String| s@)[i as int] == low@);
                return true;
            }
            i = i + 1;
        }
        proof {
            let m = self.visited@.map_values(|s: String| s@);
            if m.to_set().contains(low@) {
                assert(m.contains(low@));
                let j = choose|j: int| 0 <= j < m.len() && #[trigger] m[j] == low@;
                assert(self.visited@[j]@ == low@);
            }
        }
        false
    }

    /// Whether a topic (in any case) has been crawled.
    pub fn is_visited(&self, topic: &str) -> (b: bool)
        ensures
            b == self.visited_view().contains(unicode_lowercase(topic@)),
    {
        let low = to_lowercase(topic);
        self.visited_index(low.as_str())
    }

    /// Records a topic (in any case) as crawled.
    pub fn mark_visited(&mut self, topic: &str)
        ensures
            final(self).visited_view() == old(self).visited_view().insert(unicode_lowercase(topic@)),
            final(self).pending_view() == old(self).pending_view(),
            final(self).counters() == old(self).counters(),
    {
        let low = to_lowercase(topic);
        if !self.visited_index(low.as_str()) {
            let ghost before = self.visited@;
            let ghost l = low@;
            self.visited.push(low);
            proof {
                assert(self.visited@.map_values(|s: String| s@) =~= before.map_values(|s: String| s@).push(l));
                before.map_values(|s: String| s@).lemma_push_to_set_commute(l);
                assert(self.visited_view() =~= before.map_values(|s: String| s@).to_set().insert(l));
            }
        } else {
            assert(self.visited_view().insert(unicode_lowercase(topic@)) =~= self.visited_view());
        }
    }

    /// Number of seeds waiting.
    pub fn queue_size(&self) -> (n: usize)
        ensures
            n == self.pending_view().len(),
    {
        self.pending.len()
    }

    /// Queues the initial seeds again behind the others.
    pub fn reseed(&mut self)
        ensures
            final(self).pending_view() == old(self).pending_view() + initial_frontier(),
            final(self).visited_view() == old(self).visited_view(),
            final(self).counters() == old(self).counters(),
    {
        self.push_initial();
    }

    /// Whether a seed is to be crawled: not deeper than `MAX_SEED_DEPTH` and
    /// its topic not crawled yet.
    pub fn admits(&self, seed: &Seed) -> (b: bool)
        ensures
            b == (seed.depth <= MAX_SEED_DEPTH && !self.visited_view().contains(unicode_lowercase(seed.topic@))),
    {
        seed.depth <= MAX_SEED_DEPTH && !self.is_visited(seed.topic.as_str())
    }

    /// Queues the topics discovered while crawling a seed of depth `depth`:
    /// each topic not crawled yet and of at least 3 bytes becomes a seed one
    /// level deeper, in order.
    pub fn enqueue_discoveries(&mut self, discovered: Vec<(String, String)>, depth: u32)
        requires
            depth < u32::MAX,
        ensures
            final(self).pending_view() == old(self).pending_view() + discoveries_kept(
                discovered@.map_values(|p: (String, String)| (p.0@, p.1@)),
                old(self).visited_view(),
                (depth + 1) as u32,
            ),
            final(self).visited_view() == old(self).visited_view(),
            final(self).counters() == old(self).counters(),
    {
        let ghost all = discovered@.map_values(|p: (String, String)| (p.0@, p.1@));
        let ghost start = self.pending_view();
        let ghost vis = self.visited_view();
        let mut i: usize = 0;
        while i < discovered.len()
            invariant
                all == discovered@.map_values(|p: (String, String)| (p.0@, p.1@)),
                i <= discovered@.len(),
                depth < u32::MAX,
                self.visited_view() == vis,
                self.stats == old(self).stats,
                self.pending_view() == start + discoveries_kept(all.take(i as int), vis, (depth + 1) as u32),
            decreases discovered@.len() - i,
        {
            let topic = discovered[i].0.clone();
            let domain = discovered[i].1.clone();
            assert(all.take(i + 1).drop_last() =~= all.take(i as int));
            assert(all[i as int] == (topic@, domain@));
            let tc = chars_of(topic.as_str());
            if !self.is_visited(topic.as_str()) && utf8_len_wide(tc.as_slice()) >= 3 {
                self.add_seed(Seed { topic, depth: depth + 1, domain });
            }
            i = i + 1;
        }
        assert(all.take(i as int) =~= all);
    }
}

impl Default for SemanticSpider {
    /// A frontier holding the initial seeds (see `new`).
    fn default() -> (f: SemanticSpider)
        ensures
            f.pending_view() == initial_frontier(),
            f.visited_view() == Set::<Seq<char>>::empty(),
            f.counters() == (SpiderStats {
                topics_crawled: 0,
                facts_discovered: 0,
                facts_new: 0,
                facts_attested: 0,
                contradictions_found: 0,
            }),
    {
        SemanticSpider::new()
    }
}

/// The seeds kept from discovered (topic, domain) pairs: topics not among
/// the crawled ones `visited` (in lowercase) and of at least 3 bytes, at
/// depth `depth`, in order.
pub open spec fn discoveries_kept(
    ds: Seq<(Seq<char>, Seq<char>)>,
    visited: Set<Seq<char>>,
    depth: u32,
) -> Seq<(Seq<char>, u32, Seq<char>)>
    decreases ds.len(),
{
    if ds.len() == 0 {
        Seq::empty()
    } else {
        let (t, d) = ds.last();
        discoveries_kept(ds.drop_last(), visited, depth) + if !visited.contains(unicode_lowercase(t)) && utf8_len(t)
            >= 3 {
            seq![(t, depth, d)]
        } else {
            Seq::empty()
        }
    }
}

/// A topic marked as crawled is crawled in every spelling with the same
/// lowercase form, so no seed of it is admitted again, and marking keeps
/// every topic crawled before.
pub proof fn lemma_marked_topic_stays_visited(visited: Set<Seq<char>>, topic: Seq<char>, other: Seq<char>)
    requires
        unicode_lowercase(other) == unicode_lowercase(topic),
    ensures
        visited.insert(unicode_lowercase(topic)).contains(unicode_lowercase(other)),
        forall|t: Seq<char>| visited.contains(t) ==> #[trigger] visited.insert(unicode_lowercase(topic)).contains(t),
{
}

} // verus!
