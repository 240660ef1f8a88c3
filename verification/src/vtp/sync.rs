//! Store-and-forward synchronisation with conflict-free replicated data
//! types: a last-writer-wins register and a grow-only set.

use vstd::prelude::*;
use crate::clock::now_micros;

verus! {

/// Last-writer-wins register: the value with the latest timestamp wins.
#[derive(Debug, Clone)]
pub struct LwwRegister<T: Clone> {
    /// Current value.
    pub value: T,
    /// Time of the write in microseconds.
    pub timestamp_us: i64,
    /// Node that wrote it.
    pub node_id: [u8; 32],
}

impl<T: Clone> LwwRegister<T> {
    /// A register written at `timestamp_us`.
    pub fn new_at(value: T, node_id: [u8; 32], timestamp_us: i64) -> (r: LwwRegister<T>)
        ensures
            r.value == value,
            r.node_id == node_id,
            r.timestamp_us == timestamp_us,
    {
        LwwRegister { value, timestamp_us, node_id }
    }

    /// A register written now.
    pub fn new(value: T, node_id: [u8; 32]) -> (r: LwwRegister<T>)
        ensures
            r.value == value,
            r.node_id == node_id,
    {
        Self::new_at(value, node_id, now_micros())
    }

    /// Merges another replica: a write that wins (see `wins`) replaces this
    /// one (its value cloned), otherwise nothing changes.
    pub fn merge(&mut self, other: &LwwRegister<T>)
        ensures
            wins(other.timestamp_us, other.node_id@, old(self).timestamp_us, old(self).node_id@) ==> {
                &&& final(self).timestamp_us == other.timestamp_us
                &&& final(self).node_id == other.node_id
                &&& cloned::<T>(other.value, final(self).value)
            },
            !wins(other.timestamp_us, other.node_id@, old(self).timestamp_us, old(self).node_id@)
                ==> *final(self) == *old(self),
            final(self).timestamp_us == later(old(self).timestamp_us, other.timestamp_us),
    {
        let after = bytes_after_exec(&other.node_id, &self.node_id);
        if other.timestamp_us > self.timestamp_us || (other.timestamp_us == self.timestamp_us && after) {
            self.value = other.value.clone();
            self.timestamp_us = other.timestamp_us;
            self.node_id = other.node_id;
        }
    }
}

/// `a` comes after `b` in byte-wise lexicographic order (at the first byte
/// where they differ, `a`'s is greater).
pub open spec fn bytes_after(a: Seq<u8>, b: Seq<u8>) -> bool
    decreases a.len(),
{
    if a.len() == 0 || b.len() == 0 {
        false
    } else if a[0] != b[0] {
        a[0] > b[0]
    } else {
        bytes_after(a.skip(1), b.skip(1))
    }
}

/// Whether `a` comes after `b` in byte-wise lexicographic order.
fn bytes_after_exec(a: &[u8; 32], b: &[u8; 32]) -> (r: bool)
    ensures
        r == bytes_after(a@, b@),
{
    let mut i: usize = 0;
    assert(a@.skip(0) =~= a@);
    assert(b@.skip(0) =~= b@);
    while i < 32
        invariant
            i <= 32,
            a@.len() == 32,
            b@.len() == 32,
            bytes_after(a@, b@) == bytes_after(a@.skip(i as int), b@.skip(i as int)),
        decreases 32 - i,
    {
        assert(a@.skip(i as int)[0] == a[i as int]);
        assert(b@.skip(i as int)[0] == b[i as int]);
        assert(a@.skip(i as int).skip(1) =~= a@.skip(i + 1));
        assert(b@.skip(i as int).skip(1) =~= b@.skip(i + 1));
        if a[i] != b[i] {
            return a[i] > b[i];
        }
        i = i + 1;
    }
    false
}

proof fn lemma_bytes_after_asymmetric(a: Seq<u8>, b: Seq<u8>)
    ensures
        bytes_after(a, b) ==> !bytes_after(b, a),
    decreases a.len(),
{
    if a.len() > 0 && b.len() > 0 && a[0] == b[0] {
        lemma_bytes_after_asymmetric(a.skip(1), b.skip(1));
    }
}

proof fn lemma_bytes_after_total(a: Seq<u8>, b: Seq<u8>)
    requires
        a.len() == b.len(),
        a != b,
    ensures
        bytes_after(a, b) || bytes_after(b, a),
    decreases a.len(),
{
    if a.len() > 0 && a[0] == b[0] {
        if a.skip(1) == b.skip(1) {
            assert(a =~= seq![a[0]] + a.skip(1));
            assert(b =~= seq![b[0]] + b.skip(1));
        }
        lemma_bytes_after_total(a.skip(1), b.skip(1));
    } else if a.len() == 0 {
        assert(a =~= b);
    }
}

proof fn lemma_bytes_after_transitive(a: Seq<u8>, b: Seq<u8>, c: Seq<u8>)
    requires
        bytes_after(a, b),
        bytes_after(b, c),
    ensures
        bytes_after(a, c),
    decreases a.len(),
{
    if a[0] == b[0] && b[0] == c[0] {
        lemma_bytes_after_transitive(a.skip(1), b.skip(1), c.skip(1));
    }
}

/// A write stamped (`t1`, `n1`) wins over one stamped (`t2`, `n2`): it is
/// later, or at the same time from a node that comes after in byte order.
pub open spec fn wins(t1: i64, n1: Seq<u8>, t2: i64, n2: Seq<u8>) -> bool {
    t1 > t2 || (t1 == t2 && bytes_after(n1, n2))
}

/// The register that merging `b` into `a` keeps.
pub open spec fn lww_merged<T: Clone>(a: LwwRegister<T>, b: LwwRegister<T>) -> LwwRegister<T> {
    if wins(b.timestamp_us, b.node_id@, a.timestamp_us, a.node_id@) {
        b
    } else {
        a
    }
}

/// The later of two write times.
pub open spec fn later(a: i64, b: i64) -> i64 {
    if b > a {
        b
    } else {
        a
    }
}

/// Replicas converge: merging two registers whose writes carry different
/// (time, node) stamps keeps the same register in either order; merging is
/// associative, and merging a register again changes nothing.
pub proof fn lemma_lww_converges<T: Clone>(a: LwwRegister<T>, b: LwwRegister<T>, c: LwwRegister<T>)
    ensures
        (a.timestamp_us != b.timestamp_us || a.node_id@ != b.node_id@) ==> lww_merged(a, b) == lww_merged(b, a),
        lww_merged(lww_merged(a, b), c) == lww_merged(a, lww_merged(b, c)),
        lww_merged(lww_merged(a, b), b) == lww_merged(a, b),
        lww_merged(a, a) == a,
{
    lemma_stamps_ordered(a.node_id@, b.node_id@, c.node_id@);
}

proof fn lemma_stamps_ordered(x: Seq<u8>, y: Seq<u8>, z: Seq<u8>)
    ensures
        bytes_after(x, y) ==> !bytes_after(y, x),
        bytes_after(y, z) ==> !bytes_after(z, y),
        bytes_after(x, z) ==> !bytes_after(z, x),
        !bytes_after(x, x),
        !bytes_after(y, y),
        !bytes_after(z, z),
        x.len() == y.len() && x != y ==> bytes_after(x, y) || bytes_after(y, x),
        y.len() == z.len() && y != z ==> bytes_after(y, z) || bytes_after(z, y),
        x.len() == z.len() && x != z ==> bytes_after(x, z) || bytes_after(z, x),
        bytes_after(x, y) && bytes_after(y, z) ==> bytes_after(x, z),
        bytes_after(z, y) && bytes_after(y, x) ==> bytes_after(z, x),
        bytes_after(y, x) && bytes_after(x, z) ==> bytes_after(y, z),
        bytes_after(z, x) && bytes_after(x, y) ==> bytes_after(z, y),
        bytes_after(x, z) && bytes_after(z, y) ==> bytes_after(x, y),
        bytes_after(y, z) && bytes_after(z, x) ==> bytes_after(y, x),
{
    lemma_bytes_after_asymmetric(x, y);
    lemma_bytes_after_asymmetric(y, z);
    lemma_bytes_after_asymmetric(x, z);
    lemma_bytes_after_asymmetric(x, x);
    lemma_bytes_after_asymmetric(y, y);
    lemma_bytes_after_asymmetric(z, z);
    if x.len() == y.len() && x != y {
        lemma_bytes_after_total(x, y);
    }
    if y.len() == z.len() && y != z {
        lemma_bytes_after_total(y, z);
    }
    if x.len() == z.len() && x != z {
        lemma_bytes_after_total(x, z);
    }
    if bytes_after(x, y) && bytes_after(y, z) {
        lemma_bytes_after_transitive(x, y, z);
    }
    if bytes_after(z, y) && bytes_after(y, x) {
        lemma_bytes_after_transitive(z, y, x);
    }
    if bytes_after(y, x) && bytes_after(x, z) {
        lemma_bytes_after_transitive(y, x, z);
    }
    if bytes_after(z, x) && bytes_after(x, y) {
        lemma_bytes_after_transitive(z, x, y);
    }
    if bytes_after(x, z) && bytes_after(z, y) {
        lemma_bytes_after_transitive(x, z, y);
    }
    if bytes_after(y, z) && bytes_after(z, x) {
        lemma_bytes_after_transitive(y, z, x);
    }
}

/// The replica `a` after merging `b`: every digest of either, with its time
/// in `a` where `a` has it, else its time in `b`.
pub open spec fn merged(a: Map<Seq<u8>, i64>, b: Map<Seq<u8>, i64>) -> Map<Seq<u8>, i64> {
    b.union_prefer_right(a)
}

/// Grow-only replicas converge: merging in either order holds the same
/// digests, merging is associative, merging a replica again changes
/// nothing, and a replica merged with itself is unchanged.
pub proof fn lemma_gset_merge_converges(a: Map<Seq<u8>, i64>, b: Map<Seq<u8>, i64>, c: Map<Seq<u8>, i64>)
    ensures
        merged(a, b).dom() == merged(b, a).dom(),
        merged(merged(a, b), c) == merged(a, merged(b, c)),
        merged(merged(a, b), b) == merged(a, b),
        merged(a, a) == a,
{
    assert(merged(a, b).dom() =~= merged(b, a).dom());
    assert(merged(merged(a, b), c) =~= merged(a, merged(b, c)));
    assert(merged(merged(a, b), b) =~= merged(a, b));
    assert(merged(a, a) =~= a);
}

/// Grow-only set of data digests, each with the time it was first seen.
#[derive(Debug)]
pub struct GSet {
    elements: Vec<([u8; 32], i64)>,
}

/// The digests and times of a list of entries, later entries overriding.
pub open spec fn entries_map(s: Seq<([u8; 32], i64)>) -> Map<Seq<u8>, i64>
    decreases s.len(),
{
    if s.len() == 0 {
        Map::empty()
    } else {
        entries_map(s.drop_last()).insert(s.last().0@, s.last().1)
    }
}

/// No digest occurs twice.
pub open spec fn distinct_keys(s: Seq<([u8; 32], i64)>) -> bool {
    forall|i: int, j: int| 0 <= i < j < s.len() ==> s[i].0@ != s[j].0@
}

proof fn lemma_entries_map(s: Seq<([u8; 32], i64)>)
    requires
        distinct_keys(s),
    ensures
        entries_map(s).dom().finite(),
        entries_map(s).dom().len() == s.len(),
        forall|k: Seq<u8>| entries_map(s).dom().contains(k) <==> exists|i: int| 0 <= i < s.len() && #[trigger] s[i].0@ == k,
        forall|i: int| 0 <= i < s.len() ==> entries_map(s)[#[trigger] s[i].0@] == s[i].1,
    decreases s.len(),
{
    if s.len() > 0 {
        let t = s.drop_last();
        assert(distinct_keys(t)) by {
            assert forall|i: int, j: int| 0 <= i < j < t.len() implies t[i].0@ != t[j].0@ by {
                assert(t[i] == s[i] && t[j] == s[j]);
            }
        }
        lemma_entries_map(t);
        let k = s.last().0@;
        assert(!entries_map(t).dom().contains(k)) by {
            if entries_map(t).dom().contains(k) {
                let i = choose|i: int| 0 <= i < t.len() && #[trigger] t[i].0@ == k;
                assert(s[i].0@ == s[s.len() - 1].0@);
            }
        }
        assert forall|k2: Seq<u8>| entries_map(s).dom().contains(k2) <==> exists|i: int| 0 <= i < s.len() && #[trigger] s[i].0@ == k2 by {
            if entries_map(t).dom().contains(k2) {
                let i = choose|i: int| 0 <= i < t.len() && #[trigger] t[i].0@ == k2;
                assert(s[i] == t[i]);
            }
            if exists|i: int| 0 <= i < s.len() && #[trigger] s[i].0@ == k2 {
                let i = choose|i: int| 0 <= i < s.len() && #[trigger] s[i].0@ == k2;
                if i < s.len() - 1 {
                    assert(t[i] == s[i]);
                }
            }
        }
        assert forall|i: int| 0 <= i < s.len() implies entries_map(s)[#[trigger] s[i].0@] == s[i].1 by {
            if i < s.len() - 1 {
                assert(t[i] == s[i]);
                assert(s[i].0@ != k);
            }
        }
    }
}

impl View for GSet {
    type V = Map<Seq<u8>, i64>;

    /// Each digest with the time it was first seen.
    closed spec fn view(&self) -> Map<Seq<u8>, i64> {
        entries_map(self.elements@)
    }
}

impl GSet {
    #[verifier::type_invariant]
    spec fn well_formed(&self) -> bool {
        distinct_keys(self.elements@)
    }

    /// An empty set.
    pub fn new() -> (s: GSet)
        ensures
            s@ == Map::<Seq<u8>, i64>::empty(),
    {
        GSet { elements: Vec::new() }
    }

    fn find(&self, hash: &[u8; 32]) -> (r: Option<usize>)
        ensures
            r matches Some(i) ==> i < self.elements@.len() && self.elements@[i as int].0@ == hash@,
            r is None ==> forall|i: int| 0 <= i < self.elements@.len() ==> #[trigger] self.elements@[i].0@ != hash@,
    {
        let mut i: usize = 0;
        while i < self.elements.len()
            invariant
                i <= self.elements@.len(),
                forall|j: int| 0 <= j < i ==> #[trigger] self.elements@[j].0@ != hash@,
            decreases self.elements@.len() - i,
        {
            if crate::bytes::bytes_eq(&self.elements[i].0, hash) {
                assert(self.elements@[i as int].0@ =~= hash@);
                return Some(i);
            }
            i = i + 1;
        }
        None
    }

    /// Adds a digest first seen at `timestamp_us`; a digest already present
    /// keeps its time.
    pub fn insert_at(&mut self, hash: [u8; 32], timestamp_us: i64)
        ensures
            old(self)@.dom().contains(hash@) ==> final(self)@ == old(self)@,
            !old(self)@.dom().contains(hash@) ==> final(self)@ == old(self)@.insert(hash@, timestamp_us),
    {
        proof {
            use_type_invariant(&*self);
            lemma_entries_map(self.elements@);
        }
        match self.find(&hash) {
            Some(i) => {},
            None => {
                proof {
                    assert(!self@.dom().contains(hash@));
                }
                let ghost old_elems = self.elements@;
                let mut elems: Vec<([u8; 32], i64)> = Vec::new();
                core::mem::swap(&mut elems, &mut self.elements);
                elems.push((hash, timestamp_us));
                assert(elems@.drop_last() =~= old_elems);
                assert(distinct_keys(elems@)) by {
                    assert forall|i: int, j: int| 0 <= i < j < elems@.len() implies elems@[i].0@ != elems@[j].0@ by {
                        assert(elems@[i] == old_elems[i]);
                        if j < old_elems.len() {
                            assert(elems@[j] == old_elems[j]);
                        }
                    }
                }
                self.elements = elems;
            },
        }
    }

    /// Adds a digest first seen now.
    pub fn insert(&mut self, hash: [u8; 32])
        ensures
            old(self)@.dom().contains(hash@) ==> final(self)@ == old(self)@,
            !old(self)@.dom().contains(hash@) ==> final(self)@.dom() == old(self)@.dom().insert(hash@),
            forall|k: Seq<u8>| #[trigger] old(self)@.dom().contains(k) ==> final(self)@[k] == old(self)@[k],
    {
        self.insert_at(hash, now_micros());
    }

    /// Whether the digest is in the set.
    pub fn contains(&self, hash: &[u8; 32]) -> (b: bool)
        ensures
            b == self@.dom().contains(hash@),
    {
        proof {
            use_type_invariant(self);
            lemma_entries_map(self.elements@);
        }
        self.find(hash).is_some()
    }

    /// Union with another replica: digests missing here are added with the
    /// other replica's time; those present keep theirs.
    pub fn merge(&mut self, other: &GSet)
        ensures
            final(self)@.dom() == old(self)@.dom().union(other@.dom()),
            forall|k: Seq<u8>| #[trigger] old(self)@.dom().contains(k) ==> final(self)@[k] == old(self)@[k],
            forall|k: Seq<u8>|
                #[trigger] other@.dom().contains(k) && !old(self)@.dom().contains(k) ==> final(self)@[k] == other@[k],
            final(self)@ == merged(old(self)@, other@),
    {
        proof {
            use_type_invariant(other);
            lemma_entries_map(other.elements@);
        }
        let ghost start = self@;
        let mut i: usize = 0;
        while i < other.elements.len()
            invariant
                i <= other.elements@.len(),
                distinct_keys(other.elements@),
                other@ == entries_map(other.elements@),
                self@.dom() == start.dom().union(entries_map(other.elements@.take(i as int)).dom()),
                forall|k: Seq<u8>| #[trigger] start.dom().contains(k) ==> self@[k] == start[k],
                forall|k: Seq<u8>|
                    #[trigger] self@.dom().contains(k) && !start.dom().contains(k) ==> other@.dom().contains(k)
                        && self@[k] == other@[k],
            decreases other.elements@.len() - i,
        {
            let (h, t) = other.elements[i];
            let ghost before = self@;
            proof {
                lemma_entries_map(other.elements@);
                let p = other.elements@.take(i as int);
                let q = other.elements@.take(i + 1);
                assert(q.drop_last() =~= p);
                assert(entries_map(q).dom() =~= entries_map(p).dom().insert(h@));
            }
            self.insert_at(h, t);
            proof {
                assert(other.elements@[i as int].0@ == h@);
                assert(other@[h@] == t);
            }
            i = i + 1;
        }
        proof {
            assert(other.elements@.take(i as int) =~= other.elements@);
            assert(self@.dom() =~= start.dom().union(other@.dom()));
            assert forall|k: Seq<u8>| #[trigger] other@.dom().contains(k) && !start.dom().contains(k) implies self@[k]
                == other@[k] by {
                assert(self@.dom().contains(k));
            }
            assert(self@ =~= merged(start, other@));
        }
    }

    /// Number of digests.
    pub fn len(&self) -> (n: usize)
        ensures
            n == self@.dom().len(),
    {
        proof {
            use_type_invariant(self);
            lemma_entries_map(self.elements@);
        }
        self.elements.len()
    }

    /// Whether the set is empty.
    pub fn is_empty(&self) -> (b: bool)
        ensures
            b == (self@.dom().len() == 0),
    {
        self.len() == 0
    }
}

impl Clone for GSet {
    fn clone(&self) -> (r: GSet)
        ensures
            r@ == self@,
    {
        proof {
            use_type_invariant(self);
        }
        let mut elements: Vec<([u8; 32], i64)> = Vec::new();
        let mut i: usize = 0;
        while i < self.elements.len()
            invariant
                i <= self.elements@.len(),
                elements@ == self.elements@.take(i as int),
            decreases self.elements@.len() - i,
        {
            elements.push(self.elements[i]);
            i = i + 1;
            assert(elements@ =~= self.elements@.take(i as int));
        }
        assert(self.elements@.take(i as int) =~= self.elements@);
        GSet { elements }
    }
}

impl Default for GSet {
    fn default() -> (s: GSet)
        ensures
            s@ == Map::<Seq<u8>, i64>::empty(),
    {
        GSet::new()
    }
}

} // verus!
