//! Deduplication: an exact index of content digests, and MinHash
//! signatures for near duplicates.

use vstd::prelude::*;
use vstd::wrapping::u32_specs::{wrapping_add, wrapping_mul};
use crate::bytes::bytes_eq;
use super::CdeError;

verus! {

/// Index of the BLAKE3 digests of known data, each with the id of its datum.
#[derive(Debug)]
pub struct ExactDedupIndex {
    known: Vec<([u8; 32], String)>,
}

/// The digest-to-id map of a list of entries, later entries overriding.
pub open spec fn known_map(s: Seq<([u8; 32], String)>) -> Map<Seq<u8>, Seq<char>>
    decreases s.len(),
{
    if s.len() == 0 {
        Map::empty()
    } else {
        known_map(s.drop_last()).insert(s.last().0@, s.last().1@)
    }
}

/// No digest occurs twice.
pub open spec fn distinct_digests(s: Seq<([u8; 32], String)>) -> bool {
    forall|i: int, j: int| 0 <= i < j < s.len() ==> s[i].0@ != s[j].0@
}

proof fn lemma_known_map(s: Seq<([u8; 32], String)>)
    requires
        distinct_digests(s),
    ensures
        known_map(s).dom().finite(),
        known_map(s).dom().len() == s.len(),
        forall|k: Seq<u8>| known_map(s).dom().contains(k) <==> exists|i: int| 0 <= i < s.len() && #[trigger] s[i].0@ == k,
        forall|i: int| 0 <= i < s.len() ==> known_map(s)[#[trigger] s[i].0@] == s[i].1@,
    decreases s.len(),
{
    if s.len() > 0 {
        let t = s.drop_last();
        assert(distinct_digests(t)) by {
            assert forall|i: int, j: int| 0 <= i < j < t.len() implies t[i].0@ != t[j].0@ by {
                assert(t[i] == s[i] && t[j] == s[j]);
            }
        }
        lemma_known_map(t);
        let k = s.last().0@;
        assert(!known_map(t).dom().contains(k)) by {
            if known_map(t).dom().contains(k) {
                let i = choose|i: int| 0 <= i < t.len() && #[trigger] t[i].0@ == k;
                assert(s[i].0@ == s[s.len() - 1].0@);
            }
        }
        assert forall|k2: Seq<u8>| known_map(s).dom().contains(k2) <==> exists|i: int| 0 <= i < s.len() && #[trigger] s[i].0@ == k2 by {
            if known_map(t).dom().contains(k2) {
                let i = choose|i: int| 0 <= i < t.len() && #[trigger] t[i].0@ == k2;
                assert(s[i] == t[i]);
            }
            if exists|i: int| 0 <= i < s.len() && #[trigger] s[i].0@ == k2 {
                let i = choose|i: int| 0 <= i < s.len() && #[trigger] s[i].0@ == k2;
                if i < s.len() - 1 {
                    assert(t[i] == s[i]);
                }
            }
        }
        assert forall|i: int| 0 <= i < s.len() implies known_map(s)[#[trigger] s[i].0@] == s[i].1@ by {
            if i < s.len() - 1 {
                assert(t[i] == s[i]);
                assert(s[i].0@ != k);
            }
        }
    }
}

impl View for ExactDedupIndex {
    type V = Map<Seq<u8>, Seq<char>>;

    /// Each known digest with the id of its datum.
    closed spec fn view(&self) -> Map<Seq<u8>, Seq<char>> {
        known_map(self.known@)
    }
}

impl ExactDedupIndex {
    #[verifier::type_invariant]
    spec fn well_formed(&self) -> bool {
        distinct_digests(self.known@)
    }

    /// An empty index.
    pub fn new() -> (ix: ExactDedupIndex)
        ensures
            ix@ == Map::<Seq<u8>, Seq<char>>::empty(),
            ix@.dom().finite(),
    {
        ExactDedupIndex { known: Vec::new() }
    }

    fn position(&self, h: &[u8; 32]) -> (r: Option<usize>)
        ensures
            r matches Some(i) ==> i < self.known@.len() && self.known@[i as int].0@ == h@,
            r is None ==> forall|i: int| 0 <= i < self.known@.len() ==> #[trigger] self.known@[i].0@ != h@,
    {
        let mut i: usize = 0;
        while i < self.known.len()
            invariant
                i <= self.known@.len(),
                forall|j: int| 0 <= j < i ==> #[trigger] self.known@[j].0@ != h@,
            decreases self.known@.len() - i,
        {
            if bytes_eq(&self.known[i].0, h) {
                assert(self.known@[i as int].0@ =~= h@);
                return Some(i);
            }
            i = i + 1;
        }
        None
    }

    /// The id of the datum with this digest, if it is known.
    pub fn check(&self, blake3_hash: &[u8; 32]) -> (r: Option<&str>)
        ensures
            self@.dom().contains(blake3_hash@) ==> (r matches Some(id) && id@ == self@[blake3_hash@]),
            !self@.dom().contains(blake3_hash@) ==> r is None,
    {
        proof {
            use_type_invariant(self);
            lemma_known_map(self.known@);
        }
        match self.position(blake3_hash) {
            Some(i) => Some(self.known[i].1.as_str()),
            None => None,
        }
    }

    /// Records a digest with the id of its datum (replacing the id of a
    /// digest already known).
    pub fn insert(&mut self, blake3_hash: [u8; 32], data_id: String)
        ensures
            final(self)@ == old(self)@.insert(blake3_hash@, data_id@),
            final(self)@.dom().finite(),
    {
        proof {
            use_type_invariant(&*self);
            lemma_known_map(self.known@);
        }
        let ghost old_known = self.known@;
        let pos = self.position(&blake3_hash);
        let mut known: Vec<([u8; 32], String)> = Vec::new();
        core::mem::swap(&mut known, &mut self.known);
        match pos {
            Some(i) => {
                known.set(i, (blake3_hash, data_id));
                proof {
                    assert(distinct_digests(known@)) by {
                        assert forall|a: int, b: int| 0 <= a < b < known@.len() implies known@[a].0@ != known@[b].0@ by {
                            if a != i && b != i {
                                assert(known@[a] == old_known[a] && known@[b] == old_known[b]);
                            } else if a == i {
                                assert(known@[b] == old_known[b]);
                                assert(old_known[i as int].0@ == blake3_hash@);
                            } else {
                                assert(known@[a] == old_known[a]);
                                assert(old_known[i as int].0@ == blake3_hash@);
                            }
                        }
                    }
                    lemma_known_map(known@);
                    assert forall|k: Seq<u8>| #[trigger] known_map(known@).dom().contains(k) <==> known_map(old_known).insert(blake3_hash@, data_id@).dom().contains(k) by {
                        if exists|j: int| 0 <= j < old_known.len() && #[trigger] old_known[j].0@ == k {
                            let j = choose|j: int| 0 <= j < old_known.len() && #[trigger] old_known[j].0@ == k;
                            if j != i {
                                assert(known@[j] == old_known[j]);
                            }
                        }
                        if exists|j: int| 0 <= j < known@.len() && #[trigger] known@[j].0@ == k {
                            let j = choose|j: int| 0 <= j < known@.len() && #[trigger] known@[j].0@ == k;
                            if j != i {
                                assert(known@[j] == old_known[j]);
                            }
                        }
                    }
                    assert forall|k: Seq<u8>| #[trigger] known_map(known@).dom().contains(k) implies known_map(known@)[k] == known_map(old_known).insert(blake3_hash@, data_id@)[k] by {
                        let j = choose|j: int| 0 <= j < known@.len() && #[trigger] known@[j].0@ == k;
                        if j != i {
                            assert(known@[j] == old_known[j]);
                        }
                    }
                    assert(known_map(known@) =~= known_map(old_known).insert(blake3_hash@, data_id@));
                }
            },
            None => {
                known.push((blake3_hash, data_id));
                proof {
                    assert(known@.drop_last() =~= old_known);
                    assert(distinct_digests(known@)) by {
                        assert forall|a: int, b: int| 0 <= a < b < known@.len() implies known@[a].0@ != known@[b].0@ by {
                            assert(known@[a] == old_known[a]);
                            if b < old_known.len() {
                                assert(known@[b] == old_known[b]);
                            }
                        }
                    }
                }
            },
        }
        self.known = known;
        proof {
            lemma_known_map(self.known@);
        }
    }

    /// Number of known digests.
    pub fn len(&self) -> (n: usize)
        ensures
            n == self@.dom().len(),
            self@.dom().finite(),
    {
        proof {
            use_type_invariant(self);
            lemma_known_map(self.known@);
        }
        self.known.len()
    }

    /// Whether no digest is known.
    pub fn is_empty(&self) -> (b: bool)
        ensures
            b == (self@.dom().len() == 0),
    {
        self.len() == 0
    }
}

impl Default for ExactDedupIndex {
    fn default() -> (ix: ExactDedupIndex)
        ensures
            ix@ == Map::<Seq<u8>, Seq<char>>::empty(),
            ix@.dom().finite(),
    {
        ExactDedupIndex::new()
    }
}

/// Stage 1: exact deduplication. A known digest is an error naming the
/// datum that has it; an unknown one passes with nothing to report.
pub fn check_exact_duplicate(blake3_hash: &[u8; 32], index: &ExactDedupIndex) -> (r: Result<Option<String>, CdeError>)
    ensures
        !index@.dom().contains(blake3_hash@) ==> r == Ok::<Option<String>, CdeError>(None),
        index@.dom().contains(blake3_hash@) ==> (r matches Err(CdeError::DuplicateData(m)) && m@
            == "Duplicato esatto trovato: "@ + index@[blake3_hash@]),
{
    match index.check(blake3_hash) {
        Some(existing) => {
            let mut m = String::from_str("Duplicato esatto trovato: ");
            m.append(existing);
            Err(CdeError::DuplicateData(m))
        },
        None => Ok(None),
    }
}

/// A digest recorded in the index is found again, with its id, and every
/// other digest keeps its answer.
pub proof fn lemma_insert_then_check(m: Map<Seq<u8>, Seq<char>>, h: Seq<u8>, id: Seq<char>, other: Seq<u8>)
    requires
        other != h,
    ensures
        m.insert(h, id).dom().contains(h) && m.insert(h, id)[h] == id,
        m.insert(h, id).dom().contains(other) == m.dom().contains(other),
        m.dom().contains(other) ==> m.insert(h, id)[other] == m[other],
{
}

/// Recording a digest in an index of `n` digests leaves `n` digests when it
/// was known (its id replaced) and makes `n + 1` when it is new.
pub proof fn lemma_insert_len(m: Map<Seq<u8>, Seq<char>>, h: Seq<u8>, id: Seq<char>)
    requires
        m.dom().finite(),
    ensures
        m.insert(h, id).dom().finite(),
        m.insert(h, id).dom().len() == (if m.dom().contains(h) {
            m.dom().len()
        } else {
            m.dom().len() + 1
        }),
{
    if m.dom().contains(h) {
        assert(m.insert(h, id).dom() =~= m.dom());
    }
}

/// The MinHash hash of a 4-byte shingle under the hash function `seed`.
pub open spec fn seeded_hash(value: u32, seed: u32) -> u32 {
    let h1 = wrapping_mul(value, 0x9E3779B9u32);
    let h2 = wrapping_add(h1, wrapping_mul(seed, 0x517CC1B7u32));
    let h3 = h2 ^ (h2 >> 16u32);
    let h4 = wrapping_mul(h3, 0x85EBCA6Bu32);
    let h5 = h4 ^ (h4 >> 13u32);
    let h6 = wrapping_mul(h5, 0xC2B2AE35u32);
    h6 ^ (h6 >> 16u32)
}

/// Seeded 32-bit hash used by the MinHash signatures (wrapping arithmetic).
pub fn hash_with_seed(value: u32, seed: u32) -> (h: u32)
    ensures
        h == seeded_hash(value, seed),
{
    let mut h = value.wrapping_mul(0x9E3779B9);
    h = h.wrapping_add(seed.wrapping_mul(0x517CC1B7));
    h = h ^ (h >> 16u32);
    h = h.wrapping_mul(0x85EBCA6B);
    h = h ^ (h >> 13u32);
    h = h.wrapping_mul(0xC2B2AE35);
    h = h ^ (h >> 16u32);
    h
}

/// The little-endian 32-bit shingle at index `i` of `content`.
pub open spec fn shingle(content: Seq<u8>, i: int) -> u32 {
    (content[i] as u32) | ((content[i + 1] as u32) << 8u32) | ((content[i + 2] as u32) << 16u32) | ((content[i + 3]
        as u32) << 24u32)
}

/// The smallest hash under `seed` of the shingles starting before `n`,
/// `u32::MAX` if there are none.
pub open spec fn min_hash(content: Seq<u8>, seed: u32, n: int) -> u32
    decreases n,
{
    if n <= 0 {
        u32::MAX
    } else {
        let prev = min_hash(content, seed, n - 1);
        let h = seeded_hash(shingle(content, n - 1), seed);
        if h < prev {
            h
        } else {
            prev
        }
    }
}

/// The MinHash signature of `content` with `num_hashes` hash functions:
/// entry `i` is the smallest hash under seed `i` (taken as a `u32`, so
/// modulo 2^32) over all 4-byte shingles (all `u32::MAX` for content under
/// 4 bytes).
pub open spec fn minhash(content: Seq<u8>, num_hashes: nat) -> Seq<u32> {
    Seq::new(num_hashes, |i: int| if content.len() < 4 { u32::MAX } else { min_hash(content, i as u32, content.len() - 3) })
}

/// The MinHash signature of a content (see `minhash`).
pub fn compute_signature(num_hashes: usize, content: &[u8]) -> (sig: Vec<u32>)
    ensures
        sig@ == minhash(content@, num_hashes as nat),
{
    let mut sig: Vec<u32> = Vec::new();
    let mut i: usize = 0;
    while i < num_hashes
        invariant
            i <= num_hashes,
            sig@ == minhash(content@, num_hashes as nat).take(i as int),
        decreases num_hashes - i,
    {
        let seed: u32 = i as u32;
        let mut m: u32 = u32::MAX;
        if content.len() >= 4 {
            let n = content.len() - 3;
            let mut k: usize = 0;
            while k < n
                invariant
                    n == content@.len() - 3,
                    content@.len() >= 4,
                    k <= n,
                    m == min_hash(content@, seed, k as int),
                decreases n - k,
            {
                let sh: u32 = (content[k] as u32) | ((content[k + 1] as u32) << 8u32) | ((content[k + 2] as u32)
                    << 16u32) | ((content[k + 3] as u32) << 24u32);
                let h = hash_with_seed(sh, seed);
                if h < m {
                    m = h;
                }
                k = k + 1;
            }
        }
        sig.push(m);
        i = i + 1;
        assert(sig@ =~= minhash(content@, num_hashes as nat).take(i as int));
    }
    assert(minhash(content@, num_hashes as nat).take(i as int) =~= minhash(content@, num_hashes as nat));
    sig
}

/// How many positions two signatures of one length agree on.
pub open spec fn agreements(a: Seq<u32>, b: Seq<u32>, n: int) -> nat
    decreases n,
{
    if n <= 0 {
        0
    } else {
        agreements(a, b, n - 1) + (if a[n - 1] == b[n - 1] { 1nat } else { 0nat })
    }
}

/// Number of positions where two signatures agree; 0 when their lengths
/// differ. The estimated Jaccard similarity is this count over the length.
pub fn signature_agreements(a: &[u32], b: &[u32]) -> (n: usize)
    ensures
        a@.len() != b@.len() ==> n == 0,
        a@.len() == b@.len() ==> n == agreements(a@, b@, a@.len() as int),
{
    if a.len() != b.len() {
        return 0;
    }
    let mut n: usize = 0;
    let mut i: usize = 0;
    while i < a.len()
        invariant
            a@.len() == b@.len(),
            i <= a@.len(),
            n == agreements(a@, b@, i as int),
            n <= i,
        decreases a@.len() - i,
    {
        if a[i] == b[i] {
            n = n + 1;
        }
        i = i + 1;
    }
    n
}

/// The agreement count over the first `n` positions counts exactly the
/// positions where the two signatures hold the same value: it does not
/// depend on the order of the signatures, is at most `n`, is 0 for
/// signatures that differ at every position, and is `n` exactly when they
/// agree at every position; one more agreeing position adds exactly one.
pub proof fn lemma_agreements_count_equal_positions(a: Seq<u32>, b: Seq<u32>, n: int)
    requires
        0 <= n <= a.len(),
        a.len() == b.len(),
    ensures
        agreements(a, b, n) == agreements(b, a, n),
        agreements(a, b, n) <= n,
        (forall|i: int| 0 <= i < n ==> a[i] != b[i]) ==> agreements(a, b, n) == 0,
        agreements(a, b, n) == n <==> (forall|i: int| 0 <= i < n ==> a[i] == b[i]),
        n > 0 ==> agreements(a, b, n) == agreements(a, b, n - 1) + (if a[n - 1] == b[n - 1] {
            1int
        } else {
            0int
        }),
    decreases n,
{
    if n > 0 {
        lemma_agreements_count_equal_positions(a, b, n - 1);
        if agreements(a, b, n) == n {
            assert forall|i: int| 0 <= i < n implies a[i] == b[i] by {
                if i < n - 1 {
                    assert(agreements(a, b, n - 1) == n - 1);
                } else {
                    assert(a[n - 1] == b[n - 1]);
                }
            }
        }
    }
}

/// A signature agrees with itself everywhere: identical content is
/// estimated fully similar.
pub proof fn lemma_self_agreement(a: Seq<u32>, n: int)
    requires
        0 <= n <= a.len(),
    ensures
        agreements(a, a, n) == n,
    decreases n,
{
    if n > 0 {
        lemma_self_agreement(a, n - 1);
    }
}

} // verus!
