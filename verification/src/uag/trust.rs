//! Trust tiers: facts move from T0 (unattested) to T4 (canonical) as
//! attestations accumulate.
//!
//! Source weights are kept in half-points (Institutional 10.0 is 20 halves,
//! Anonymous 0.5 is 1 half), so every threshold of the tier rules is an
//! integer comparison.

use vstd::prelude::*;
use crate::text::{chars_of, str_eq, to_lowercase, unicode_lowercase};

verus! {

/// Trust levels of the tier system.
#[derive(Debug, Clone, Copy, PartialEq, Eq, Structural)]
pub enum VeritTier {
    T0,
    T1,
    T2,
    T3,
    T4,
}

/// Rank of a tier: T0 is 0, T4 is 4.
pub open spec fn tier_rank(t: VeritTier) -> int {
    match t {
        VeritTier::T0 => 0,
        VeritTier::T1 => 1,
        VeritTier::T2 => 2,
        VeritTier::T3 => 3,
        VeritTier::T4 => 4,
    }
}

/// Short name of a tier ("T0" .. "T4").
pub open spec fn tier_name(t: VeritTier) -> Seq<char> {
    match t {
        VeritTier::T0 => "T0"@,
        VeritTier::T1 => "T1"@,
        VeritTier::T2 => "T2"@,
        VeritTier::T3 => "T3"@,
        VeritTier::T4 => "T4"@,
    }
}

/// Human-readable label of a tier.
pub open spec fn tier_label_spec(t: VeritTier) -> Seq<char> {
    match t {
        VeritTier::T0 => "Unattested"@,
        VeritTier::T1 => "Attested"@,
        VeritTier::T2 => "Corroborated"@,
        VeritTier::T3 => "Authoritative"@,
        VeritTier::T4 => "Canonical"@,
    }
}

impl VeritTier {
    /// The tier's short name, as its display form writes it.
    pub fn to_string(&self) -> (s: String)
        ensures
            s@ == tier_name(*self),
    {
        match self {
            VeritTier::T0 => String::from_str("T0"),
            VeritTier::T1 => String::from_str("T1"),
            VeritTier::T2 => String::from_str("T2"),
            VeritTier::T3 => String::from_str("T3"),
            VeritTier::T4 => String::from_str("T4"),
        }
    }
}

/// Human-readable label for each tier.
pub fn tier_label(tier: &VeritTier) -> (s: &'static str)
    ensures
        s@ == tier_label_spec(*tier),
{
    match tier {
        VeritTier::T0 => "Unattested",
        VeritTier::T1 => "Attested",
        VeritTier::T2 => "Corroborated",
        VeritTier::T3 => "Authoritative",
        VeritTier::T4 => "Canonical",
    }
}

/// Kind of source behind an attestation.
#[derive(Debug, Clone, Copy, PartialEq, Eq, Structural)]
pub enum SourceTier {
    Institutional,
    PeerReviewed,
    MainstreamMedia,
    Website,
    Anonymous,
}

/// Weight of a source kind in half-points: 10.0, 5.0, 3.0, 1.0 and 0.5.
pub open spec fn weight_halves_spec(t: SourceTier) -> int {
    match t {
        SourceTier::Institutional => 20,
        SourceTier::PeerReviewed => 10,
        SourceTier::MainstreamMedia => 6,
        SourceTier::Website => 2,
        SourceTier::Anonymous => 1,
    }
}

/// Source kind named by an already lowercased word.
pub open spec fn source_tier_of_lower(l: Seq<char>) -> SourceTier {
    if l == "institutional"@ {
        SourceTier::Institutional
    } else if l == "peer_reviewed"@ || l == "peerreviewed"@ {
        SourceTier::PeerReviewed
    } else if l == "mainstream_media"@ || l == "mainstreammedia"@ || l == "media"@ {
        SourceTier::MainstreamMedia
    } else if l == "website"@ || l == "web"@ {
        SourceTier::Website
    } else {
        SourceTier::Anonymous
    }
}

impl SourceTier {
    /// Weight of this source kind in half-points.
    pub fn weight_halves(&self) -> (w: u64)
        ensures
            w == weight_halves_spec(*self),
    {
        match self {
            SourceTier::Institutional => 20,
            SourceTier::PeerReviewed => 10,
            SourceTier::MainstreamMedia => 6,
            SourceTier::Website => 2,
            SourceTier::Anonymous => 1,
        }
    }

    /// Reads a source kind from a word, ignoring case; unknown words give `Anonymous`.
    pub fn from_str_loose(s: &str) -> (t: SourceTier)
        ensures
            t == source_tier_of_lower(unicode_lowercase(s@)),
    {
        let l = to_lowercase(s);
        Self::from_lowercase(l.as_str())
    }

    /// Reads a source kind from a word that is already lowercase; unknown
    /// words give `Anonymous`.
    pub fn from_lowercase(l: &str) -> (t: SourceTier)
        ensures
            t == source_tier_of_lower(l@),
    {
        if str_eq(l, "institutional") {
            SourceTier::Institutional
        } else if str_eq(l, "peer_reviewed") || str_eq(l, "peerreviewed") {
            SourceTier::PeerReviewed
        } else if str_eq(l, "mainstream_media") || str_eq(l, "mainstreammedia") || str_eq(
            l,
            "media",
        ) {
            SourceTier::MainstreamMedia
        } else if str_eq(l, "website") || str_eq(l, "web") {
            SourceTier::Website
        } else {
            SourceTier::Anonymous
        }
    }
}

/// An attestation of a fact by a source.
#[derive(Debug, Clone)]
pub struct Attestation {
    pub source_pubkey: String,
    pub domain: String,
    pub source_tier: SourceTier,
    pub timestamp_us: i64,
}

/// A recorded contradiction against a fact.
#[derive(Debug, Clone)]
pub struct Contradiction {
    pub conflicting_fact_id: String,
    pub description: String,
    pub source_pubkey: String,
    pub timestamp_us: i64,
}

/// Number of attestations of each source kind.
#[derive(Debug, Clone, Copy, Default, PartialEq, Eq)]
pub struct SourceBreakdown {
    pub institutional: u32,
    pub peer_reviewed: u32,
    pub mainstream_media: u32,
    pub website: u32,
    pub anonymous: u32,
}

/// Trust record of a fact.
#[derive(Debug, Clone)]
pub struct TrustRecord {
    pub tier: VeritTier,
    pub attestations: Vec<Attestation>,
    pub contradictions: Vec<Contradiction>,
    pub query_count: u64,
    pub first_seen_us: i64,
    pub last_updated_us: i64,
}

/// Sum of the weights of the attestations, in half-points.
pub open spec fn authority_halves_spec(a: Seq<Attestation>) -> int
    decreases a.len(),
{
    if a.len() == 0 {
        0
    } else {
        authority_halves_spec(a.drop_last()) + weight_halves_spec(a.last().source_tier)
    }
}

/// The domains of the attestations, in order.
pub open spec fn domains_of(a: Seq<Attestation>) -> Seq<Seq<char>> {
    a.map_values(|x: Attestation| x.domain@)
}

/// Number of distinct domains among the attestations.
pub open spec fn distinct_domains_spec(a: Seq<Attestation>) -> nat {
    domains_of(a).to_set().len()
}

/// Number of attestations whose source is of kind `k`.
pub open spec fn count_kind(a: Seq<Attestation>, k: SourceTier) -> nat
    decreases a.len(),
{
    if a.len() == 0 {
        0
    } else {
        count_kind(a.drop_last(), k) + if a.last().source_tier == k {
            1nat
        } else {
            0nat
        }
    }
}

/// Number of Institutional or PeerReviewed attestations.
pub open spec fn high_authority_spec(a: Seq<Attestation>) -> nat {
    count_kind(a, SourceTier::Institutional) + count_kind(a, SourceTier::PeerReviewed)
}

/// Microseconds elapsed since first sight, saturated to the `i64` range.
pub open spec fn elapsed_us(first_seen_us: i64, now_us: i64) -> int {
    let d = now_us - first_seen_us;
    if d > i64::MAX {
        i64::MAX as int
    } else if d < i64::MIN {
        i64::MIN as int
    } else {
        d
    }
}

/// Seven days in microseconds.
pub open spec fn seven_days_us() -> int {
    604_800_000_000int
}

/// The tier rules over the measured quantities.
pub open spec fn tier_rule(
    halves: int,
    high: int,
    domains: int,
    count: int,
    elapsed: int,
    contradictions: int,
) -> VeritTier {
    if halves >= 100 && high >= 2 && elapsed > seven_days_us() && contradictions == 0 {
        VeritTier::T4
    } else if halves >= 30 && high >= 1 {
        VeritTier::T3
    } else if domains >= 2 && halves >= 10 && count >= 2 {
        VeritTier::T2
    } else if count >= 1 && halves >= 2 {
        VeritTier::T1
    } else {
        VeritTier::T0
    }
}

/// Tier of a fact with attestations `a`, first seen at `first_seen_us`, with
/// `contradictions` recorded contradictions, at time `now_us`.
pub open spec fn tier_for(a: Seq<Attestation>, first_seen_us: i64, contradictions: int, now_us: i64) -> VeritTier {
    tier_rule(
        authority_halves_spec(a),
        high_authority_spec(a) as int,
        distinct_domains_spec(a) as int,
        a.len() as int,
        elapsed_us(first_seen_us, now_us),
        contradictions,
    )
}

/// Tier of a record at time `now_us`.
pub open spec fn tier_of(r: TrustRecord, now_us: i64) -> VeritTier {
    tier_for(r.attestations@, r.first_seen_us, r.contradictions@.len() as int, now_us)
}

/// Weights are positive, so the authority grows with every attestation.
pub proof fn lemma_authority_bounds(a: Seq<Attestation>)
    ensures
        a.len() <= authority_halves_spec(a) <= 20 * a.len(),
    decreases a.len(),
{
    if a.len() > 0 {
        lemma_authority_bounds(a.drop_last());
    }
}

proof fn lemma_count_kind_bound(a: Seq<Attestation>)
    ensures
        count_kind(a, SourceTier::Institutional) + count_kind(a, SourceTier::PeerReviewed)
            + count_kind(a, SourceTier::MainstreamMedia) + count_kind(a, SourceTier::Website)
            + count_kind(a, SourceTier::Anonymous) == a.len(),
    decreases a.len(),
{
    if a.len() > 0 {
        lemma_count_kind_bound(a.drop_last());
    }
}

impl TrustRecord {
    /// An empty record in tier T0, first seen at `now_us`.
    pub fn new(now_us: i64) -> (r: TrustRecord)
        ensures
            r.tier == VeritTier::T0,
            r.attestations@.len() == 0,
            r.contradictions@.len() == 0,
            r.query_count == 0,
            r.first_seen_us == now_us,
            r.last_updated_us == now_us,
    {
        TrustRecord {
            tier: VeritTier::T0,
            attestations: Vec::new(),
            contradictions: Vec::new(),
            query_count: 0,
            first_seen_us: now_us,
            last_updated_us: now_us,
        }
    }

    /// Total weight of the attestations in half-points.
    pub fn authority_halves(&self) -> (w: u128)
        ensures
            w == authority_halves_spec(self.attestations@),
    {
        let mut w: u128 = 0;
        let mut i: usize = 0;
        while i < self.attestations.len()
            invariant
                i <= self.attestations@.len(),
                w == authority_halves_spec(self.attestations@.take(i as int)),
            decreases self.attestations@.len() - i,
        {
            proof {
                lemma_authority_bounds(self.attestations@.take(i as int));
            }
            assert(self.attestations@.take(i + 1).drop_last() =~= self.attestations@.take(
                i as int,
            ));
            w = w + self.attestations[i].source_tier.weight_halves() as u128;
            i = i + 1;
        }
        assert(self.attestations@.take(i as int) =~= self.attestations@);
        w
    }

    /// Number of distinct domains among the attestations.
    pub fn distinct_domains(&self) -> (n: usize)
        ensures
            n == distinct_domains_spec(self.attestations@),
    {
        distinct_domain_count(self.attestations.as_slice())
    }

    /// Number of Institutional or PeerReviewed attestations.
    pub fn high_authority_count(&self) -> (n: usize)
        ensures
            n == high_authority_spec(self.attestations@),
    {
        let mut n: usize = 0;
        let mut i: usize = 0;
        while i < self.attestations.len()
            invariant
                i <= self.attestations@.len(),
                n == high_authority_spec(self.attestations@.take(i as int)),
            decreases self.attestations@.len() - i,
        {
            proof {
                lemma_count_kind_bound(self.attestations@.take(i as int));
            }
            assert(self.attestations@.take(i + 1).drop_last() =~= self.attestations@.take(
                i as int,
            ));
            let t = self.attestations[i].source_tier;
            if t == SourceTier::Institutional || t == SourceTier::PeerReviewed {
                n = n + 1;
            }
            i = i + 1;
        }
        assert(self.attestations@.take(i as int) =~= self.attestations@);
        n
    }

    /// Number of attestations of each source kind.
    pub fn source_breakdown(&self) -> (b: SourceBreakdown)
        requires
            self.attestations@.len() <= u32::MAX,
        ensures
            b.institutional == count_kind(self.attestations@, SourceTier::Institutional),
            b.peer_reviewed == count_kind(self.attestations@, SourceTier::PeerReviewed),
            b.mainstream_media == count_kind(self.attestations@, SourceTier::MainstreamMedia),
            b.website == count_kind(self.attestations@, SourceTier::Website),
            b.anonymous == count_kind(self.attestations@, SourceTier::Anonymous),
    {
        let ghost a = self.attestations@;
        let mut ni: u32 = 0;
        let mut np: u32 = 0;
        let mut nm: u32 = 0;
        let mut nw: u32 = 0;
        let mut na: u32 = 0;
        let mut i: usize = 0;
        while i < self.attestations.len()
            invariant
                a == self.attestations@,
                a.len() <= u32::MAX,
                i <= a.len(),
                ni == count_kind(a.take(i as int), SourceTier::Institutional),
                np == count_kind(a.take(i as int), SourceTier::PeerReviewed),
                nm == count_kind(a.take(i as int), SourceTier::MainstreamMedia),
                nw == count_kind(a.take(i as int), SourceTier::Website),
                na == count_kind(a.take(i as int), SourceTier::Anonymous),
            decreases a.len() - i,
        {
            proof {
                lemma_count_kind_bound(a.take(i as int));
            }
            assert(a.take(i + 1).drop_last() =~= a.take(i as int));
            match self.attestations[i].source_tier {
                SourceTier::Institutional => ni = ni + 1,
                SourceTier::PeerReviewed => np = np + 1,
                SourceTier::MainstreamMedia => nm = nm + 1,
                SourceTier::Website => nw = nw + 1,
                SourceTier::Anonymous => na = na + 1,
            }
            i = i + 1;
        }
        assert(a.take(i as int) =~= a);
        SourceBreakdown {
            institutional: ni,
            peer_reviewed: np,
            mainstream_media: nm,
            website: nw,
            anonymous: na,
        }
    }
}

/// Whether `d` occurs among the first `n` entries of `seen`.
fn seen_contains(seen: &Vec<String>, d: &String) -> (r: bool)
    ensures
        r == seen@.map_values(|s: String| s@).contains(d@),
{
    let ghost sv = seen@.map_values(|s: String| s@);
    let mut i: usize = 0;
    while i < seen.len()
        invariant
            sv == seen@.map_values(|s: String| s@),
            i <= seen@.len(),
            forall|j: int| 0 <= j < i ==> sv[j] != d@,
        decreases seen@.len() - i,
    {
        if seen[i] == *d {
            assert(sv[i as int] == d@);
            return true;
        }
        i = i + 1;
    }
    false
}

/// Number of distinct domains among `atts`.
pub fn distinct_domain_count(atts: &[Attestation]) -> (n: usize)
    ensures
        n == distinct_domains_spec(atts@),
{
    let ghost a = atts@;
    let mut seen: Vec<String> = Vec::new();
    let mut i: usize = 0;
    while i < atts.len()
        invariant
            a == atts@,
            i <= a.len(),
            seen@.len() <= i,
            seen@.map_values(|s: String| s@).no_duplicates(),
            seen@.map_values(|s: String| s@).to_set() == domains_of(a.take(i as int)).to_set(),
        decreases a.len() - i,
    {
        let ghost before = seen@.map_values(|s: String| s@);
        let d = &atts[i].domain;
        assert(domains_of(a.take(i + 1)) =~= domains_of(a.take(i as int)).push(d@));
        proof {
            domains_of(a.take(i as int)).lemma_push_to_set_commute(d@);
        }
        if !seen_contains(&seen, d) {
            seen.push(d.clone());
            assert(seen@.map_values(|s: String| s@) =~= before.push(d@));
            proof {
                before.lemma_push_to_set_commute(d@);
            }
            assert(seen@.map_values(|s: String| s@).to_set() =~= domains_of(
                a.take(i + 1),
            ).to_set());
        } else {
            assert(before.to_set().contains(d@));
            assert(before.to_set().insert(d@) =~= before.to_set());
        }
        i = i + 1;
    }
    assert(a.take(i as int) =~= a);
    proof {
        seen@.map_values(|s: String| s@).unique_seq_to_set();
    }
    seen.len()
}

/// Tier of a trust record at time `now_us`.
///
/// T4 needs 50.0 of weight, two high-authority sources, more than seven days
/// of age and no contradiction; T3 needs 15.0 of weight and a high-authority
/// source; T2 needs two domains, 5.0 of weight and two attestations; T1 needs
/// one attestation and 1.0 of weight.
pub fn compute_tier(record: &TrustRecord, now_us: i64) -> (t: VeritTier)
    ensures
        t == tier_of(*record, now_us),
{
    let score = record.authority_halves();
    let domains = record.distinct_domains();
    let high = record.high_authority_count();
    let d: i128 = now_us as i128 - record.first_seen_us as i128;
    let age: i128 = if d > i64::MAX as i128 {
        i64::MAX as i128
    } else if d < i64::MIN as i128 {
        i64::MIN as i128
    } else {
        d
    };
    let contradictions = record.contradictions.len();
    let count = record.attestations.len();
    if score >= 100 && high >= 2 && age > 604_800_000_000 && contradictions == 0 {
        return VeritTier::T4;
    }
    if score >= 30 && high >= 1 {
        return VeritTier::T3;
    }
    if domains >= 2 && score >= 10 && count >= 2 {
        return VeritTier::T2;
    }
    if count >= 1 && score >= 2 {
        return VeritTier::T1;
    }
    VeritTier::T0
}

/// Effective number of independent sources, in tenths: the first attestation
/// of each domain counts 1.0 and every further attestation of a domain already
/// seen counts 0.3.
pub fn compute_independence_tenths(attestations: &[Attestation]) -> (n: u128)
    ensures
        n == 10 * distinct_domains_spec(attestations@) + 3 * (attestations@.len()
            - distinct_domains_spec(attestations@)),
{
    let d = distinct_domain_count(attestations);
    proof {
        domains_of(attestations@).lemma_cardinality_of_set();
    }
    assert(domains_of(attestations@).len() == attestations@.len());
    10 * (d as u128) + 3 * ((attestations.len() - d) as u128)
}

/// The tier rules are monotone in each quantity they measure.
proof fn lemma_tier_rule_monotone(
    h1: int, g1: int, d1: int, n1: int, e1: int, c1: int,
    h2: int, g2: int, d2: int, n2: int, e2: int, c2: int,
)
    requires
        h1 <= h2, g1 <= g2, d1 <= d2, n1 <= n2, e1 <= e2, c2 <= c1, 0 <= c2,
    ensures
        tier_rank(tier_rule(h1, g1, d1, n1, e1, c1)) <= tier_rank(tier_rule(h2, g2, d2, n2, e2, c2)),
{
}

proof fn lemma_push_measures(a: Seq<Attestation>, x: Attestation)
    ensures
        authority_halves_spec(a) <= authority_halves_spec(a.push(x)),
        high_authority_spec(a) <= high_authority_spec(a.push(x)),
        distinct_domains_spec(a) <= distinct_domains_spec(a.push(x)),
{
    assert(a.push(x).drop_last() =~= a);
    assert(domains_of(a.push(x)) =~= domains_of(a).push(x.domain@));
    domains_of(a).lemma_push_to_set_commute(x.domain@);
    vstd::seq_lib::seq_to_set_is_finite(domains_of(a));
    if domains_of(a).to_set().contains(x.domain@) {
        assert(domains_of(a).to_set().insert(x.domain@) =~= domains_of(a).to_set());
    }
}

/// A new attestation never lowers the tier of a fact.
pub proof fn lemma_attestation_never_demotes(
    a: Seq<Attestation>,
    x: Attestation,
    first_seen_us: i64,
    contradictions: nat,
    now_us: i64,
)
    ensures
        tier_rank(tier_for(a, first_seen_us, contradictions as int, now_us)) <= tier_rank(
            tier_for(a.push(x), first_seen_us, contradictions as int, now_us),
        ),
{
    lemma_push_measures(a, x);
    lemma_tier_rule_monotone(
        authority_halves_spec(a), high_authority_spec(a) as int, distinct_domains_spec(a) as int,
        a.len() as int, elapsed_us(first_seen_us, now_us), contradictions as int,
        authority_halves_spec(a.push(x)), high_authority_spec(a.push(x)) as int,
        distinct_domains_spec(a.push(x)) as int, a.push(x).len() as int,
        elapsed_us(first_seen_us, now_us), contradictions as int,
    );
}

/// A recorded contradiction never raises the tier of a fact.
pub proof fn lemma_contradiction_never_promotes(
    a: Seq<Attestation>,
    first_seen_us: i64,
    contradictions: nat,
    now_us: i64,
)
    ensures
        tier_rank(tier_for(a, first_seen_us, contradictions + 1int, now_us)) <= tier_rank(
            tier_for(a, first_seen_us, contradictions as int, now_us),
        ),
{
}

/// As time passes the tier of an unchanged fact never drops.
pub proof fn lemma_age_never_demotes(
    a: Seq<Attestation>,
    first_seen_us: i64,
    contradictions: nat,
    now1: i64,
    now2: i64,
)
    requires
        now1 <= now2,
    ensures
        tier_rank(tier_for(a, first_seen_us, contradictions as int, now1)) <= tier_rank(
            tier_for(a, first_seen_us, contradictions as int, now2),
        ),
{
}

proof fn lemma_count_kind_absent(a: Seq<Attestation>, k: SourceTier)
    ensures
        (forall|i: int| 0 <= i < a.len() ==> (#[trigger] a[i]).source_tier != k) ==> count_kind(a, k) == 0,
        count_kind(a, k) > 0 ==> exists|i: int| 0 <= i < a.len() && (#[trigger] a[i]).source_tier == k,
    decreases a.len(),
{
    if a.len() > 0 {
        let t = a.drop_last();
        lemma_count_kind_absent(t, k);
        if forall|i: int| 0 <= i < a.len() ==> (#[trigger] a[i]).source_tier != k {
            assert forall|i: int| 0 <= i < t.len() implies (#[trigger] t[i]).source_tier != k by {
                assert(t[i] == a[i]);
            }
            assert(a.last() == a[a.len() - 1]);
        }
        if count_kind(a, k) > 0 {
            if count_kind(t, k) > 0 {
                let i = choose|i: int| 0 <= i < t.len() && (#[trigger] t[i]).source_tier == k;
                assert(a[i] == t[i]);
            } else {
                assert(a[a.len() - 1].source_tier == k);
            }
        }
    }
}

/// A high-authority attestation: Institutional or PeerReviewed.
pub open spec fn is_high_authority(x: Attestation) -> bool {
    x.source_tier == SourceTier::Institutional || x.source_tier == SourceTier::PeerReviewed
}

proof fn lemma_high_count_two(a: Seq<Attestation>)
    ensures
        high_authority_spec(a) >= 2 ==> exists|i: int, j: int|
            0 <= i < j < a.len() && is_high_authority(#[trigger] a[i]) && is_high_authority(#[trigger] a[j]),
        high_authority_spec(a) >= 1 ==> exists|i: int| 0 <= i < a.len() && is_high_authority(#[trigger] a[i]),
    decreases a.len(),
{
    if a.len() > 0 {
        let t = a.drop_last();
        lemma_high_count_two(t);
        let last = a.len() - 1;
        assert(a[last] == a.last());
        if high_authority_spec(t) >= 1 {
            let i = choose|i: int| 0 <= i < t.len() && is_high_authority(#[trigger] t[i]);
            assert(a[i] == t[i]);
        }
        if high_authority_spec(a) >= 2 {
            if high_authority_spec(t) >= 2 {
                let (i, j) = choose|i: int, j: int|
                    0 <= i < j < t.len() && is_high_authority(#[trigger] t[i]) && is_high_authority(#[trigger] t[j]);
                assert(a[i] == t[i] && a[j] == t[j]);
            } else {
                assert(is_high_authority(a[last]));
                let i = choose|i: int| 0 <= i < t.len() && is_high_authority(#[trigger] t[i]);
                assert(a[i] == t[i]);
            }
        }
    }
}

/// The canonical tier T4 needs 50.0 of weight (100 half-points), two
/// distinct high-authority attestations, more than seven days since the
/// fact was first seen, and no contradiction.
pub proof fn lemma_canonical_tier_requirements(
    a: Seq<Attestation>,
    first_seen_us: i64,
    contradictions: int,
    now_us: i64,
)
    requires
        tier_for(a, first_seen_us, contradictions, now_us) == VeritTier::T4,
    ensures
        authority_halves_spec(a) >= 100,
        contradictions == 0,
        now_us - first_seen_us > 604_800_000_000,
        exists|i: int, j: int|
            0 <= i < j < a.len() && is_high_authority(#[trigger] a[i]) && is_high_authority(#[trigger] a[j]),
{
    lemma_high_count_two(a);
}

/// The authoritative tiers need an institutional or peer-reviewed source: a
/// fact in tier T3 or T4 has at least 15.0 of weight (30 half-points) and
/// an Institutional or PeerReviewed attestation, so a fact attested only by
/// media, websites or anonymous sources is never in T3 or T4, however much
/// weight they add up to.
pub proof fn lemma_high_tiers_need_high_authority(
    a: Seq<Attestation>,
    first_seen_us: i64,
    contradictions: int,
    now_us: i64,
)
    ensures
        (forall|i: int|
            0 <= i < a.len() ==> (#[trigger] a[i]).source_tier != SourceTier::Institutional && a[i].source_tier
                != SourceTier::PeerReviewed) ==> tier_for(a, first_seen_us, contradictions, now_us) != VeritTier::T3
            && tier_for(a, first_seen_us, contradictions, now_us) != VeritTier::T4,
        (tier_for(a, first_seen_us, contradictions, now_us) == VeritTier::T3 || tier_for(
            a,
            first_seen_us,
            contradictions,
            now_us,
        ) == VeritTier::T4) ==> authority_halves_spec(a) >= 30 && exists|i: int|
            0 <= i < a.len() && ((#[trigger] a[i]).source_tier == SourceTier::Institutional || a[i].source_tier
                == SourceTier::PeerReviewed),
{
    lemma_count_kind_absent(a, SourceTier::Institutional);
    lemma_count_kind_absent(a, SourceTier::PeerReviewed);
}

/// An unattested fact is in tier T0, whatever its age and contradictions.
pub proof fn lemma_no_attestation_is_t0(first_seen_us: i64, contradictions: nat, now_us: i64)
    ensures
        tier_for(Seq::empty(), first_seen_us, contradictions as int, now_us) == VeritTier::T0,
{
    assert(domains_of(Seq::<Attestation>::empty()).to_set() =~= Set::empty());
}

} // verus!

verus! {

/// Some attestation of `a` comes from `source`.
pub open spec fn has_source(a: Seq<Attestation>, source: Seq<char>) -> bool {
    exists|i: int| 0 <= i < a.len() && (#[trigger] a[i]).source_pubkey@ == source
}

impl TrustRecord {
    /// Records an attestation from a source that has not attested the fact
    /// yet, at time `now_us`, and recomputes the tier; a source already
    /// present changes nothing. Returns whether the attestation was recorded.
    pub fn attest_new_source(&mut self, att: Attestation, now_us: i64) -> (added: bool)
        ensures
            added == !has_source(old(self).attestations@, att.source_pubkey@),
            added ==> {
                &&& final(self).attestations@ == old(self).attestations@.push(att)
                &&& final(self).contradictions@ == old(self).contradictions@
                &&& final(self).first_seen_us == old(self).first_seen_us
                &&& final(self).query_count == old(self).query_count
                &&& final(self).last_updated_us == now_us
                &&& final(self).tier == tier_of(*final(self), now_us)
            },
            !added ==> *final(self) == *old(self),
    {
        let mut i: usize = 0;
        while i < self.attestations.len()
            invariant
                i <= self.attestations@.len(),
                forall|j: int| 0 <= j < i ==> (#[trigger] self.attestations@[j]).source_pubkey@ != att.source_pubkey@,
            decreases self.attestations@.len() - i,
        {
            if crate::text::str_eq(self.attestations[i].source_pubkey.as_str(), att.source_pubkey.as_str()) {
                return false;
            }
            i = i + 1;
        }
        self.attestations.push(att);
        self.last_updated_us = now_us;
        self.tier = compute_tier(self, now_us);
        true
    }
}

/// A new record first seen at `now_us` holding one attestation, with its
/// tier computed.
pub fn attested_record(att: Attestation, now_us: i64) -> (r: TrustRecord)
    ensures
        r.attestations@ == seq![att],
        r.contradictions@.len() == 0,
        r.query_count == 0,
        r.first_seen_us == now_us,
        r.last_updated_us == now_us,
        r.tier == tier_of(r, now_us),
{
    let mut r = TrustRecord::new(now_us);
    r.attestations.push(att);
    assert(r.attestations@ =~= seq![att]);
    r.tier = compute_tier(&r, now_us);
    r
}

} // verus!
