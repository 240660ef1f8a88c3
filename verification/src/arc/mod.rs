//! Local validation of a datum for the consensus committee: the checks a
//! node runs and the vote it casts, and the parsing of peers' votes.

use vstd::prelude::*;
use crate::ddna::crypto::blake3_digest;
use crate::ddna::temporal::plausible;
use crate::ddna::{valid_at, DataDna};
use crate::text::str_eq;
use crate::bytes::{hex_digit, hex_lower};
use vstd::utf8::encode_utf8;

verus! {

/// A node's vote on a datum.
#[derive(Debug, Clone, Copy, PartialEq, Eq, Structural)]
pub enum VoteType {
    /// The datum passes every check.
    Approve,
    /// The datum fails most checks.
    Reject,
    /// Neither.
    Abstain,
}

/// The vote for a datum that passed `passed` checks and failed `failed`:
/// approve with no failure, reject when under half passed, otherwise
/// abstain.
pub open spec fn vote_of(passed: nat, failed: nat) -> VoteType {
    if failed == 0 {
        VoteType::Approve
    } else if 2 * passed < passed + failed {
        VoteType::Reject
    } else {
        VoteType::Abstain
    }
}

/// The vote for the given numbers of passed and failed checks (see `vote_of`).
pub fn decide_vote(passed: usize, failed: usize) -> (v: VoteType)
    ensures
        v == vote_of(passed as nat, failed as nat),
{
    if failed == 0 {
        VoteType::Approve
    } else if (2 * (passed as u128)) < (passed as u128) + (failed as u128) {
        VoteType::Reject
    } else {
        VoteType::Abstain
    }
}

/// The checks a node runs, in order.
pub open spec fn check_names() -> Seq<Seq<char>> {
    seq!["crypto_verification"@, "content_fingerprint"@, "temporal_plausibility"@, "source_reputation"@]
}

/// Which of the checks pass for `data` and `d` at time `now_us`, given
/// whether the source's reputation is sufficient.
pub open spec fn check_outcomes(data: Seq<u8>, d: DataDna, now_us: i64, reputation_ok: bool) -> Seq<bool> {
    seq![
        valid_at(d, now_us),
        d.fingerprint.blake3@ == blake3_digest(data),
        plausible(d.temporal.timestamp_us, now_us),
        reputation_ok,
    ]
}

/// The names among the first `n` whose outcome is `want`, in order.
pub open spec fn names_with(names: Seq<Seq<char>>, outcomes: Seq<bool>, want: bool, n: int) -> Seq<Seq<char>>
    decreases n,
{
    if n <= 0 {
        Seq::empty()
    } else if outcomes[n - 1] == want {
        names_with(names, outcomes, want, n - 1).push(names[n - 1])
    } else {
        names_with(names, outcomes, want, n - 1)
    }
}

/// The checks a node ran on a datum and the vote it casts.
#[derive(Debug, Clone)]
pub struct LocalVerdict {
    /// The vote.
    pub vote: VoteType,
    /// Names of the checks passed.
    pub checks_passed: Vec<String>,
    /// Names of the checks failed.
    pub checks_failed: Vec<String>,
}

fn push_check(passed: &mut Vec<String>, failed: &mut Vec<String>, ok: bool, name: &str)
    ensures
        ok ==> name_views(final(passed)@) == name_views(old(passed)@).push(name@) && final(failed)@ == old(failed)@,
        !ok ==> name_views(final(failed)@) == name_views(old(failed)@).push(name@) && final(passed)@ == old(passed)@,
{
    if ok {
        let ghost before = passed@;
        passed.push(String::from_str(name));
        assert(name_views(passed@) =~= name_views(before).push(name@));
    } else {
        let ghost before = failed@;
        failed.push(String::from_str(name));
        assert(name_views(failed@) =~= name_views(before).push(name@));
    }
}

/// The views of a list of names.
pub open spec fn name_views(v: Seq<String>) -> Seq<Seq<char>> {
    v.map_values(|s: String| s@)
}

/// Validates a datum locally at time `now_us`: the Data DNA's full check,
/// the content's digest, the plausibility of the timestamp and the source's
/// reputation (`reputation_ok`), each recorded as passed or failed, and the
/// vote they give (see `vote_of`).
pub fn local_verdict_at(data: &[u8], ddna: &DataDna, now_us: i64, reputation_ok: bool) -> (r: LocalVerdict)
    ensures
        name_views(r.checks_passed@) == names_with(check_names(), check_outcomes(data@, *ddna, now_us, reputation_ok), true, 4),
        name_views(r.checks_failed@) == names_with(check_names(), check_outcomes(data@, *ddna, now_us, reputation_ok), false, 4),
        r.vote == vote_of(r.checks_passed@.len(), r.checks_failed@.len()),
{
    let ghost outs = check_outcomes(data@, *ddna, now_us, reputation_ok);
    let ghost names = check_names();
    let mut passed: Vec<String> = Vec::new();
    let mut failed: Vec<String> = Vec::new();
    assert(name_views(passed@) =~= Seq::<Seq<char>>::empty());
    assert(name_views(failed@) =~= Seq::<Seq<char>>::empty());
    proof {
        reveal_with_fuel(names_with, 5);
    }
    let c1 = ddna.verify_at(now_us).is_ok();
    let c2 = ddna.verify_content(data).is_ok();
    let c3 = ddna.temporal.verify_at(now_us).is_ok();
    push_check(&mut passed, &mut failed, c1, "crypto_verification");
    assert(name_views(passed@) =~= names_with(names, outs, true, 1));
    assert(name_views(failed@) =~= names_with(names, outs, false, 1));
    push_check(&mut passed, &mut failed, c2, "content_fingerprint");
    assert(name_views(passed@) =~= names_with(names, outs, true, 2));
    assert(name_views(failed@) =~= names_with(names, outs, false, 2));
    push_check(&mut passed, &mut failed, c3, "temporal_plausibility");
    assert(name_views(passed@) =~= names_with(names, outs, true, 3));
    assert(name_views(failed@) =~= names_with(names, outs, false, 3));
    push_check(&mut passed, &mut failed, reputation_ok, "source_reputation");
    assert(name_views(passed@) =~= names_with(names, outs, true, 4));
    assert(name_views(failed@) =~= names_with(names, outs, false, 4));
    let vote = decide_vote(passed.len(), failed.len());
    LocalVerdict { vote, checks_passed: passed, checks_failed: failed }
}

/// A datum that passes every check is approved; one that fails three or
/// more of the four checks is rejected.
pub proof fn lemma_vote_extremes(passed: nat, failed: nat)
    ensures
        failed == 0 ==> vote_of(passed, failed) == VoteType::Approve,
        passed + failed == 4 && failed >= 3 ==> vote_of(passed, failed) == VoteType::Reject,
        passed + failed == 4 && failed > 0 && failed <= 2 ==> vote_of(passed, failed) == VoteType::Abstain,
{
}

/// The vote a peer reports by name: `approve`, `reject`, anything else
/// abstains.
pub fn parse_vote(s: &str) -> (v: VoteType)
    ensures
        s@ == "approve"@ ==> v == VoteType::Approve,
        s@ == "reject"@ ==> v == VoteType::Reject,
        s@ != "approve"@ && s@ != "reject"@ ==> v == VoteType::Abstain,
{
    proof {
        reveal_strlit("approve");
        reveal_strlit("reject");
        assert("approve"@[0] != "reject"@[0]);
    }
    if str_eq(s, "approve") {
        VoteType::Approve
    } else if str_eq(s, "reject") {
        VoteType::Reject
    } else {
        VoteType::Abstain
    }
}

/// Value of an ASCII hexadecimal digit (either case).
pub open spec fn hex_value(b: u8) -> Option<u8> {
    if 0x30 <= b <= 0x39 {
        Some((b - 0x30) as u8)
    } else if 0x61 <= b <= 0x66 {
        Some((b - 0x61 + 10) as u8)
    } else if 0x41 <= b <= 0x46 {
        Some((b - 0x41 + 10) as u8)
    } else {
        None
    }
}

/// The bytes that a hexadecimal text denotes: `None` for an odd length or a
/// character that is not a hex digit (`hex::decode`).
pub open spec fn hex_decoded(s: Seq<u8>) -> Option<Seq<u8>> {
    if s.len() % 2 != 0 || exists|i: int| 0 <= i < s.len() && (#[trigger] hex_value(s[i])) is None {
        None
    } else {
        Some(Seq::new(s.len() / 2, |i: int| (16 * hex_value(s[2 * i])->0 + hex_value(s[2 * i + 1])->0) as u8))
    }
}

fn hex_value_exec(b: u8) -> (r: Option<u8>)
    ensures
        r == hex_value(b),
{
    if 0x30 <= b && b <= 0x39 {
        Some(b - 0x30)
    } else if 0x61 <= b && b <= 0x66 {
        Some(b - 0x61 + 10)
    } else if 0x41 <= b && b <= 0x46 {
        Some(b - 0x41 + 10)
    } else {
        None
    }
}

/// Decodes a hexadecimal text (see `hex_decoded`).
pub fn hex_decode(s: &str) -> (r: Option<Vec<u8>>)
    ensures
        match hex_decoded(encode_utf8(s@)) {
            None => r is None,
            Some(v) => r matches Some(out) && out@ == v,
        },
{
    let b = s.as_bytes();
    assert(b@ == encode_utf8(s@));
    let n = b.len();
    if n % 2 != 0 {
        return None;
    }
    let mut out: Vec<u8> = Vec::new();
    let mut i: usize = 0;
    while i < n / 2
        invariant
            n == b@.len(),
            b@ == encode_utf8(s@),
            n % 2 == 0,
            i <= n / 2,
            forall|j: int| 0 <= j < 2 * i ==> (#[trigger] hex_value(b@[j])) is Some,
            out@ == Seq::new(i as nat, |k: int| (16 * hex_value(b@[2 * k])->0 + hex_value(b@[2 * k + 1])->0) as u8),
        decreases n / 2 - i,
    {
        let hi = match hex_value_exec(b[2 * i]) {
            Some(v) => v,
            None => {
                assert(hex_value(b@[2 * i as int]) is None);
                return None;
            },
        };
        let lo = match hex_value_exec(b[2 * i + 1]) {
            Some(v) => v,
            None => {
                assert(hex_value(b@[2 * i + 1]) is None);
                return None;
            },
        };
        out.push(16 * hi + lo);
        i = i + 1;
        assert(out@ =~= Seq::new(i as nat, |k: int| (16 * hex_value(b@[2 * k])->0 + hex_value(b@[2 * k + 1])->0) as u8));
    }
    assert(!exists|j: int| 0 <= j < b@.len() && (#[trigger] hex_value(b@[j])) is None) by {
        assert forall|j: int| 0 <= j < b@.len() implies (#[trigger] hex_value(b@[j])) is Some by {
            assert(j < 2 * i);
        }
    }
    Some(out)
}

/// A peer's node id from its hex form: the decoded bytes, at most the first
/// 32, over zeros; all zeros when the text does not decode.
pub fn node_id_from_hex(s: &str) -> (id: [u8; 32])
    ensures
        match hex_decoded(encode_utf8(s@)) {
            None => id@ == Seq::new(32, |i: int| 0u8),
            Some(v) => forall|i: int| 0 <= i < 32 ==> id@[i] == if i < v.len() { v[i] } else { 0u8 },
        },
{
    let mut id = [0u8; 32];
    match hex_decode(s) {
        None => {
            assert(id@ =~= Seq::new(32, |i: int| 0u8));
        },
        Some(bytes) => {
            let len = if bytes.len() < 32 { bytes.len() } else { 32 };
            let mut i: usize = 0;
            while i < len
                invariant
                    len <= 32,
                    len <= bytes@.len(),
                    len == bytes@.len() || len == 32,
                    i <= len,
                    forall|k: int| 0 <= k < i ==> id@[k] == bytes@[k],
                    forall|k: int| i <= k < 32 ==> id@[k] == 0u8,
                decreases len - i,
            {
                id.set(i, bytes[i]);
                i = i + 1;
            }
        },
    }
    id
}

} // verus!

verus! {

proof fn lemma_hex_lower_index(s: Seq<u8>)
    ensures
        hex_lower(s).len() == 2 * s.len(),
        forall|i: int|
            0 <= i < s.len() ==> hex_lower(s)[2 * i] == hex_digit(#[trigger] s[i] / 16) && hex_lower(s)[2 * i + 1]
                == hex_digit(s[i] % 16),
    decreases s.len(),
{
    if s.len() > 0 {
        let t = s.drop_last();
        lemma_hex_lower_index(t);
        assert forall|i: int| 0 <= i < s.len() implies hex_lower(s)[2 * i] == hex_digit(#[trigger] s[i] / 16)
            && hex_lower(s)[2 * i + 1] == hex_digit(s[i] % 16) by {
            if i < t.len() {
                assert(s[i] == t[i]);
            }
        }
    }
}

proof fn lemma_hex_digit_value(n: u8)
    requires
        n < 16,
    ensures
        '\0' <= hex_digit(n) <= '\u{7f}',
        hex_value(hex_digit(n) as u8) == Some(n),
{
    if n < 10 {
        assert(((n + 48) as char) as u8 == n + 48);
    } else {
        assert(((n + 87) as char) as u8 == n + 87);
    }
}

/// Decoding the lowercase hex form of bytes gives the bytes back; in
/// particular a node id sent as hex is read back as the same id.
pub proof fn lemma_hex_roundtrip(b: Seq<u8>)
    ensures
        hex_decoded(encode_utf8(hex_lower(b))) == Some(b),
{
    let h = hex_lower(b);
    lemma_hex_lower_index(b);
    assert forall|j: int| 0 <= j < h.len() implies '\0' <= #[trigger] h[j] <= '\u{7f}' && hex_value(h[j] as u8)
        is Some by {
        let i = j / 2;
        assert(0 <= i < b.len());
        lemma_hex_digit_value(b[i] / 16);
        lemma_hex_digit_value(b[i] % 16);
        if j % 2 == 0 {
            assert(j == 2 * i);
        } else {
            assert(j == 2 * i + 1);
        }
    }
    assert(vstd::utf8::is_ascii_chars(h));
    vstd::utf8::is_ascii_chars_encode_utf8(h);
    let e = encode_utf8(h);
    assert forall|j: int| 0 <= j < e.len() implies (#[trigger] hex_value(e[j])) is Some by {
        assert(e[j] == h[j] as u8);
    }
    assert(e.len() % 2 == 0);
    let d = Seq::new(e.len() / 2, |i: int| (16 * hex_value(e[2 * i])->0 + hex_value(e[2 * i + 1])->0) as u8);
    assert forall|i: int| 0 <= i < b.len() implies d[i] == b[i] by {
        lemma_hex_digit_value(b[i] / 16);
        lemma_hex_digit_value(b[i] % 16);
        assert(e[2 * i] == h[2 * i] as u8);
        assert(e[2 * i + 1] == h[2 * i + 1] as u8);
        assert(16 * (b[i] / 16) + b[i] % 16 == b[i]);
    }
    assert(d =~= b);
}

} // verus!
