use varcavia::uag::keyword_match::{
    extract_keywords, normalize_units, number_tokens, Magnitude,
};
use varcavia::uag::middleware::{ApiError, RateLimiter};
use varcavia::uag::api::unimplemented_query_error;
use varcavia::uag::format::{make_key, PREFIX_CONSENSUS, PREFIX_DATA, PREFIX_DDNA, PREFIX_INFO};
use varcavia::uag::trust::{
    attested_record, compute_independence_tenths, compute_tier, tier_label, Attestation, Contradiction, SourceTier,
    TrustRecord, VeritTier,
};
use varcavia::uag::middleware::api_key_allows;
use varcavia::uag::UagError;
use varcavia::ddna::identity::KeyPair;
use varcavia::ddna::DataDna;
use varcavia::uag::api::verify_response;
use varcavia::uag::subject_number::try_subject_and_number;

#[test]
fn test_extract_keywords_strips_stop_words() {
    let kw = extract_keywords("The diameter of Earth is 12,742 kilometres");
    assert!(kw.contains(&"diameter".to_string()));
    assert!(kw.contains(&"earth".to_string()));
    assert!(!kw.contains(&"the".to_string()));
    assert!(!kw.contains(&"of".to_string()));
    assert!(!kw.contains(&"is".to_string()));
}

#[test]
fn test_extract_keywords_lowercase() {
    let kw = extract_keywords("NASA confirmed the discovery");
    assert!(kw.contains(&"nasa".to_string()));
    assert!(kw.contains(&"confirmed".to_string()));
    assert!(kw.contains(&"discovery".to_string()));
}

#[test]
fn keywords_are_exact_and_ordered() {
    let kw = extract_keywords("Water boils at 100 degrees Celsius, roughly.");
    assert_eq!(kw, vec!["water".to_string(), "boils".to_string(), "celsius".to_string()]);
    assert_eq!(extract_keywords("sq_km of land"), vec!["sq_km".to_string(), "land".to_string()]);
}

#[test]
fn test_normalize_units_km() {
    assert!(normalize_units("12742 kilometres").contains("km"));
    assert!(normalize_units("12742 kilometers").contains("km"));
}

#[test]
fn test_normalize_units_celsius() {
    assert!(normalize_units("100 degrees celsius").contains("celsius"));
    assert!(normalize_units("100 °C").contains("celsius"));
}

#[test]
fn test_normalize_units_ms() {
    assert!(normalize_units("metres per second").contains("m/s"));
}

#[test]
fn normalize_units_replaces_whole_words_only() {
    assert_eq!(normalize_units("12742 Kilometres"), "12742 km");
    assert_eq!(normalize_units("parameters and meters"), "parameters and m");
    assert_eq!(normalize_units("643,801 square kilometres"), "643,801 sq_km");
    assert_eq!(normalize_units("5 per cent"), "5 percent");
}

#[test]
fn a_unit_inside_a_word_is_left_as_is() {
    assert_eq!(normalize_units("x°c"), "x°c");
    assert_eq!(normalize_units("x°cy and 5 °c"), "x°cy and 5 celsius");
    assert_eq!(extract_keywords("x°cy"), vec!["cy".to_string()]);
    assert_eq!(normalize_units("20 °F"), "20 fahrenheit");
}

#[test]
fn test_not_found_error() {
    let err = ApiError::not_found("test");
    assert_eq!(err.code, 404);
}

#[test]
fn test_bad_request_error() {
    let err = ApiError::bad_request("invalid input");
    assert_eq!(err.code, 400);
}

#[test]
fn test_internal_error() {
    let err = ApiError::internal("something went wrong");
    assert_eq!(err.code, 500);
}

#[test]
fn test_unauthorized() {
    let err = ApiError::unauthorized();
    assert_eq!(err.code, 401);
}

#[test]
fn test_rate_limited() {
    let err = ApiError::rate_limited();
    assert_eq!(err.code, 429);
}

#[test]
fn api_error_messages() {
    assert_eq!(ApiError::not_found("missing").error, "missing");
    assert_eq!(ApiError::unauthorized().error, "Autenticazione richiesta");
    assert_eq!(ApiError::rate_limited().error, "Rate limit superato (max 100 req/s)");
}

#[test]
fn test_rate_limiter_allows_under_limit() {
    let mut limiter = RateLimiter::new(100);
    for _ in 0..100 {
        assert!(limiter.check());
    }
}

#[test]
fn test_rate_limiter_blocks_over_limit() {
    let mut limiter = RateLimiter::new(5);
    for _ in 0..5 {
        assert!(limiter.check());
    }
    assert!(!limiter.check());
}

#[test]
fn test_rate_limiter_resets_on_new_second() {
    let mut limiter = RateLimiter::new(2);
    assert!(limiter.check());
    assert!(limiter.check());
    assert!(!limiter.check());
    limiter.current_sec = 0;
    assert!(limiter.check());
}

#[test]
fn burst_in_one_second_admits_exactly_the_limit() {
    let mut limiter = RateLimiter::new(3);
    let allowed = (0..10).filter(|_| limiter.check_at(42)).count();
    assert_eq!(allowed, 3);
    let mut zero = RateLimiter::new(0);
    let allowed = (0..4).filter(|_| zero.check_at(7)).count();
    assert_eq!(allowed, 0);
    assert!(!zero.check_at(8));
}

fn attest(domain: &str, tier: SourceTier) -> Attestation {
    Attestation { source_pubkey: "test".into(), domain: domain.into(), source_tier: tier, timestamp_us: 0 }
}

const NOW: i64 = 1_700_000_000_000_000;

#[test]
fn test_t0_empty() {
    let r = TrustRecord::new(NOW);
    assert_eq!(compute_tier(&r, NOW), VeritTier::T0);
}

#[test]
fn test_t0_low_weight() {
    let mut r = TrustRecord::new(NOW);
    r.attestations.push(attest("test", SourceTier::Anonymous));
    assert_eq!(compute_tier(&r, NOW), VeritTier::T0);
}

#[test]
fn test_t1_single_website() {
    let mut r = TrustRecord::new(NOW);
    r.attestations.push(attest("science", SourceTier::Website));
    assert_eq!(compute_tier(&r, NOW), VeritTier::T1);
}

#[test]
fn test_t1_single_peer_reviewed() {
    let mut r = TrustRecord::new(NOW);
    r.attestations.push(attest("science", SourceTier::PeerReviewed));
    assert_eq!(compute_tier(&r, NOW), VeritTier::T1);
}

#[test]
fn test_t2_multi_domain() {
    let mut r = TrustRecord::new(NOW);
    r.attestations.push(attest("science", SourceTier::PeerReviewed));
    r.attestations.push(attest("geography", SourceTier::Website));
    assert_eq!(compute_tier(&r, NOW), VeritTier::T2);
}

#[test]
fn test_t2_not_enough_domains() {
    let mut r = TrustRecord::new(NOW);
    r.attestations.push(attest("science", SourceTier::PeerReviewed));
    r.attestations.push(attest("science", SourceTier::Website));
    assert_eq!(compute_tier(&r, NOW), VeritTier::T1);
}

#[test]
fn test_t3_institutional() {
    let mut r = TrustRecord::new(NOW);
    r.attestations.push(attest("science", SourceTier::Institutional));
    r.attestations.push(attest("geography", SourceTier::PeerReviewed));
    assert_eq!(compute_tier(&r, NOW), VeritTier::T3);
}

#[test]
fn test_t4_full() {
    let old = NOW - 8 * 86400 * 1_000_000;
    let mut r = TrustRecord::new(old);
    for i in 0..5 {
        r.attestations.push(attest(&format!("d{i}"), SourceTier::Institutional));
    }
    assert_eq!(compute_tier(&r, NOW), VeritTier::T4);
}

#[test]
fn test_t4_blocked_by_contradiction() {
    let old = NOW - 8 * 86400 * 1_000_000;
    let mut r = TrustRecord::new(old);
    for i in 0..5 {
        r.attestations.push(attest(&format!("d{i}"), SourceTier::Institutional));
    }
    r.contradictions.push(Contradiction {
        conflicting_fact_id: "x".into(),
        description: "conflict".into(),
        source_pubkey: "y".into(),
        timestamp_us: NOW,
    });
    assert_eq!(compute_tier(&r, NOW), VeritTier::T3);
}

#[test]
fn test_t4_blocked_by_age() {
    let recent = NOW - 86400 * 1_000_000;
    let mut r = TrustRecord::new(recent);
    for i in 0..5 {
        r.attestations.push(attest(&format!("d{i}"), SourceTier::Institutional));
    }
    assert_eq!(compute_tier(&r, NOW), VeritTier::T3);
}

#[test]
fn test_authority_score() {
    let mut r = TrustRecord::new(NOW);
    r.attestations.push(attest("a", SourceTier::Institutional));
    r.attestations.push(attest("b", SourceTier::PeerReviewed));
    r.attestations.push(attest("c", SourceTier::Anonymous));
    assert_eq!(r.authority_halves(), 31);
}

#[test]
fn test_source_tier_from_str() {
    assert_eq!(SourceTier::from_str_loose("institutional"), SourceTier::Institutional);
    assert_eq!(SourceTier::from_str_loose("peer_reviewed"), SourceTier::PeerReviewed);
    assert_eq!(SourceTier::from_str_loose("media"), SourceTier::MainstreamMedia);
    assert_eq!(SourceTier::from_str_loose("garbage"), SourceTier::Anonymous);
}

#[test]
fn test_display() {
    assert_eq!(VeritTier::T0.to_string(), "T0");
    assert_eq!(VeritTier::T4.to_string(), "T4");
}

#[test]
fn test_query_count_starts_zero() {
    let r = TrustRecord::new(NOW);
    assert_eq!(r.query_count, 0);
}

#[test]
fn test_independence_empty() {
    assert_eq!(compute_independence_tenths(&[]), 0);
}

#[test]
fn test_independence_single() {
    let a = vec![attest("science", SourceTier::PeerReviewed)];
    assert_eq!(compute_independence_tenths(&a), 10);
}

#[test]
fn test_independence_same_domain() {
    let a = vec![attest("science", SourceTier::PeerReviewed), attest("science", SourceTier::Website)];
    assert_eq!(compute_independence_tenths(&a), 13);
}

#[test]
fn test_independence_different_domains() {
    let a = vec![attest("science", SourceTier::PeerReviewed), attest("geography", SourceTier::Website)];
    assert_eq!(compute_independence_tenths(&a), 20);
}

#[test]
fn test_independence_mixed() {
    let a = vec![
        attest("science", SourceTier::Institutional),
        attest("science", SourceTier::PeerReviewed),
        attest("geography", SourceTier::Website),
    ];
    assert_eq!(compute_independence_tenths(&a), 23);
}

#[test]
fn test_source_breakdown() {
    let mut r = TrustRecord::new(NOW);
    r.attestations.push(attest("a", SourceTier::Institutional));
    r.attestations.push(attest("b", SourceTier::PeerReviewed));
    r.attestations.push(attest("c", SourceTier::PeerReviewed));
    r.attestations.push(attest("d", SourceTier::Website));
    let b = r.source_breakdown();
    assert_eq!(b.institutional, 1);
    assert_eq!(b.peer_reviewed, 2);
    assert_eq!(b.website, 1);
    assert_eq!(b.anonymous, 0);
}

#[test]
fn test_tier_labels() {
    assert_eq!(tier_label(&VeritTier::T0), "Unattested");
    assert_eq!(tier_label(&VeritTier::T1), "Attested");
    assert_eq!(tier_label(&VeritTier::T2), "Corroborated");
    assert_eq!(tier_label(&VeritTier::T3), "Authoritative");
    assert_eq!(tier_label(&VeritTier::T4), "Canonical");
}

fn rank(t: VeritTier) -> u8 {
    match t {
        VeritTier::T0 => 0,
        VeritTier::T1 => 1,
        VeritTier::T2 => 2,
        VeritTier::T3 => 3,
        VeritTier::T4 => 4,
    }
}

#[test]
fn test_t3_just_enough() {
    let mut r = TrustRecord::new(NOW);
    r.attestations.push(attest("science", SourceTier::Institutional));
    r.attestations.push(attest("geo", SourceTier::PeerReviewed));
    assert_eq!(compute_tier(&r, NOW), VeritTier::T3);
}

#[test]
fn adding_an_attestation_never_lowers_the_tier() {
    let mut r = TrustRecord::new(NOW - 8 * 86400 * 1_000_000);
    let mut last = compute_tier(&r, NOW);
    for (i, t) in [SourceTier::Website, SourceTier::PeerReviewed, SourceTier::Institutional, SourceTier::Institutional,
        SourceTier::Institutional, SourceTier::Institutional, SourceTier::Institutional].iter().enumerate() {
        r.attestations.push(attest(&format!("d{i}"), *t));
        let now_tier = compute_tier(&r, NOW);
        assert!(rank(now_tier) >= rank(last));
        last = now_tier;
    }
    assert_eq!(last, VeritTier::T4);
}

fn attestation_from(source: &str, domain: &str, tier: SourceTier, at: i64) -> Attestation {
    Attestation { source_pubkey: source.to_string(), domain: domain.to_string(), source_tier: tier, timestamp_us: at }
}

#[test]
fn a_new_source_is_recorded_once() {
    let now = 1_000_000i64;
    let mut r = attested_record(attestation_from("node-a", "science", SourceTier::PeerReviewed, now), now);
    assert_eq!(r.attestations.len(), 1);
    assert_eq!(r.tier, VeritTier::T1);
    assert_eq!((r.first_seen_us, r.last_updated_us, r.query_count), (now, now, 0));
    let later = now + 5;
    assert!(!r.attest_new_source(attestation_from("node-a", "history", SourceTier::Institutional, later), later));
    assert_eq!(r.attestations.len(), 1);
    assert_eq!(r.last_updated_us, now);
    assert!(r.attest_new_source(attestation_from("wikipedia:Earth", "science", SourceTier::Website, later), later));
    assert_eq!(r.attestations.len(), 2);
    assert_eq!(r.attestations[1].source_pubkey, "wikipedia:Earth");
    assert_eq!(r.last_updated_us, later);
    assert_eq!(r.tier, compute_tier(&r, later));
}

#[test]
fn storage_keys_are_prefix_then_id() {
    assert_eq!(make_key(&PREFIX_DATA, "abc"), b"d:abc".to_vec());
    assert_eq!(make_key(&PREFIX_DDNA, "abc"), b"n:abc".to_vec());
    assert_eq!(make_key(&PREFIX_INFO, "é"), vec![b'i', b':', 0xc3, 0xa9]);
    assert_eq!(make_key(&PREFIX_CONSENSUS, ""), b"c:".to_vec());
}

#[test]
fn graphql_queries_are_answered_with_an_error() {
    let e = unimplemented_query_error("{ node { status } }");
    assert_eq!(e.message, "GraphQL non ancora implementato. Query ricevuta: { node { status } }");
}

#[test]
fn api_key_check() {
    assert!(api_key_allows(None, "POST", None));
    assert!(api_key_allows(Some(""), "POST", None));
    assert!(api_key_allows(Some("k1"), "GET", None));
    assert!(api_key_allows(Some("k1"), "OPTIONS", Some("wrong")));
    assert!(api_key_allows(Some("k1"), "POST", Some("k1")));
    assert!(!api_key_allows(Some("k1"), "POST", Some("k2")));
    assert!(!api_key_allows(Some("k1"), "DELETE", None));
    assert!(!api_key_allows(Some("k1"), "get", None));
}

#[test]
fn gateway_error_messages() {
    assert_eq!(UagError::UnsupportedFormat("yaml → toml".to_string()).to_string(), "Formato non supportato: yaml → toml");
    assert_eq!(UagError::TranslationFailed("x".to_string()).to_string(), "Traduzione fallita: x");
    assert_eq!(UagError::AuthRequired.to_string(), "Autenticazione richiesta");
    assert_eq!(UagError::RateLimitExceeded.to_string(), "Rate limit superato");
}

#[test]
fn verification_answers() {
    let kp = KeyPair::generate();
    let ddna = DataDna::create(b"Roma: temperatura 25C", &kp).unwrap();
    let r = verify_response("id1".to_string(), &ddna, Some("Roma: temperatura 25C"));
    assert_eq!((r.id.as_str(), r.verified, r.details.as_str()), ("id1", true, "Contenuto verificato: fingerprint corrisponde"));
    let r = verify_response("id1".to_string(), &ddna, Some("Milano"));
    assert_eq!((r.verified, r.details.as_str()), (false, "Contenuto non corrisponde al fingerprint"));
    let r = verify_response("id2".to_string(), &ddna, None);
    assert_eq!((r.id.as_str(), r.verified, r.details.as_str()), ("id2", true, "dDNA integro: firma e catena valide"));
    let mut broken = ddna.clone();
    broken.integrity_hash[0] ^= 1;
    let r = verify_response("id3".to_string(), &broken, None);
    assert_eq!((r.verified, r.details.as_str()), (false, "Verifica dDNA fallita"));
}

#[test]
fn test_make_key() {
    let key = make_key(&PREFIX_DATA, "abc123");
    assert_eq!(&key[..2], b"d:");
    assert_eq!(&key[2..], b"abc123");
}

#[test]
fn written_numbers_with_magnitudes() {
    let toks = |t: &str| number_tokens(t).into_iter().map(|(d, m)| (d, m)).collect::<Vec<(String, Magnitude)>>();
    assert_eq!(toks("France has a population of 67,750,000"), vec![("67750000".to_string(), Magnitude::One)]);
    assert_eq!(toks("About 8.1 Billion people"), vec![("8.1".to_string(), Magnitude::Billion)]);
    assert_eq!(
        toks("2 million and 3   thousand, 1.2.3 trillionaire"),
        vec![
            ("2".to_string(), Magnitude::Million),
            ("3".to_string(), Magnitude::Thousand),
            ("1.2.3".to_string(), Magnitude::Trillion),
        ]
    );
    assert_eq!(toks("no digits here"), vec![]);
    assert_eq!(toks(".5 and 7"), vec![("5".to_string(), Magnitude::One), ("7".to_string(), Magnitude::One)]);
}

fn subject_number(fact: &str) -> Option<(String, f64)> {
    match try_subject_and_number(fact) {
        None => panic!("cut inside a character"),
        Some(None) => None,
        Some(Some((s, n))) => n.parse::<f64>().ok().map(|x| (s, x)),
    }
}

#[test]
fn test_extract_subject_number_basic() {
    let (subj, num) = subject_number("Earth has a diameter of 12742 km").unwrap();
    assert_eq!(subj, "earth");
    assert!((num - 12742.0).abs() < 0.01);
}

#[test]
fn test_extract_subject_number_is() {
    let (subj, num) = subject_number("The speed of light is 299792458 m/s").unwrap();
    assert!(subj.contains("speed of light"));
    assert!((num - 299792458.0).abs() < 1.0);
}

#[test]
fn test_extract_subject_number_with_comma() {
    let (_, num) = subject_number("France has a population of 67,750,000").unwrap();
    assert!((num - 67750000.0).abs() < 1.0);
}

#[test]
fn test_extract_subject_number_none() {
    assert!(subject_number("Hello world").is_none());
    assert!(subject_number("The sky is blue").is_none());
}

#[test]
fn test_extract_subject_number_the_prefix() {
    let (subj, _) = subject_number("The Moon is 384400 km from Earth").unwrap();
    assert_eq!(subj, "moon");
}

#[test]
fn subject_and_number_texts_are_exact() {
    assert_eq!(
        try_subject_and_number("France has a population of 67,750,000 people"),
        Some(Some(("france".to_string(), "67750000".to_string())))
    );
    assert_eq!(
        try_subject_and_number("An apple has 95 kcal"),
        Some(Some(("apple".to_string(), "95".to_string())))
    );
    assert_eq!(try_subject_and_number("Ox is 5 m"), Some(None));
    assert_eq!(
        try_subject_and_number("Pie is 3.14.15 roughly"),
        Some(Some(("pie".to_string(), "3.14.15".to_string())))
    );
}

#[test]
fn lowercase_tier_names_are_read_exactly() {
    assert_eq!(SourceTier::from_lowercase("peerreviewed"), SourceTier::PeerReviewed);
    assert_eq!(SourceTier::from_lowercase("web"), SourceTier::Website);
    assert_eq!(SourceTier::from_lowercase("Web"), SourceTier::Anonymous);
    assert_eq!(SourceTier::from_str_loose("Web"), SourceTier::Website);
}
