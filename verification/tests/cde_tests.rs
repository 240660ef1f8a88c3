use varcavia::cde::claims::extract_claims;
use varcavia::cde::dedup::{check_exact_duplicate, compute_signature, hash_with_seed, signature_agreements, ExactDedupIndex};
use varcavia::cde::intake::{screen_and_register, screen_datum};
use varcavia::cde::overlap::{trigram_overlap, word_overlap};
use varcavia::cde::freshness::{is_fresh_at, is_newer, DEFAULT_FRESHNESS_WINDOW_US};
use varcavia::cde::normalize::{denormalize, detect_schema, normalize, VufSchema};
use varcavia::cde::validation::check_source_authenticity;
use varcavia::cde::CdeError;
use varcavia::ddna::identity::KeyPair;
use varcavia::ddna::DataDna;

#[test]
fn test_exact_dedup_empty() {
    let index = ExactDedupIndex::new();
    assert!(index.is_empty());
    let hash = [0u8; 32];
    assert!(check_exact_duplicate(&hash, &index).unwrap().is_none());
}

#[test]
fn test_exact_dedup_found() {
    let mut index = ExactDedupIndex::new();
    let hash = *blake3::hash(b"test data").as_bytes();
    index.insert(hash, "data-001".into());
    assert!(check_exact_duplicate(&hash, &index).is_err());
}

#[test]
fn test_exact_dedup_not_found() {
    let mut index = ExactDedupIndex::new();
    let hash1 = *blake3::hash(b"data A").as_bytes();
    let hash2 = *blake3::hash(b"data B").as_bytes();
    index.insert(hash1, "data-001".into());
    assert!(check_exact_duplicate(&hash2, &index).unwrap().is_none());
}

#[test]
fn duplicate_error_names_the_existing_datum_and_insert_replaces() {
    let mut index = ExactDedupIndex::new();
    index.insert([7u8; 32], "first".into());
    index.insert([7u8; 32], "second".into());
    assert_eq!(index.len(), 1);
    assert_eq!(index.check(&[7u8; 32]), Some("second"));
    match check_exact_duplicate(&[7u8; 32], &index) {
        Err(CdeError::DuplicateData(m)) => assert_eq!(m, "Duplicato esatto trovato: second"),
        other => panic!("unexpected {other:?}"),
    }
}

#[test]
fn test_minhash_deterministic() {
    let content = b"deterministic content for minhash";
    assert_eq!(compute_signature(64, content), compute_signature(64, content));
}

#[test]
fn minhash_of_short_content_is_all_max() {
    assert_eq!(compute_signature(3, b"abc"), vec![u32::MAX; 3]);
    let s = compute_signature(2, b"abcd");
    let shingle = u32::from_le_bytes(*b"abcd");
    assert_eq!(s, vec![hash_with_seed(shingle, 0), hash_with_seed(shingle, 1)]);
    assert_eq!(signature_agreements(&s, &s), 2);
    assert_eq!(signature_agreements(&s, &[1, 2, 3]), 0);
}

#[test]
fn seeded_hash_reference_value() {
    assert_eq!(hash_with_seed(0, 0), 0);
    assert_ne!(hash_with_seed(1, 0), hash_with_seed(1, 1));
}

#[test]
fn test_is_newer() {
    let kp = KeyPair::generate();
    let d1 = DataDna::create_at(b"first", &kp, 100, 100).unwrap();
    let d2 = DataDna::create_at(b"second", &kp, 200, 200).unwrap();
    assert!(is_newer(&d2, &d1));
    assert!(!is_newer(&d1, &d2));
}

#[test]
fn freshness_window_is_inclusive() {
    let kp = KeyPair::generate();
    let d = DataDna::create_at(b"x", &kp, 0, 0).unwrap();
    assert!(is_fresh_at(&d, DEFAULT_FRESHNESS_WINDOW_US, DEFAULT_FRESHNESS_WINDOW_US));
    assert!(!is_fresh_at(&d, DEFAULT_FRESHNESS_WINDOW_US, DEFAULT_FRESHNESS_WINDOW_US + 1));
}

#[test]
fn test_normalize_json() {
    let json = br#"{"temp": 22, "city": "Roma"}"#;
    let record = normalize(json, "climate").unwrap();
    assert_eq!(record.schema, VufSchema::Json);
    assert_eq!(record.domain, "climate");
    assert_eq!(record.original_size, json.len() as u64);
}

#[test]
fn test_normalize_text() {
    let record = normalize(b"Just some plain text", "general").unwrap();
    assert_eq!(record.schema, VufSchema::PlainText);
}

#[test]
fn test_normalize_csv() {
    let record = normalize(b"a,b,c\n1,2,3\n4,5,6", "data").unwrap();
    assert_eq!(record.schema, VufSchema::Tabular);
}

#[test]
fn test_roundtrip() {
    let original = b"data that will be normalized and restored";
    let record = normalize(original, "test").unwrap();
    let restored = denormalize(&record).unwrap();
    assert_eq!(original.to_vec(), restored);
}

#[test]
fn test_binary_detection() {
    assert_eq!(detect_schema(&[0xFF, 0xFE, 0x00, 0x80]), VufSchema::Binary);
}

#[test]
fn uneven_columns_are_plain_text() {
    assert_eq!(detect_schema(b"a,b\n1,2,3"), VufSchema::PlainText);
    assert_eq!(detect_schema(b"only,one line"), VufSchema::PlainText);
}

#[test]
fn test_valid_source() {
    let kp = KeyPair::generate();
    let data = b"valid data";
    let ddna = DataDna::create(data, &kp).unwrap();
    assert!(check_source_authenticity(data, &ddna).is_ok());
}

#[test]
fn test_tampered_content_fails() {
    let kp = KeyPair::generate();
    let ddna = DataDna::create(b"original", &kp).unwrap();
    match check_source_authenticity(b"tampered", &ddna) {
        Err(CdeError::SourceValidationFailed(m)) => assert_eq!(m, "Contenuto non corrisponde al fingerprint"),
        other => panic!("unexpected {other:?}"),
    }
}

#[test]
fn test_extract_claims() {
    let text = "Earth is the third planet from the Sun. It has a radius of 6371 km. The sky is blue. Water has a boiling point of 100 degrees Celsius. Hi.";
    let claims = extract_claims(text);
    assert!(claims.len() >= 2);
    assert!(claims.iter().any(|c| c.contains("Earth")));
    assert!(claims.iter().any(|c| c.contains("100")));
}

#[test]
fn test_extract_claims_empty() {
    let claims = extract_claims("hello world");
    assert!(claims.is_empty());
}

#[test]
fn claims_are_exact_and_not_repeated() {
    let claims = extract_claims("Earth is the third planet from the Sun! Earth is the third planet from the Sun? The sky is blue.");
    assert_eq!(claims, vec!["Earth is the third planet from the Sun.".to_string()]);
}

#[test]
fn test_lsh_short_content() {
    let sig = compute_signature(64, b"ab");
    assert_eq!(sig.len(), 64);
}

#[test]
fn test_compression_reduces_size() {
    let big_data = "repeated content for compression test ".repeat(100);
    let record = normalize(big_data.as_bytes(), "test").unwrap();
    assert!(record.payload.len() < record.original_size as usize);
}

#[test]
fn engine_error_messages() {
    assert_eq!(CdeError::DuplicateData("d".to_string()).to_string(), "Dato duplicato: d");
    assert_eq!(CdeError::SourceValidationFailed("v".to_string()).to_string(), "Validazione fonte fallita: v");
    assert_eq!(CdeError::NormalizationFailed("n".to_string()).to_string(), "Normalizzazione fallita: n");
    assert_eq!(CdeError::AiAgentError("a".to_string()).to_string(), "Errore AI agent: a");
}

#[test]
fn screening_refuses_duplicates_then_forgeries() {
    let kp = KeyPair::generate();
    let data = b"Water boils at 100 degrees Celsius at sea level";
    let ddna = DataDna::create(data, &kp).unwrap();
    let mut index = ExactDedupIndex::new();
    let rec = screen_datum(&index, data, &ddna, "science").unwrap();
    assert_eq!(rec.domain, "science");
    assert_eq!(rec.original_size, data.len() as u64);
    match screen_datum(&index, b"something else", &ddna, "science") {
        Err(CdeError::SourceValidationFailed(m)) => assert_eq!(m, "Contenuto non corrisponde al fingerprint"),
        other => panic!("unexpected {other:?}"),
    }
    index.insert(ddna.fingerprint.blake3, ddna.id());
    match screen_datum(&index, data, &ddna, "science") {
        Err(CdeError::DuplicateData(m)) => assert_eq!(m, format!("Duplicato esatto: {}", ddna.id())),
        other => panic!("unexpected {other:?}"),
    }
}

#[test]
fn trigram_overlap_counts_distinct_trigrams() {
    assert_eq!(trigram_overlap("abcd", "bcde"), (1, 3));
    assert_eq!(trigram_overlap("ABC", "abc"), (1, 1));
    assert_eq!(trigram_overlap("ab", "ab"), (1, 1));
    assert_eq!(trigram_overlap("ab", "abc"), (0, 2));
    assert_eq!(trigram_overlap("", ""), (0, 0));
    assert_eq!(trigram_overlap("aaaa", "aaa"), (1, 1));
    assert_eq!(trigram_overlap("Earth radius", "Earth has a radius of 6371 km"), (9, 28));
}

#[test]
fn word_overlap_counts_distinct_words() {
    let w = |v: &[&str]| v.iter().map(|s| s.to_string()).collect::<Vec<String>>();
    assert_eq!(word_overlap(&w(&["a", "b", "b"]), &w(&["b", "c"])), (1, 3));
    assert_eq!(word_overlap(&w(&[]), &w(&[])), (0, 0));
    assert_eq!(word_overlap(&w(&["x"]), &w(&["x", "x"])), (1, 1));
}

#[test]
fn accepted_datum_is_registered_and_then_refused() {
    let kp = KeyPair::from_bytes(&[7u8; 32]);
    let data = b"The Moon orbits Earth at 384400 km";
    let ddna = DataDna::create(data, &kp).unwrap();
    let mut index = ExactDedupIndex::new();
    assert!(screen_and_register(&mut index, b"forged", &ddna, "science").is_err());
    assert_eq!(index.len(), 0);
    assert!(screen_and_register(&mut index, data, &ddna, "science").is_ok());
    assert_eq!(index.len(), 1);
    assert_eq!(index.check(&ddna.fingerprint.blake3), Some(ddna.id().as_str()));
    match screen_and_register(&mut index, data, &ddna, "science") {
        Err(CdeError::DuplicateData(m)) => assert_eq!(m, format!("Duplicato esatto: {}", ddna.id())),
        other => panic!("unexpected {other:?}"),
    }
    assert_eq!(index.len(), 1);
}
