use varcavia::ddna::custody::{verify_chain, CustodyAction, CustodyEntry};
use varcavia::ddna::fingerprint::ContentFingerprint;
use varcavia::ddna::identity::{IdentityType, KeyPair, SourceIdentity, DEFAULT_REPUTATION_BITS};
use varcavia::ddna::integrity::compute_integrity_hash;
use varcavia::ddna::semantic::SemanticVector;
use varcavia::ddna::temporal::{ClockSource, TemporalProof};
use varcavia::ddna::{DataDna, DdnaError, DDNA_VERSION};

fn now_us() -> i64 {
    chrono::Utc::now().timestamp_micros()
}

#[test]
fn test_empty_chain_fails() {
    assert!(verify_chain(&[]).is_err());
}

#[test]
fn test_create_entry() {
    let kp = KeyPair::generate();
    let node_id = kp.public_key_bytes();
    let entry = CustodyEntry::new_creation(&node_id, &kp).unwrap();
    assert_eq!(entry.action, CustodyAction::Created);
}

#[test]
fn test_verify_chain() {
    let kp = KeyPair::generate();
    let node_id = kp.public_key_bytes();
    let entry = CustodyEntry::new_creation(&node_id, &kp).unwrap();
    assert!(verify_chain(&[entry]).is_ok());
}

#[test]
fn test_non_created_first_entry_fails() {
    let kp = KeyPair::generate();
    let node_id = kp.public_key_bytes();
    let entry = CustodyEntry::new(&node_id, CustodyAction::Received, &kp).unwrap();
    assert!(verify_chain(&[entry]).is_err());
}

#[test]
fn test_multi_entry_chain() {
    let kp = KeyPair::generate();
    let node_id = kp.public_key_bytes();
    let e1 = CustodyEntry::new_creation(&node_id, &kp).unwrap();
    let e2 = CustodyEntry::new(&node_id, CustodyAction::Validated, &kp).unwrap();
    assert!(verify_chain(&[e1, e2]).is_ok());
}

#[test]
fn test_all_action_types() {
    let kp = KeyPair::generate();
    let node_id = kp.public_key_bytes();
    for action in [CustodyAction::Created, CustodyAction::Received, CustodyAction::Validated, CustodyAction::Forwarded] {
        let entry = CustodyEntry::new(&node_id, action, &kp).unwrap();
        assert_eq!(entry.node_id, node_id);
    }
}

#[test]
fn chain_with_decreasing_timestamps_is_rejected_with_its_message() {
    let kp = KeyPair::generate();
    let node_id = kp.public_key_bytes();
    let e1 = CustodyEntry::new_at(&node_id, CustodyAction::Created, &kp, 2_000).unwrap();
    let e2 = CustodyEntry::new_at(&node_id, CustodyAction::Received, &kp, 1_000).unwrap();
    match verify_chain(&[e1, e2]) {
        Err(DdnaError::InvalidCustody(m)) => assert_eq!(m, "Timestamp non monotono nella catena"),
        other => panic!("unexpected {other:?}"),
    }
    match verify_chain(&[]) {
        Err(DdnaError::InvalidCustody(m)) => assert_eq!(m, "Catena vuota"),
        other => panic!("unexpected {other:?}"),
    }
}

#[test]
fn test_deterministic() {
    let data = b"test content for fingerprint";
    let fp1 = ContentFingerprint::compute(data);
    let fp2 = ContentFingerprint::compute(data);
    assert_eq!(fp1, fp2);
}

#[test]
fn test_different_content() {
    let fp1 = ContentFingerprint::compute(b"content A");
    let fp2 = ContentFingerprint::compute(b"content B");
    assert_ne!(fp1.blake3, fp2.blake3);
    assert_ne!(fp1.sha3_512, fp2.sha3_512);
}

#[test]
fn test_matches() {
    let data = b"verify me";
    let fp = ContentFingerprint::compute(data);
    assert!(fp.matches(data));
    assert!(!fp.matches(b"wrong data"));
}

#[test]
fn test_content_size() {
    let data = b"12345";
    let fp = ContentFingerprint::compute(data);
    assert_eq!(fp.content_size, 5);
}

#[test]
fn fingerprint_digests_are_the_reference_values() {
    let fp = ContentFingerprint::compute(b"abc");
    assert_eq!(fp.id_hex(), "6437b3ac38465133ffb63b75273a8db548c558465d79db03fd359c6cd5bd9d85");
    assert_eq!(fp.sha3_512[0], 0xb7);
    assert_eq!(fp.sha3_512[63], 0xf0);
}

#[test]
fn test_keypair_generation() {
    let kp = KeyPair::generate();
    let pubkey = kp.public_key_bytes();
    assert_eq!(pubkey.len(), 32);
}

#[test]
fn test_sign_and_verify() {
    let kp = KeyPair::generate();
    let fp = ContentFingerprint::compute(b"test data");
    let source = SourceIdentity::sign(&fp, &kp).unwrap();
    assert!(source.verify(&fp).unwrap());
}

#[test]
fn test_wrong_key_fails() {
    let kp1 = KeyPair::generate();
    let kp2 = KeyPair::generate();
    let fp = ContentFingerprint::compute(b"test data");
    let source = SourceIdentity::sign(&fp, &kp1).unwrap();
    let mut wrong_source = source;
    wrong_source.public_key = kp2.public_key_bytes();
    assert!(wrong_source.verify(&fp).is_err());
}

#[test]
fn test_keypair_roundtrip() {
    let kp = KeyPair::generate();
    let secret = kp.secret_bytes();
    let kp2 = KeyPair::from_bytes(&secret);
    assert_eq!(kp.public_key_bytes(), kp2.public_key_bytes());
}

#[test]
fn test_wrong_fingerprint_fails() {
    let kp = KeyPair::generate();
    let fp1 = ContentFingerprint::compute(b"data A");
    let fp2 = ContentFingerprint::compute(b"data B");
    let source = SourceIdentity::sign(&fp1, &kp).unwrap();
    assert!(source.verify(&fp2).is_err());
}

#[test]
fn test_default_reputation() {
    let kp = KeyPair::generate();
    let fp = ContentFingerprint::compute(b"test");
    let source = SourceIdentity::sign(&fp, &kp).unwrap();
    assert_eq!(f32::from_bits(source.reputation_bits), 0.5);
    assert_eq!(source.reputation_bits, DEFAULT_REPUTATION_BITS);
    assert_eq!(source.identity_type, IdentityType::Pseudonymous);
}

#[test]
fn known_secret_gives_known_public_key() {
    let secret = [0u8; 32];
    let kp = KeyPair::from_bytes(&secret);
    let public = kp.public_key_bytes();
    assert_eq!(public[0], 0x3b);
    assert_eq!(public[1], 0x6a);
    let sig = kp.sign(b"message");
    assert_ne!(sig, [0u8; 64]);
}

#[test]
fn test_now() {
    let tp = TemporalProof::now();
    assert!(tp.timestamp_us > 0);
    assert!(tp.verify().unwrap());
}

#[test]
fn test_future_timestamp_fails() {
    let tp = TemporalProof { timestamp_us: now_us() + 120_000_000, source_clock: ClockSource::System, precision_us: 1_000 };
    assert!(tp.verify().is_err());
}

#[test]
fn test_old_timestamp_fails() {
    let tp = TemporalProof {
        timestamp_us: now_us() - 48 * 3600 * 1_000_000,
        source_clock: ClockSource::System,
        precision_us: 1_000,
    };
    assert!(tp.verify().is_err());
}

#[test]
fn test_with_timestamp() {
    let ts = now_us();
    let tp = TemporalProof::with_timestamp(ts, ClockSource::Ntp, 100);
    assert_eq!(tp.timestamp_us, ts);
    assert_eq!(tp.source_clock, ClockSource::Ntp);
    assert_eq!(tp.precision_us, 100);
}

#[test]
fn test_clock_source_variants() {
    for source in [ClockSource::System, ClockSource::Ntp, ClockSource::Gps] {
        let tp = TemporalProof::with_timestamp(now_us(), source.clone(), 1_000);
        assert!(tp.verify().is_ok());
    }
}

#[test]
fn timestamp_bounds_are_exact() {
    let tp = TemporalProof::with_timestamp(1_000_000_000, ClockSource::System, 1_000);
    assert!(tp.verify_at(1_000_000_000 - 60_000_000).is_ok());
    match tp.verify_at(1_000_000_000 - 60_000_001) {
        Err(DdnaError::InvalidTimestamp(m)) => assert_eq!(m, "Timestamp nel futuro oltre la tolleranza"),
        other => panic!("unexpected {other:?}"),
    }
    assert!(tp.verify_at(1_000_000_000 + 86_400_000_000).is_ok());
    match tp.verify_at(1_000_000_000 + 86_400_000_001) {
        Err(DdnaError::InvalidTimestamp(m)) => assert_eq!(m, "Timestamp troppo vecchio (>24h)"),
        other => panic!("unexpected {other:?}"),
    }
}

#[test]
fn test_integrity_deterministic() {
    let kp = KeyPair::generate();
    let ddna = DataDna::create(b"test", &kp).unwrap();
    let hash1 = compute_integrity_hash(&ddna).unwrap();
    let hash2 = compute_integrity_hash(&ddna).unwrap();
    assert_eq!(hash1, hash2);
}

#[test]
fn test_create_and_verify() {
    let keypair = KeyPair::generate();
    let content = b"La temperatura a Roma e' 22 gradi centigradi";
    let ddna = DataDna::create(content, &keypair).expect("Creazione dDNA fallita");
    assert_eq!(ddna.version, DDNA_VERSION);
    assert!(ddna.verify().expect("Verifica fallita"));
    assert!(ddna.verify_content(content).expect("Verifica contenuto fallita"));
}

#[test]
fn test_wrong_content_fails() {
    let keypair = KeyPair::generate();
    let ddna = DataDna::create(b"dato originale", &keypair).unwrap();
    assert!(ddna.verify_content(b"dato modificato").is_err());
}

#[test]
fn wrong_content_error_names_both_digests() {
    let keypair = KeyPair::generate();
    let ddna = DataDna::create(b"abc", &keypair).unwrap();
    match ddna.verify_content(b"abd") {
        Err(DdnaError::FingerprintMismatch { expected, got }) => {
            assert_eq!(expected, "6437b3ac38465133ffb63b75273a8db548c558465d79db03fd359c6cd5bd9d85");
            assert_eq!(expected, ddna.id());
            assert_ne!(got, expected);
            assert_eq!(got.len(), 64);
        }
        other => panic!("unexpected {other:?}"),
    }
}

#[test]
fn test_custody_chain() {
    let producer_kp = KeyPair::generate();
    let node_kp = KeyPair::generate();
    let mut ddna = DataDna::create(b"dato che passa tra nodi", &producer_kp).unwrap();
    assert_eq!(ddna.custody_chain.len(), 1);
    ddna.add_custody(&node_kp.public_key_bytes(), CustodyAction::Received, &node_kp).unwrap();
    assert_eq!(ddna.custody_chain.len(), 2);
    assert!(ddna.verify().unwrap());
}

#[test]
fn created_dna_verifies_within_its_window_only() {
    let kp = KeyPair::generate();
    let d = DataDna::create_at(b"fact", &kp, 5_000_000_000, 5_000_000_000).unwrap();
    assert!(d.verify_at(5_000_000_000).unwrap());
    assert!(d.verify_at(5_000_000_000 + 86_400_000_000).unwrap());
    assert!(matches!(d.verify_at(5_000_000_000 + 86_400_000_001), Err(DdnaError::InvalidTimestamp(_))));
}

#[test]
fn appended_custody_keeps_dna_valid_and_tampering_is_caught() {
    let kp = KeyPair::generate();
    let node = KeyPair::generate();
    let mut d = DataDna::create_at(b"fact", &kp, 1_000_000, 1_000_000).unwrap();
    d.add_custody_at(&node.public_key_bytes(), CustodyAction::Forwarded, &node, 2_000_000).unwrap();
    assert!(d.verify_at(3_000_000).unwrap());
    let mut tampered = d.clone();
    tampered.version = 2;
    assert!(matches!(tampered.verify_at(3_000_000), Err(DdnaError::IntegrityViolation)));
    let mut forged = d.clone();
    forged.fingerprint = ContentFingerprint::compute(b"other");
    assert!(matches!(forged.verify_at(3_000_000), Err(DdnaError::InvalidSignature(_))));
}

#[test]
fn semantic_vector_is_covered_by_integrity() {
    let kp = KeyPair::generate();
    let mut d = DataDna::create_at(b"fact", &kp, 1_000_000, 1_000_000).unwrap();
    let before = d.integrity_hash;
    d.set_semantic_vector(SemanticVector::from_half_bits("m", vec![0x3c00, 0x0000])).unwrap();
    assert_ne!(before, d.integrity_hash);
    assert!(d.verify_at(1_000_000).unwrap());
    assert_eq!(d.semantic_vector.as_ref().unwrap().dimensions, 2);
}

#[test]
fn error_messages() {
    assert_eq!(DdnaError::InvalidSignature("x".to_string()).to_string(), "Firma non valida: x");
    assert_eq!(
        DdnaError::FingerprintMismatch { expected: "aa".to_string(), got: "bb".to_string() }.to_string(),
        "Fingerprint non corrisponde: atteso aa, ottenuto bb"
    );
    assert_eq!(DdnaError::InvalidTimestamp("t".to_string()).to_string(), "Timestamp non valido: t");
    assert_eq!(DdnaError::InvalidCustody("c".to_string()).to_string(), "Catena di custodia non valida: c");
    assert_eq!(DdnaError::SerializationError("s".to_string()).to_string(), "Errore di serializzazione: s");
    assert_eq!(DdnaError::IntegrityViolation.to_string(), "Integrità del dDNA compromessa");
}
