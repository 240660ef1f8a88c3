use varcavia::arc::{decide_vote, hex_decode, local_verdict_at, node_id_from_hex, parse_vote, VoteType};
use varcavia::ddna::identity::KeyPair;
use varcavia::ddna::DataDna;

#[test]
fn test_valid_data_approved() {
    let kp = KeyPair::generate();
    let data = b"valid test data";
    let ddna = DataDna::create(data, &kp).unwrap();
    let vote = local_verdict_at(data, &ddna, chrono::Utc::now().timestamp_micros(), true);
    assert_eq!(vote.vote, VoteType::Approve);
    assert!(vote.checks_failed.is_empty());
}

#[test]
fn test_tampered_data_rejected() {
    let kp = KeyPair::generate();
    let data = b"original data";
    let ddna = DataDna::create(data, &kp).unwrap();
    let vote = local_verdict_at(b"tampered data", &ddna, chrono::Utc::now().timestamp_micros(), true);
    assert!(vote.checks_failed.contains(&"content_fingerprint".to_string()));
}

#[test]
fn checks_are_reported_in_order() {
    let kp = KeyPair::generate();
    let data = b"ordered checks";
    let ddna = DataDna::create(data, &kp).unwrap();
    let v = local_verdict_at(data, &ddna, chrono::Utc::now().timestamp_micros(), false);
    assert_eq!(v.checks_passed, vec!["crypto_verification", "content_fingerprint", "temporal_plausibility"]);
    assert_eq!(v.checks_failed, vec!["source_reputation"]);
    assert_eq!(v.vote, VoteType::Abstain);
}

#[test]
fn tampered_and_untrusted_data_is_rejected() {
    let kp = KeyPair::generate();
    let ddna = DataDna::create(b"first", &kp).unwrap();
    let v = local_verdict_at(b"second", &ddna, chrono::Utc::now().timestamp_micros(), false);
    assert_eq!(v.checks_passed, vec!["crypto_verification", "temporal_plausibility"]);
    assert_eq!(v.checks_failed, vec!["content_fingerprint", "source_reputation"]);
    assert_eq!(v.vote, VoteType::Abstain);
}

#[test]
fn vote_thresholds() {
    assert_eq!(decide_vote(4, 0), VoteType::Approve);
    assert_eq!(decide_vote(0, 0), VoteType::Approve);
    assert_eq!(decide_vote(2, 2), VoteType::Abstain);
    assert_eq!(decide_vote(3, 1), VoteType::Abstain);
    assert_eq!(decide_vote(1, 3), VoteType::Reject);
    assert_eq!(decide_vote(usize::MAX, usize::MAX), VoteType::Abstain);
}

#[test]
fn peer_votes_are_parsed_by_name() {
    assert_eq!(parse_vote("approve"), VoteType::Approve);
    assert_eq!(parse_vote("reject"), VoteType::Reject);
    assert_eq!(parse_vote("abstain"), VoteType::Abstain);
    assert_eq!(parse_vote("Approve"), VoteType::Abstain);
    assert_eq!(parse_vote(""), VoteType::Abstain);
}

#[test]
fn hex_decoding() {
    assert_eq!(hex_decode("00ff10Ab"), Some(vec![0x00, 0xff, 0x10, 0xab]));
    assert_eq!(hex_decode(""), Some(vec![]));
    assert_eq!(hex_decode("abc"), None);
    assert_eq!(hex_decode("zz"), None);
}

#[test]
fn node_ids_from_hex() {
    let mut expected = [0u8; 32];
    expected[0] = 0xde;
    expected[1] = 0xad;
    assert_eq!(node_id_from_hex("dead"), expected);
    assert_eq!(node_id_from_hex("not hex"), [0u8; 32]);
    let long = "01".repeat(40);
    assert_eq!(node_id_from_hex(&long), [1u8; 32]);
}

#[test]
fn hex_node_ids_roundtrip() {
    let kp = KeyPair::generate();
    let id = kp.public_key_bytes();
    assert_eq!(node_id_from_hex(&varcavia::bytes::hex_encode(&id)), id);
    assert_eq!(hex_decode(&varcavia::bytes::hex_encode(b"\x00\x7f\xff")), Some(vec![0x00, 0x7f, 0xff]));
}
