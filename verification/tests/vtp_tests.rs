use varcavia::vtp::channel::{ChannelConfig, ChannelType};
use varcavia::vtp::compression::{apply_delta, compress, compute_delta, decompress};
use varcavia::vtp::framing::{frame_length, frame_message, MAX_MSG_SIZE};
use varcavia::vtp::packet::VtpPacket;
use varcavia::vtp::priority::SemanticPriority;
use varcavia::vtp::sync::{GSet, LwwRegister};
use varcavia::vtp::VtpError;

#[test]
fn test_compress_decompress() {
    let data = b"test data for compression that should be compressed well if repeated repeated repeated";
    let compressed = compress(data).unwrap();
    let decompressed = decompress(&compressed).unwrap();
    assert_eq!(data.to_vec(), decompressed);
    assert!(compressed.len() < data.len());
}

#[test]
fn decompressing_garbage_fails() {
    assert!(decompress(b"not a zstd frame").is_err());
}

#[test]
fn test_delta_same_length() {
    let old = b"hello world AAAA";
    let new = b"hello world BBBB";
    let delta = compute_delta(old, new).unwrap();
    let restored = apply_delta(old, &delta).unwrap();
    assert_eq!(new.to_vec(), restored);
}

#[test]
fn delta_between_different_lengths_roundtrips() {
    let old = b"short";
    let new = b"a much longer new version";
    let delta = compute_delta(old, new).unwrap();
    assert_eq!(decompress(&delta).unwrap(), new.to_vec());
    assert_eq!(apply_delta(old, &delta).unwrap(), new.to_vec());
}

#[test]
fn test_priority_ordering() {
    assert!(SemanticPriority::Critical < SemanticPriority::High);
    assert!(SemanticPriority::High < SemanticPriority::Normal);
}

#[test]
fn test_from_domain() {
    assert_eq!(SemanticPriority::from_domain("emergency"), SemanticPriority::Critical);
    assert_eq!(SemanticPriority::from_domain("health"), SemanticPriority::High);
    assert_eq!(SemanticPriority::from_domain("climate"), SemanticPriority::Normal);
    assert_eq!(SemanticPriority::from_domain("unknown"), SemanticPriority::Normal);
}

#[test]
fn priority_levels_and_case() {
    assert_eq!(SemanticPriority::from_domain("ARCHIVE"), SemanticPriority::Low);
    assert_eq!(SemanticPriority::Background.value(), 4);
    assert!(SemanticPriority::Low > SemanticPriority::Normal);
}

#[test]
fn test_gset_merge() {
    let mut s1 = GSet::new();
    let mut s2 = GSet::new();
    s1.insert([1u8; 32]);
    s2.insert([2u8; 32]);
    s1.merge(&s2);
    assert_eq!(s1.len(), 2);
}

#[test]
fn gset_merge_is_a_union_that_keeps_first_times() {
    let mut a = GSet::new();
    a.insert_at([1u8; 32], 10);
    a.insert_at([1u8; 32], 99);
    let mut b = GSet::new();
    b.insert_at([1u8; 32], 5);
    b.insert_at([3u8; 32], 7);
    let mut ab = a.clone();
    ab.merge(&b);
    let mut ba = b.clone();
    ba.merge(&a);
    assert_eq!(ab.len(), 2);
    assert_eq!(ba.len(), 2);
    assert!(ab.contains(&[3u8; 32]) && ba.contains(&[1u8; 32]));
    assert!(!ab.contains(&[2u8; 32]));
    let mut again = ab.clone();
    again.merge(&b);
    assert_eq!(again.len(), 2);
    assert!(GSet::default().is_empty());
}

#[test]
fn lww_later_write_wins_in_any_order() {
    let a = LwwRegister::new_at("old".to_string(), [1u8; 32], 100);
    let b = LwwRegister::new_at("new".to_string(), [2u8; 32], 200);
    let mut x = a.clone();
    x.merge(&b);
    let mut y = b.clone();
    y.merge(&a);
    assert_eq!(x.value, "new");
    assert_eq!(y.value, "new");
    assert_eq!(x.timestamp_us, y.timestamp_us);
    assert_eq!(x.node_id, [2u8; 32]);
}

#[test]
fn lww_tie_is_broken_by_node_id() {
    let a = LwwRegister::new_at("from a".to_string(), [1u8; 32], 500);
    let mut nb = [1u8; 32];
    nb[31] = 2;
    let b = LwwRegister::new_at("from b".to_string(), nb, 500);
    let mut x = a.clone();
    x.merge(&b);
    let mut y = b.clone();
    y.merge(&a);
    assert_eq!(x.value, "from b");
    assert_eq!(y.value, "from b");
    assert_eq!(x.node_id, y.node_id);
    assert_eq!(x.timestamp_us, y.timestamp_us);
}

#[test]
fn test_new_packet() {
    let pkt = VtpPacket::new([1u8; 32], None, SemanticPriority::Normal, b"test payload".to_vec());
    assert!(pkt.verify_payload());
    assert_eq!(pkt.version, 1);
    assert_eq!(pkt.ttl, 16);
    assert_eq!(pkt.size(), 128 + 12);
}

#[test]
fn test_corrupted_payload() {
    let mut pkt = VtpPacket::new([1u8; 32], None, SemanticPriority::Normal, b"original".to_vec());
    pkt.payload = b"tampered".to_vec();
    assert!(!pkt.verify_payload());
}

#[test]
fn packets_get_distinct_ids() {
    let a = VtpPacket::new([1u8; 32], None, SemanticPriority::Low, vec![]);
    let b = VtpPacket::new([1u8; 32], None, SemanticPriority::Low, vec![]);
    assert_ne!(a.id, b.id);
}

#[test]
fn frames_announce_their_length() {
    let f = frame_message(b"hello");
    assert_eq!(&f[..4], &[0, 0, 0, 5]);
    assert_eq!(&f[4..], b"hello");
    assert_eq!(frame_length(&[0, 0, 0, 5]), Some(5));
    assert_eq!(frame_length(&[0, 0xa0, 0, 0]), Some(MAX_MSG_SIZE));
    assert_eq!(frame_length(&[0, 0xa0, 0, 1]), None);
}

#[test]
fn default_channel_is_local_tcp() {
    let c = ChannelConfig::default();
    assert_eq!(c.channel_type, ChannelType::Tcp);
    assert_eq!(c.address, "127.0.0.1");
    assert_eq!(c.port, 7700);
    assert_eq!(c.mtu_bytes, 65535);
}

#[test]
fn test_lww_merge() {
    let mut r1 = LwwRegister::new_at("old".to_string(), [1u8; 32], 1_000);
    let r2 = LwwRegister::new_at("new".to_string(), [2u8; 32], 2_000);
    r1.merge(&r2);
    assert_eq!(r1.value, "new");
}

#[test]
fn transport_error_messages() {
    assert_eq!(VtpError::TransmissionError("t".to_string()).to_string(), "Errore di trasmissione: t");
    assert_eq!(VtpError::CompressionError("c".to_string()).to_string(), "Errore di compressione: c");
    assert_eq!(VtpError::Timeout("5s".to_string()).to_string(), "Timeout: 5s");
    assert_eq!(VtpError::ChannelUnavailable("x".to_string()).to_string(), "Canale non disponibile: x");
    assert_eq!(VtpError::RoutingError("r".to_string()).to_string(), "Routing fallito: r");
}

#[test]
fn grow_only_sets_converge() {
    let (mut a, mut b) = (GSet::new(), GSet::new());
    a.insert_at([1u8; 32], 10);
    a.insert_at([2u8; 32], 20);
    b.insert_at([2u8; 32], 5);
    b.insert_at([3u8; 32], 30);
    let (mut ab, mut ba) = (GSet::new(), GSet::new());
    ab.merge(&a);
    ab.merge(&b);
    ba.merge(&b);
    ba.merge(&a);
    for h in [[1u8; 32], [2u8; 32], [3u8; 32]] {
        assert!(ab.contains(&h) && ba.contains(&h));
    }
    assert_eq!((ab.len(), ba.len()), (3, 3));
    ab.merge(&b);
    assert_eq!(ab.len(), 3);
}

#[test]
fn lowercase_domains_give_their_priority() {
    assert_eq!(SemanticPriority::from_lowercase_domain("disaster"), SemanticPriority::Critical);
    assert_eq!(SemanticPriority::from_lowercase_domain("archive"), SemanticPriority::Low);
    assert_eq!(SemanticPriority::from_lowercase_domain("Finance"), SemanticPriority::Normal);
    assert_eq!(SemanticPriority::from_domain("Finance"), SemanticPriority::High);
}
