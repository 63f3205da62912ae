use water_monitor::ChecksumTable;
use water_monitor::MsgType;
use water_monitor::Packet;
use water_monitor::decode;
use water_monitor::encode;

#[test]
fn checksum_deterministic_across_calls_and_tables() {
    let t1 = ChecksumTable::new();
    let t2 = ChecksumTable::new();
    let data: Vec<u8> = vec![0, 1, 2, 250, 251, 252, 100, 150, 200];
    let a = t1.checksum(&data);
    let b = t1.checksum(&data);
    let c = t2.checksum(&data);
    assert_eq!(a, b);
    assert_eq!(a, c);
}

#[test]
fn checksum_exact_values() {
    let t = ChecksumTable::new();
    assert_eq!(t.checksum(&[]), 0);
    assert_eq!(t.checksum(&[3]), 86);
    assert_eq!(t.checksum(&[1, 0b1010]), 161);
    assert_eq!(t.checksum(&[100, 150, 200]), 58);
}

#[test]
fn encode_ack_exact_bytes() {
    let t = ChecksumTable::new();
    let buf = encode(&t, MsgType::Ack, &[]).ok().unwrap();
    assert_eq!(buf, vec![3, 86]);
}

#[test]
fn encode_rejects_wrong_payload_length() {
    let t = ChecksumTable::new();
    assert!(encode(&t, MsgType::Ack, &[1]).is_err());
    assert!(encode(&t, MsgType::SetMotorDirs, &[]).is_err());
    assert!(encode(&t, MsgType::Params, &[0; 75]).is_err());
    assert!(encode(&t, MsgType::Params, &[0; 76]).is_ok());
}

#[test]
fn codec_round_trip_all_kinds() {
    let t = ChecksumTable::new();
    let kinds = [
        MsgType::Params,
        MsgType::SetMotorDirs,
        MsgType::ReqParams,
        MsgType::Ack,
        MsgType::Controls,
        MsgType::ReqControls,
    ];
    for kind in kinds {
        let n = kind.payload_size();
        let payload: Vec<u8> = (0..n).map(|i| (7 * i + 13) as u8).collect();
        let buf = encode(&t, kind, &payload).ok().unwrap();
        assert_eq!(buf.len(), n + 2);
        let p: Packet = decode(&t, &buf).ok().unwrap();
        assert_eq!(p.message_type, kind);
        assert_eq!(p.payload, payload);
        assert_eq!(p.crc, buf[n + 1]);
    }
}

#[test]
fn decode_rejects_flipped_checksum_byte() {
    let t = ChecksumTable::new();
    let mut buf = encode(&t, MsgType::SetMotorDirs, &[0b1010]).ok().unwrap();
    assert_eq!(buf, vec![1, 0b1010, 161]);
    let last = buf.len() - 1;
    buf[last] ^= 1;
    assert!(decode(&t, &buf).is_err());
}

#[test]
fn decode_rejects_every_single_bit_flip_past_the_tag() {
    let t = ChecksumTable::new();
    let payload: Vec<u8> = (0..18).map(|i| (31 * i + 5) as u8).collect();
    let buf = encode(&t, MsgType::Controls, &payload).ok().unwrap();
    assert!(decode(&t, &buf).is_ok());
    for i in 1..buf.len() {
        for k in 0..8 {
            let mut corrupt = buf.clone();
            corrupt[i] ^= 1u8 << k;
            assert!(decode(&t, &corrupt).is_err());
        }
    }
}

#[test]
fn decode_rejects_every_single_bit_flip_of_an_ack_frame() {
    // With a zero-payload kind no flipped tag can re-frame the buffer to a
    // smaller kind, so every single-bit flip anywhere is rejected.
    let t = ChecksumTable::new();
    let buf = encode(&t, MsgType::Ack, &[]).ok().unwrap();
    for i in 0..buf.len() {
        for k in 0..8 {
            let mut corrupt = buf.clone();
            corrupt[i] ^= 1u8 << k;
            assert!(decode(&t, &corrupt).is_err());
        }
    }
}

#[test]
fn decode_rejects_unknown_tag() {
    let t = ChecksumTable::new();
    let buf = vec![6, t.checksum(&[6])];
    assert!(decode(&t, &buf).is_err());
    assert!(decode(&t, &[255, 0, 0]).is_err());
}

#[test]
fn decode_rejects_short_buffer() {
    let t = ChecksumTable::new();
    assert!(decode(&t, &[]).is_err());
    assert!(decode(&t, &[3]).is_err());
    // A Controls frame needs 18 payload bytes plus the checksum.
    assert!(decode(&t, &[4, 0, 0, 0]).is_err());
}

#[test]
fn decode_ignores_trailing_bytes() {
    let t = ChecksumTable::new();
    let mut buf = encode(&t, MsgType::Ack, &[]).ok().unwrap();
    buf.push(99);
    buf.push(77);
    let p = decode(&t, &buf).ok().unwrap();
    assert_eq!(p.message_type, MsgType::Ack);
    assert_eq!(p.payload.len(), 0);
}

#[test]
fn payload_sizes_match_registry() {
    assert_eq!(MsgType::Params.payload_size(), 76);
    assert_eq!(MsgType::SetMotorDirs.payload_size(), 1);
    assert_eq!(MsgType::ReqParams.payload_size(), 0);
    assert_eq!(MsgType::Ack.payload_size(), 0);
    assert_eq!(MsgType::Controls.payload_size(), 18);
    assert_eq!(MsgType::ReqControls.payload_size(), 0);
}

#[test]
fn tags_round_trip() {
    let kinds = [
        MsgType::Params,
        MsgType::SetMotorDirs,
        MsgType::ReqParams,
        MsgType::Ack,
        MsgType::Controls,
        MsgType::ReqControls,
    ];
    for kind in kinds {
        assert_eq!(MsgType::from_tag(kind.tag()), Some(kind));
    }
    assert_eq!(MsgType::from_tag(6), None);
}
