use proxer::decoy::{
    build_decoy_packet, DECOY_NOISE_LEN, EXTENSIONS_LEN_AT, HANDSHAKE_LEN_AT, PART0, PART0_LEN,
    PART1, PART1_LEN, PLACEHOLDER, RECORD_LEN_AT, SNI_AT,
};

fn noise() -> Vec<u8> {
    (0..DECOY_NOISE_LEN).map(|i| (i * 7 + 1) as u8).collect()
}

fn be16(p: &[u8], at: usize) -> usize {
    p[at] as usize * 256 + p[at + 1] as usize
}

#[test]
fn decoy_lengths_and_name() {
    let p = build_decoy_packet("www.example.com", &noise()).unwrap();
    assert_eq!(p.len(), 88 + 9 + 15 + 65);
    assert_eq!(be16(&p, 3), p.len() - 5);
    assert_eq!(be16(&p, 7), p.len() - 9);
    assert_eq!(be16(&p, 86), p.len() - 88);
    assert_eq!(&p[97..112], b"www.example.com");
    assert_eq!(&p[88..97], &[0, 0, 0, 20, 0, 18, 0, 0, 15]);
}

#[test]
fn decoy_offsets_follow_segment_sizes() {
    assert_eq!(RECORD_LEN_AT, 3);
    assert_eq!(HANDSHAKE_LEN_AT, 7);
    assert_eq!(EXTENSIONS_LEN_AT, PART0_LEN - 2);
    assert_eq!(SNI_AT, PART0_LEN + 9);
    assert_eq!(DECOY_NOISE_LEN, PART0_LEN + PART1_LEN);
}

#[test]
fn decoy_round_trip_for_every_length() {
    let n = noise();
    for len in 1..=255usize {
        let name: String = (0..len).map(|i| (b'a' + (i % 26) as u8) as char).collect();
        let p = build_decoy_packet(&name, &n).unwrap();
        assert_eq!(be16(&p, RECORD_LEN_AT), p.len() - 5);
        assert_eq!(be16(&p, HANDSHAKE_LEN_AT), p.len() - 9);
        assert_eq!(be16(&p, EXTENSIONS_LEN_AT), p.len() - PART0_LEN);
        assert_eq!(be16(&p, SNI_AT - 2), len);
        assert_eq!(&p[SNI_AT..SNI_AT + len], name.as_bytes());
    }
}

#[test]
fn decoy_placeholders_take_noise() {
    let n = noise();
    let p = build_decoy_packet("a.b", &n).unwrap();
    for i in 0..PART0_LEN {
        if [3, 4, 7, 8, 86, 87].contains(&i) {
            continue;
        }
        let expected = if PART0[i] == PLACEHOLDER { n[i] } else { PART0[i] };
        assert_eq!(p[i], expected, "offset {i}");
    }
    let tail = PART0_LEN + 9 + 3;
    for k in 0..PART1_LEN {
        let expected = if PART1[k] == PLACEHOLDER { n[PART0_LEN + k] } else { PART1[k] };
        assert_eq!(p[tail + k], expected, "tail offset {k}");
    }
    assert!(p[11..43].iter().zip(&n[11..43]).all(|(a, b)| a == b));
    assert_eq!(p[0], 0x16);
    assert_eq!(p[5], 0x01);
}

#[test]
fn decoy_name_bytes_are_not_replaced() {
    let name = "\u{2aa}x.com";
    let p = build_decoy_packet(name, &noise()).unwrap();
    let len = name.len();
    assert_eq!(&p[SNI_AT..SNI_AT + len], name.as_bytes());
}

#[test]
fn decoy_rejects_bad_names_and_short_noise() {
    assert!(build_decoy_packet("", &noise()).is_none());
    let long: String = std::iter::repeat('a').take(256).collect();
    assert!(build_decoy_packet(&long, &noise()).is_none());
    assert!(build_decoy_packet("a.com", &noise()[..DECOY_NOISE_LEN - 1]).is_none());
    let max: String = std::iter::repeat('a').take(255).collect();
    assert!(build_decoy_packet(&max, &noise()).is_some());
}
