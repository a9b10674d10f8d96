use bench_client::transaction::{decode_index, generate, TX_SIZE, TX_TAG};

#[test]
fn payload_layout_of_index_zero() {
    let p = generate(0);
    assert_eq!(p.len(), TX_SIZE);
    assert!(p.iter().all(|b| *b == 0));
}

#[test]
fn payload_layout_of_small_index() {
    let p = generate(1);
    assert_eq!(p.len(), TX_SIZE);
    assert_eq!(p[0], TX_TAG);
    // The counter sits in bytes 1..9, big-endian.
    assert_eq!(&p[1..9], &[0, 0, 0, 0, 0, 0, 0, 1]);
    // The rest is zero padding.
    assert!(p[9..].iter().all(|b| *b == 0));
}

#[test]
fn payload_layout_of_multi_byte_index() {
    let p = generate(0x0102030405060708);
    assert_eq!(&p[1..9], &[1, 2, 3, 4, 5, 6, 7, 8]);
}

#[test]
fn decode_round_trip() {
    for i in [0u64, 1, 9, 255, 256, 65536, 12345678, u64::MAX] {
        assert_eq!(decode_index(&generate(i)), Some(i));
    }
}

#[test]
fn generated_payloads_are_distinct() {
    let n = 100u64;
    let payloads: Vec<Vec<u8>> = (0..n).map(generate).collect();
    for i in 0..n as usize {
        for j in 0..n as usize {
            if i != j {
                assert_ne!(payloads[i], payloads[j]);
            }
        }
    }
}

#[test]
fn decode_refuses_wrong_shape() {
    // Wrong length.
    assert_eq!(decode_index(&vec![0u8; TX_SIZE - 1]), None);
    assert_eq!(decode_index(&vec![0u8; TX_SIZE + 1]), None);
    assert_eq!(decode_index(&vec![]), None);
    // Wrong tag.
    let mut p = generate(5);
    p[0] = 1;
    assert_eq!(decode_index(&p), None);
}
