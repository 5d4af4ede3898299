use chicken::ciphertext::{Ciphertext, CiphertextBuf};

#[test]
fn envelope_layout_is_two_length_prefixed_fields() {
    let envelope = Ciphertext::new(vec![0xAA, 0xBB, 0xCC], vec![0x01, 0x02]);
    assert_eq!(
        envelope.serialize(),
        vec![3, 0, 0, 0, 0, 0, 0, 0, 0xAA, 0xBB, 0xCC, 2, 0, 0, 0, 0, 0, 0, 0, 0x01, 0x02]
    );
}

#[test]
fn envelope_layout_matches_bincode() {
    let ciphertext = vec![9u8; 300];
    let nonce = vec![5u8; 24];
    let envelope = Ciphertext::new(ciphertext.clone(), nonce.clone());
    assert_eq!(envelope.serialize(), bincode::serialize(&(ciphertext, nonce)).unwrap());
}

#[test]
fn envelope_round_trips() {
    for (c, n) in [
        (Vec::new(), Vec::new()),
        (vec![1u8], vec![2u8; 24]),
        (vec![0xFF; 1000], vec![0u8; 24]),
    ] {
        let envelope = Ciphertext::new(c.clone(), n.clone());
        let back = Ciphertext::deserialize(&envelope.serialize()).unwrap();
        assert_eq!(back.get_ciphertext(), c.as_slice());
        assert_eq!(back.get_nonce(), n.as_slice());
    }
}

#[test]
fn malformed_envelopes_are_refused() {
    assert!(Ciphertext::deserialize(&[]).is_none());
    assert!(Ciphertext::deserialize(&[1, 0, 0, 0]).is_none());
    // The first field claims more bytes than there are.
    assert!(Ciphertext::deserialize(&[9, 0, 0, 0, 0, 0, 0, 0, 1, 2]).is_none());
    // One field only.
    assert!(Ciphertext::deserialize(&[1, 0, 0, 0, 0, 0, 0, 0, 7]).is_none());
    // A length beyond any buffer.
    let mut huge = vec![0xFF; 8];
    huge.extend_from_slice(&[0u8; 16]);
    assert!(Ciphertext::deserialize(&huge).is_none());
    // Trailing bytes.
    let mut bytes = Ciphertext::new(vec![1], vec![2]).serialize();
    bytes.push(0);
    assert!(Ciphertext::deserialize(&bytes).is_none());
}

#[test]
fn ciphertext_buf_keeps_its_fields() {
    let params = CiphertextBuf::new(vec![1, 2, 3], b"ad".to_vec());
    assert_eq!(params.get_nonce(), &[1, 2, 3]);
    assert_eq!(params.get_associated_data(), b"ad");
}
