use mint::chain::verify_slice;
use mint::event::Event;
use mint::keys::KeyPair;
use mint::mint::Mint;
use mint::MintError;

#[test]
#[allow(irrefutable_let_patterns)]
fn test_create_events() {
    let mut events = Mint::new(100).unwrap().create_events().into_iter();
    if let Event::Transaction(tr) = events.next().unwrap() {
        assert_eq!(tr.from, tr.to);
    }
    assert_eq!(events.next(), None);
}

#[test]
fn test_verify_entries() {
    let entries = Mint::new(100).unwrap().create_entries();
    assert!(verify_slice(&entries, &entries[0].id));
}

#[test]
fn test_genesis_example() {
    let m = Mint::new(100).unwrap();
    let events = m.create_events();
    assert_eq!(events.len(), 1);
    let Event::Transaction(tr) = &events[0];
    assert_eq!(tr.tokens, 100);
    assert_eq!(tr.from, m.pubkey());
    assert_eq!(tr.to, m.pubkey());
    assert_eq!(tr.last_id, m.seed());
    let entries = m.create_entries();
    assert_eq!(entries.len(), 2);
    assert_eq!(entries[0].prev_id, m.seed());
    assert_eq!(entries[0].counter, 0);
    assert!(entries[0].events.is_empty());
    assert_eq!(entries[1].prev_id, entries[0].id);
    assert_eq!(entries[1].counter, 0);
    assert_eq!(entries[1].events, events);
}

#[test]
fn test_determinism() {
    let m = Mint::new(42).unwrap();
    assert_eq!(m.seed(), m.seed());
    assert_eq!(m.pubkey(), m.pubkey());
    assert_eq!(m.create_events(), m.create_events());
    assert_eq!(m.create_entries(), m.create_entries());
}

#[test]
fn test_verify_from_seed_and_mutations() {
    let m = Mint::new(100).unwrap();
    let entries = m.create_entries();
    assert!(verify_slice(&entries, &m.seed()));

    let mut bad = entries.clone();
    bad[0].prev_id.bytes[0] ^= 1;
    assert!(!verify_slice(&bad, &m.seed()));

    let mut bad = entries.clone();
    bad[0].counter = 1;
    assert!(!verify_slice(&bad, &m.seed()));

    let mut bad = entries.clone();
    bad[1].prev_id.bytes[31] ^= 1;
    assert!(!verify_slice(&bad, &m.seed()));

    let mut bad = entries.clone();
    bad[1].id.bytes[7] ^= 1;
    assert!(!verify_slice(&bad, &m.seed()));

    let mut bad = entries.clone();
    bad[1].counter = 5;
    assert!(!verify_slice(&bad, &m.seed()));

    let mut bad = entries.clone();
    let Event::Transaction(tr) = &mut bad[1].events[0];
    tr.tokens = 99;
    assert!(!verify_slice(&bad, &m.seed()));

    let mut bad = entries.clone();
    let Event::Transaction(tr) = &mut bad[1].events[0];
    tr.sig.bytes[0] ^= 1;
    assert!(!verify_slice(&bad, &m.seed()));
}

#[test]
fn test_verify_wrong_start() {
    let m = Mint::new(100).unwrap();
    let other = Mint::new(100).unwrap();
    let entries = m.create_entries();
    assert!(!verify_slice(&entries, &other.seed()));
}

#[test]
fn test_round_trip() {
    let m = Mint::new(100).unwrap();
    let bytes = m.to_bytes();
    let m2 = Mint::from_bytes(&bytes).unwrap();
    assert_eq!(m2.seed(), m.seed());
    assert_eq!(m2.pubkey(), m.pubkey());
    assert_eq!(m2.tokens(), m.tokens());
    assert_eq!(m2.pkcs8(), m.pkcs8());
    assert_eq!(m2.create_events(), m.create_events());
    assert_eq!(m2.create_entries(), m.create_entries());
}

#[test]
fn test_round_trip_negative_supply() {
    let m = Mint::new(-7).unwrap();
    assert_eq!(m.tokens(), -7);
    let events = m.create_events();
    let Event::Transaction(tr) = &events[0];
    assert_eq!(tr.tokens, -7);
    let m2 = Mint::from_bytes(&m.to_bytes()).unwrap();
    assert_eq!(m2.tokens(), -7);
    assert_eq!(m2.create_entries(), m.create_entries());
}

#[test]
fn test_from_bytes_rejects_corruption() {
    assert_eq!(Mint::from_bytes(&vec![]).unwrap_err(), MintError::Reconstitution);

    // A record whose layout parses but whose key material is garbage.
    let mut bytes = vec![];
    bytes.extend_from_slice(&3u64.to_le_bytes());
    bytes.extend_from_slice(&[1u8, 2, 3]);
    bytes.extend_from_slice(&[0u8; 32]);
    bytes.extend_from_slice(&100u64.to_le_bytes());
    assert_eq!(Mint::from_bytes(&bytes).unwrap_err(), MintError::Reconstitution);

    // A valid record with its length field altered.
    let m = Mint::new(1).unwrap();
    let mut bytes = m.to_bytes();
    bytes[0] ^= 1;
    assert_eq!(Mint::from_bytes(&bytes).unwrap_err(), MintError::Reconstitution);

    // A valid record with one bit of the stored public key flipped.
    let mut bytes = m.to_bytes();
    let at = bytes.len() - 9;
    bytes[at] ^= 1;
    assert_eq!(Mint::from_bytes(&bytes).unwrap_err(), MintError::Reconstitution);
}

#[test]
fn test_keypair_reconstitution() {
    let m = Mint::new(5).unwrap();
    let kp = m.keypair();
    assert_eq!(kp.pubkey(), m.pubkey());
    assert_eq!(kp.pkcs8_bytes(), *m.pkcs8());
    match KeyPair::from_pkcs8(vec![1, 2, 3]) {
        Err(e) => assert_eq!(e, MintError::Reconstitution),
        Ok(_) => panic!("garbage key material was accepted"),
    }
}

#[test]
fn test_uniqueness() {
    let m1 = Mint::new(100).unwrap();
    let m2 = Mint::new(100).unwrap();
    assert_ne!(m1.pubkey(), m2.pubkey());
    assert_ne!(m1.seed(), m2.seed());
    // The seed is a digest of the secret material, not a copy of its prefix.
    assert_ne!(m1.seed().bytes.as_slice(), &m1.pkcs8()[0..32]);
    let e1 = m1.create_entries();
    let e2 = m2.create_entries();
    assert_ne!(e1[0].id, e2[0].id);
    assert_ne!(e1[1].id, e2[1].id);
    let t1 = m1.create_events();
    let t2 = m2.create_events();
    let Event::Transaction(tr1) = &t1[0];
    let Event::Transaction(tr2) = &t2[0];
    assert_ne!(tr1.sig, tr2.sig);
}
