use verstore::{Address, Agent, Branch, Datastore, Identity, Record, RegisterError};

fn empty_datastore() -> Datastore {
    Datastore::new(String::from("/tmp/verstore"), Agent { id: 7 })
}

#[test]
fn address_is_deterministic() {
    let bytes = vec![1u8, 2, 3, 4, 5];
    assert_eq!(Address::new(&bytes), Address::new(&bytes));
    assert_eq!(Address::new(&[]), Address::new(&[]));
}

#[test]
fn address_has_known_fnv1a_values() {
    assert_eq!(Address::new(&[]).hash, 0xcbf29ce484222325);
    assert_eq!(Address::new(b"a").hash, 0xaf63dc4c8601ec8c);
}

#[test]
fn address_separates_a_realistic_corpus() {
    let corpus: Vec<Vec<u8>> = vec![
        vec![],
        vec![0],
        vec![1],
        vec![0, 0],
        vec![255],
        b"hello".to_vec(),
        b"hello world".to_vec(),
        b"Hello".to_vec(),
        vec![1, 2, 3],
        vec![3, 2, 1],
        vec![0; 64],
        vec![1; 64],
    ];
    for (i, b1) in corpus.iter().enumerate() {
        for (j, b2) in corpus.iter().enumerate() {
            if i != j {
                assert_ne!(Address::new(b1), Address::new(b2));
            }
        }
    }
}

#[test]
fn store_then_load_round_trips() {
    let mut ds = empty_datastore();
    let record = Record { identity: Identity { id: 42 }, payload: vec![10u8, 20, 30] };
    let address = ds.store(&record).expect("storing a plain record succeeds");
    let loaded = ds.load(&address).expect("a just-stored address loads");
    assert_eq!(loaded.identity, Identity { id: 42 });
    assert_eq!(loaded.payload, vec![10u8, 20, 30]);
}

#[test]
fn stored_bytes_are_a_real_encoding() {
    let mut ds = empty_datastore();
    let record = Record { identity: Identity { id: 9 }, payload: vec![1u8, 2, 3] };
    let address = ds.store(&record).unwrap();
    let cached = ds.cached_addresses.get(&address.hash).expect("content is cached");
    // The wire bytes are the MessagePack encoding of (identity, payload),
    // not the raw payload handed in.
    let expected = rmp_serde::to_vec(&(9u64, vec![1u8, 2, 3])).unwrap();
    assert_eq!(cached, &expected);
    assert_ne!(cached, &vec![1u8, 2, 3]);
    assert_eq!(address, Address::new(&expected));
}

#[test]
fn load_of_unknown_address_is_absent() {
    let ds = empty_datastore();
    assert_eq!(ds.load(&Address { hash: 12345 }), None);
}

#[test]
fn load_of_undecodable_bytes_is_absent() {
    let mut ds = empty_datastore();
    let bytes: Vec<u8> = Vec::new();
    let address = Address::new(&bytes);
    ds.cached_addresses.insert(address.hash, bytes);
    assert_eq!(ds.load(&address), None);
}

#[test]
fn head_is_absent_for_unseeded_and_for_empty_history() {
    let mut branch = Branch::new(Agent { id: 1 });
    let identity = Identity { id: 5 };
    // Never seeded: no history entry at all.
    assert_eq!(branch.head(&identity), None);
    // Seeded with an empty history: the entry exists but holds no address.
    branch.seed(&identity);
    assert!(branch.cached_identities.contains_key(&identity.id));
    assert_eq!(branch.head(&identity), None);
}

#[test]
fn commit_sets_the_head() {
    let mut branch = Branch::new(Agent { id: 1 });
    let identity = Identity { id: 5 };
    branch.seed(&identity);
    let a0 = Address { hash: 100 };
    let a1 = Address { hash: 200 };
    assert_eq!(branch.commit(&identity, &a0), Some(()));
    assert_eq!(branch.head(&identity), Some(a0));
    assert_eq!(branch.commit(&identity, &a1), Some(()));
    assert_eq!(branch.head(&identity), Some(a1));
    assert_eq!(branch.cached_identities.get(&identity.id).unwrap(), &vec![a0, a1]);
}

#[test]
fn commit_to_an_unseeded_identity_is_rejected() {
    let mut branch = Branch::new(Agent { id: 1 });
    let identity = Identity { id: 5 };
    assert_eq!(branch.commit(&identity, &Address { hash: 100 }), None);
    assert_eq!(branch.head(&identity), None);
    assert!(!branch.cached_identities.contains_key(&identity.id));
}

#[test]
fn update_without_a_head_changes_nothing() {
    let mut ds = empty_datastore();
    let record = Record { identity: Identity { id: 3 }, payload: vec![1u8] };
    // Never seeded at all.
    assert_eq!(ds.update(&record), None);
    assert!(ds.cached_addresses.is_empty());
    assert!(ds.local_branch.cached_identities.is_empty());
    // Seeded, but with an empty history: still no head to build on.
    ds.local_branch.seed(&Identity { id: 3 });
    assert_eq!(ds.update(&record), None);
    assert!(ds.cached_addresses.is_empty());
    assert_eq!(ds.local_branch.cached_identities.get(&3), Some(&Vec::new()));
}

#[test]
fn update_appends_a_new_head() {
    let mut ds = empty_datastore();
    let i1 = Identity { id: 1 };
    let v0 = Record { identity: i1, payload: vec![0u8] };
    let v1 = Record { identity: i1, payload: vec![1u8, 1] };

    // Seed the branch with history [a0], a0 addressing v0's stored content.
    let a0 = ds.store(&v0).unwrap();
    ds.local_branch.seed(&i1);
    assert_eq!(ds.local_branch.commit(&i1, &a0), Some(()));

    assert_eq!(ds.update(&v1), Some(()));

    let a1 = Address::new(&rmp_serde::to_vec(&(1u64, vec![1u8, 1])).unwrap());
    assert!(ds.cached_addresses.contains_key(&a1.hash));
    assert_eq!(ds.local_branch.head(&i1), Some(a1));
    assert_eq!(ds.local_branch.cached_identities.get(&i1.id).unwrap(), &vec![a0, a1]);
    // The new version loads back; the old head stays reachable.
    assert_eq!(ds.load(&a1).unwrap().payload, vec![1u8, 1]);
    assert_eq!(ds.load(&a0).unwrap().payload, vec![0u8]);
}

#[test]
fn update_of_a_never_seeded_identity_changes_nothing() {
    let mut ds = empty_datastore();
    let record = Record { identity: Identity { id: 77 }, payload: vec![9u8, 9] };
    assert_eq!(ds.update(&record), None);
    assert!(ds.cached_addresses.is_empty());
    assert!(ds.local_branch.cached_identities.is_empty());
}

#[test]
fn register_is_an_open_extension_point() {
    let mut ds = empty_datastore();
    let record = Record { identity: Identity { id: 8 }, payload: vec![4u8] };
    assert_eq!(ds.register(&record), Err(RegisterError::NotImplemented));
    assert!(ds.cached_addresses.is_empty());
    assert!(ds.local_branch.cached_identities.is_empty());
}
