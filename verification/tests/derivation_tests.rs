use chain_spec::keys::{
    account_id, authority_keys_from_seed, get_account_id_from_seed, get_from_seed, Scheme,
};

fn hex(bytes: &[u8]) -> String {
    let mut s = String::new();
    for b in bytes {
        s.push_str(&format!("{:02x}", b));
    }
    s
}

#[test]
fn derivation_is_deterministic_sr25519() {
    let a = get_from_seed(Scheme::Sr25519, "Alice").unwrap();
    let b = get_from_seed(Scheme::Sr25519, "Alice").unwrap();
    assert_eq!(a.bytes, b.bytes);
}

#[test]
fn derivation_is_deterministic_ed25519() {
    let a = get_from_seed(Scheme::Ed25519, "Alice").unwrap();
    let b = get_from_seed(Scheme::Ed25519, "Alice").unwrap();
    assert_eq!(a.bytes, b.bytes);
}

#[test]
fn alice_sr25519_known_answer() {
    let key = get_from_seed(Scheme::Sr25519, "Alice").unwrap();
    assert_eq!(
        hex(&key.bytes),
        "d43593c715fdd31c61141abd04a99fd6822c8558854ccde39a5684e7a56da27d"
    );
}

#[test]
fn alice_ed25519_known_answer() {
    let key = get_from_seed(Scheme::Ed25519, "Alice").unwrap();
    assert_eq!(
        hex(&key.bytes),
        "88dc3417d5058ec4b4503e0c12ea1a0a89be200fe98922423d4334014fa6b0ee"
    );
}

#[test]
fn empty_label_is_rejected() {
    assert_eq!(
        get_from_seed(Scheme::Sr25519, ""),
        Err(chain_spec::GenesisError::InvalidLabel)
    );
    assert_eq!(
        get_account_id_from_seed(""),
        Err(chain_spec::GenesisError::InvalidLabel)
    );
}

#[test]
fn distinct_labels_give_distinct_keys() {
    let a = get_from_seed(Scheme::Sr25519, "Alice").unwrap();
    let b = get_from_seed(Scheme::Sr25519, "Bob").unwrap();
    assert_ne!(a.bytes, b.bytes);
}

#[test]
fn schemes_give_distinct_keys() {
    let a = get_from_seed(Scheme::Sr25519, "Alice").unwrap();
    let b = get_from_seed(Scheme::Ed25519, "Alice").unwrap();
    assert_ne!(a.bytes, b.bytes);
}

#[test]
fn account_id_holds_public_key_bytes() {
    let key = get_from_seed(Scheme::Sr25519, "Alice").unwrap();
    let account = account_id(&key);
    assert_eq!(account.bytes, key.bytes);
    let derived = get_account_id_from_seed("Alice").unwrap();
    assert_eq!(derived.bytes, account.bytes);
}

#[test]
fn preset_account_ids_are_pairwise_distinct() {
    let labels = [
        "Alice",
        "Bob",
        "Charlie",
        "Dave",
        "Eve",
        "Ferdie",
        "Alice//stash",
        "Bob//stash",
        "Charlie//stash",
        "Dave//stash",
        "Eve//stash",
        "Ferdie//stash",
    ];
    let ids: Vec<_> = labels
        .iter()
        .map(|l| get_account_id_from_seed(l).unwrap())
        .collect();
    for i in 0..ids.len() {
        for j in 0..ids.len() {
            if i != j {
                assert_ne!(ids[i].bytes, ids[j].bytes);
            }
        }
    }
}

#[test]
fn validator_pairing_is_deterministic() {
    let v1 = authority_keys_from_seed("Bob").unwrap();
    let v2 = authority_keys_from_seed("Bob").unwrap();
    assert_eq!(v1.block.bytes, v2.block.bytes);
    assert_eq!(v1.finality.bytes, v2.finality.bytes);
}

#[test]
fn validator_halves_match_single_derivations() {
    let v = authority_keys_from_seed("Charlie").unwrap();
    let sr = get_from_seed(Scheme::Sr25519, "Charlie").unwrap();
    let ed = get_from_seed(Scheme::Ed25519, "Charlie").unwrap();
    assert_eq!(v.block.bytes, sr.bytes);
    assert_eq!(v.finality.bytes, ed.bytes);
}
