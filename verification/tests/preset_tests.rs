use chain_spec::evm_account::parse_evm_address;
use chain_spec::genesis::{ENDOWMENT, FINALITY_WEIGHT};
use chain_spec::keys::{authority_keys_from_seed, get_account_id_from_seed};
use chain_spec::preset::{
    development_config, local_testnet_config, ChainClass, DEV_EVM_BALANCE,
};
use chain_spec::GenesisError;

fn payload() -> Option<Vec<u8>> {
    Some(vec![0, 6, 1, 4])
}

#[test]
fn development_metadata() {
    let spec = development_config(payload()).unwrap();
    assert_eq!(spec.name, "Development");
    assert_eq!(spec.id, "dev");
    assert_eq!(spec.chain_class, ChainClass::Development);
    assert!(spec.boot_nodes.is_empty());
    assert!(spec.telemetry.is_none());
    assert!(spec.protocol_id.is_none());
    assert!(spec.properties.is_none());
    assert!(spec.extensions.is_none());
}

#[test]
fn development_genesis_counts() {
    let spec = development_config(payload()).unwrap();
    let genesis = spec.genesis;
    assert_eq!(genesis.system.unwrap().code, vec![0, 6, 1, 4]);

    let block = genesis.block_authorities.unwrap();
    let finality = genesis.finality_authorities.unwrap();
    assert_eq!(block.len(), 1);
    assert_eq!(finality.len(), 1);
    assert_eq!(finality[0].1, FINALITY_WEIGHT);

    let alice = get_account_id_from_seed("Alice").unwrap();
    assert_eq!(genesis.sudo.unwrap().bytes, alice.bytes);

    let balances = genesis.balances.unwrap().balances;
    assert_eq!(balances.len(), 4);
    for (_, amount) in balances.iter() {
        assert_eq!(*amount, ENDOWMENT);
    }
    let expected = [
        get_account_id_from_seed("Alice").unwrap(),
        get_account_id_from_seed("Bob").unwrap(),
        get_account_id_from_seed("Alice//stash").unwrap(),
        get_account_id_from_seed("Bob//stash").unwrap(),
    ];
    for (i, account) in expected.iter().enumerate() {
        assert_eq!(balances[i].0.bytes, account.bytes);
    }
}

#[test]
fn development_seeds_well_known_evm_account() {
    let spec = development_config(payload()).unwrap();
    let evm = spec.genesis.evm_accounts.unwrap();
    assert_eq!(evm.len(), 1);
    let expected = parse_evm_address("6Be02d1d3665660d22FF9624b7BE0551ee1Ac91b").unwrap();
    assert_eq!(evm[0].address.bytes, expected.bytes);
    assert_eq!(evm[0].balance, DEV_EVM_BALANCE);
    assert_eq!(DEV_EVM_BALANCE, 123456_123_000_000_000_000_000u128);
    assert_eq!(evm[0].nonce, 0);
    assert!(evm[0].storage.is_empty());
    assert!(evm[0].code.is_empty());
}

#[test]
fn development_rejects_empty_payload() {
    let result = development_config(Some(Vec::new()));
    assert!(matches!(result, Err(GenesisError::MissingRuntimePayload)));
}

#[test]
fn development_rejects_missing_payload() {
    let result = development_config(None);
    assert!(matches!(result, Err(GenesisError::RuntimePayloadUnavailable)));
}

#[test]
fn local_testnet_metadata() {
    let spec = local_testnet_config(payload()).unwrap();
    assert_eq!(spec.name, "Local Testnet");
    assert_eq!(spec.id, "local_testnet");
    assert_eq!(spec.chain_class, ChainClass::Local);
    assert!(spec.boot_nodes.is_empty());
    assert!(spec.telemetry.is_none());
}

#[test]
fn local_testnet_counts() {
    let spec = local_testnet_config(payload()).unwrap();
    let genesis = spec.genesis;
    let block = genesis.block_authorities.unwrap();
    let finality = genesis.finality_authorities.unwrap();
    assert_eq!(block.len(), 6);
    assert_eq!(finality.len(), 6);
    let balances = genesis.balances.unwrap().balances;
    assert_eq!(balances.len(), 12);
    for (_, amount) in balances.iter() {
        assert_eq!(*amount, ENDOWMENT);
    }
}

#[test]
fn local_testnet_rejects_empty_payload() {
    let result = local_testnet_config(Some(Vec::new()));
    assert!(matches!(result, Err(GenesisError::MissingRuntimePayload)));
}

#[test]
fn local_testnet_rejects_missing_payload() {
    let result = local_testnet_config(None);
    assert!(matches!(result, Err(GenesisError::RuntimePayloadUnavailable)));
}

#[test]
fn local_testnet_preserves_label_order() {
    let labels = ["Alice", "Bob", "Charlie", "Dave", "Eve", "Ferdie"];
    let spec = local_testnet_config(payload()).unwrap();
    let genesis = spec.genesis;
    let block = genesis.block_authorities.unwrap();
    let finality = genesis.finality_authorities.unwrap();
    for (i, label) in labels.iter().enumerate() {
        let v = authority_keys_from_seed(label).unwrap();
        assert_eq!(block[i].bytes, v.block.bytes);
        assert_eq!(finality[i].0.bytes, v.finality.bytes);
        assert_eq!(finality[i].1, FINALITY_WEIGHT);
    }
}
