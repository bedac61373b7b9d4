//! Named chain presets: parameterized factories that derive the concrete
//! label lists, assemble the genesis state and wrap it with deployment
//! metadata.
//!
//! The runtime payload the deployment was built with is handed in by the
//! caller; `None` means the build carries no payload at all, which is a
//! configuration error distinct from an empty payload.

use vstd::prelude::*;

use crate::evm_account::parse_address;
use crate::genesis::{
    assemble, evm_seeds_ok, EvmSeed, GenesisState, ENDOWMENT, FINALITY_WEIGHT,
};
use crate::keys::{
    authority_keys_from_seed, derived_public, get_account_id_from_seed, Scheme,
};
use crate::GenesisError;

verus! {

/// The balance seeded into the well-known EVM account.
pub const DEV_EVM_BALANCE: u128 = 123456123000000000000000;

/// The chain classification a descriptor carries.
#[derive(Clone, Copy, Debug, PartialEq, Eq, Structural)]
pub enum ChainClass {
    /// Single-node development chain.
    Development,
    /// Multi-node local test chain.
    Local,
    /// Production-like deployment.
    Live,
}

/// The unit handed to the node's storage bootstrap: the genesis state with
/// its deployment metadata. The metadata is passed through verbatim. The
/// state is built once, when the preset is evaluated, and is to be treated
/// as immutable thereafter.
#[derive(Debug)]
pub struct ChainSpecDescriptor {
    pub name: String,
    pub id: String,
    pub chain_class: ChainClass,
    pub boot_nodes: Vec<String>,
    pub telemetry: Option<String>,
    pub protocol_id: Option<String>,
    pub properties: Option<String>,
    pub extensions: Option<String>,
    pub genesis: GenesisState,
}

/// The label every preset derives the root account from.
pub open spec fn root_label() -> Seq<char> {
    "Alice"@
}

/// The validator labels of the development preset.
pub open spec fn dev_validator_labels() -> Seq<Seq<char>> {
    seq!["Alice"@]
}

/// The endowed-account labels of the development preset.
pub open spec fn dev_endowed_labels() -> Seq<Seq<char>> {
    seq!["Alice"@, "Bob"@, "Alice//stash"@, "Bob//stash"@]
}

/// The validator labels of the local-testnet preset.
pub open spec fn local_validator_labels() -> Seq<Seq<char>> {
    seq!["Alice"@, "Bob"@, "Charlie"@, "Dave"@, "Eve"@, "Ferdie"@]
}

/// The endowed-account labels of the local-testnet preset.
pub open spec fn local_endowed_labels() -> Seq<Seq<char>> {
    seq![
        "Alice"@,
        "Bob"@,
        "Charlie"@,
        "Dave"@,
        "Eve"@,
        "Ferdie"@,
        "Alice//stash"@,
        "Bob//stash"@,
        "Charlie//stash"@,
        "Dave//stash"@,
        "Eve//stash"@,
        "Ferdie//stash"@,
    ]
}

/// The literal well-known EVM address both presets seed.
pub open spec fn well_known_evm_address() -> Seq<char> {
    "6Be02d1d3665660d22FF9624b7BE0551ee1Ac91b"@
}

/// Every label derives under both authority schemes.
pub open spec fn validator_labels_ok(ls: Seq<Seq<char>>) -> bool {
    forall|i: int| 0 <= i < ls.len() ==> derived_public(Scheme::Sr25519, ls[i]) is Some
        && derived_public(Scheme::Ed25519, ls[i]) is Some
}

/// Every label derives under the account (sr25519) scheme.
pub open spec fn account_labels_ok(ls: Seq<Seq<char>>) -> bool {
    forall|i: int| 0 <= i < ls.len() ==> derived_public(Scheme::Sr25519, ls[i]) is Some
}

/// What a preset's genesis state holds, in terms of its label lists: each
/// section populated from the keys the labels derive to, in label order,
/// plus the one well-known EVM account.
pub open spec fn preset_genesis_ok(
    g: GenesisState,
    payload: Seq<u8>,
    vlabels: Seq<Seq<char>>,
    endowed_labels: Seq<Seq<char>>,
) -> bool {
    &&& g.system matches Some(s) && s.code@ == payload
    &&& g.balances matches Some(b) && b.balances@.len() == endowed_labels.len() && (forall|i: int|
        0 <= i < endowed_labels.len() ==> (derived_public(Scheme::Sr25519, endowed_labels[i])
            matches Some(k) && (#[trigger] b.balances@[i]).0.bytes@ == k && b.balances@[i].1
            == ENDOWMENT))
    &&& g.block_authorities matches Some(ba) && ba@.len() == vlabels.len() && (forall|i: int|
        0 <= i < vlabels.len() ==> (derived_public(Scheme::Sr25519, vlabels[i]) matches Some(k)
            && (#[trigger] ba@[i]).bytes@ == k))
    &&& g.finality_authorities matches Some(fa) && fa@.len() == vlabels.len() && (forall|i: int|
        0 <= i < vlabels.len() ==> (derived_public(Scheme::Ed25519, vlabels[i]) matches Some(k)
            && (#[trigger] fa@[i]).0.bytes@ == k && fa@[i].1 == FINALITY_WEIGHT))
    &&& g.sudo matches Some(a) && (derived_public(Scheme::Sr25519, root_label()) matches Some(k)
        && a.bytes@ == k)
    &&& g.evm_accounts matches Some(ea) && ea@.len() == 1 && (parse_address(
        well_known_evm_address(),
    ) matches Some(ab) && ea@[0].address.bytes@ == ab) && ea@[0].balance == DEV_EVM_BALANCE
        && ea@[0].nonce == 0 && ea@[0].wf()
    &&& g.ethereum is Some
    &&& g.council matches Some(c) && c.members@.len() == 0
    &&& g.session is None
    &&& g.staking is None
}

/// The literal well-known EVM address is well formed: it parses to 20
/// bytes.
pub proof fn lemma_well_known_address_parses()
    ensures
        parse_address(well_known_evm_address()) is Some,
{
    reveal_strlit("6Be02d1d3665660d22FF9624b7BE0551ee1Ac91b");
    let s = well_known_evm_address();
    assert(s.len() == 40);
    assert(s[1] != 'x' && s[1] != 'X');
    assert(crate::evm_account::strip_hex_prefix(s) =~= s);
    assert(crate::evm_account::all_hex_digits(s));
}

fn well_known_evm_seed() -> (r: EvmSeed)
    ensures
        r.address_hex@ == well_known_evm_address(),
        r.balance == DEV_EVM_BALANCE,
        r.nonce == 0,
{
    EvmSeed {
        address_hex: String::from_str("6Be02d1d3665660d22FF9624b7BE0551ee1Ac91b"),
        balance: DEV_EVM_BALANCE,
        nonce: 0,
    }
}

/// The development preset: one validator ("Alice"), root and endowments
/// from the fixed four-label list, classified `Development`, no bootnodes,
/// telemetry, protocol id, properties or extensions.
pub fn development_config(runtime_payload: Option<Vec<u8>>) -> (r: Result<
    ChainSpecDescriptor,
    GenesisError,
>)
    ensures
        r == Err::<ChainSpecDescriptor, GenesisError>(GenesisError::RuntimePayloadUnavailable)
            <==> runtime_payload is None,
        r == Err::<ChainSpecDescriptor, GenesisError>(GenesisError::MissingRuntimePayload) <==> (
        runtime_payload matches Some(p) && p@.len() == 0),
        (runtime_payload matches Some(p) && p@.len() > 0) ==> (r == Err::<
            ChainSpecDescriptor,
            GenesisError,
        >(GenesisError::InvalidLabel) <==> !(validator_labels_ok(dev_validator_labels())
            && account_labels_ok(dev_endowed_labels()))),
        (runtime_payload matches Some(p) && p@.len() > 0 && validator_labels_ok(
            dev_validator_labels(),
        ) && account_labels_ok(dev_endowed_labels())) ==> r is Ok,
        r matches Ok(d) ==> {
            &&& d.name@ == "Development"@
            &&& d.id@ == "dev"@
            &&& d.chain_class == ChainClass::Development
            &&& d.boot_nodes@.len() == 0
            &&& d.telemetry is None
            &&& d.protocol_id is None
            &&& d.properties is None
            &&& d.extensions is None
            &&& runtime_payload matches Some(p) && preset_genesis_ok(
                d.genesis,
                p@,
                dev_validator_labels(),
                dev_endowed_labels(),
            )
            &&& d.genesis.wf()
        },
{
    let payload = match runtime_payload {
        Some(p) => p,
        None => { return Err(GenesisError::RuntimePayloadUnavailable); },
    };
    if payload.len() == 0 {
        return Err(GenesisError::MissingRuntimePayload);
    }
    proof {
        assert(dev_validator_labels()[0] == "Alice"@);
        assert(dev_endowed_labels()[0] == "Alice"@);
        assert(dev_endowed_labels()[1] == "Bob"@);
        assert(dev_endowed_labels()[2] == "Alice//stash"@);
        assert(dev_endowed_labels()[3] == "Bob//stash"@);
    }
    let v_alice = match authority_keys_from_seed("Alice") {
        Ok(v) => v,
        Err(e) => { return Err(e); },
    };
    let a_alice = match get_account_id_from_seed("Alice") {
        Ok(a) => a,
        Err(e) => { return Err(e); },
    };
    let a_bob = match get_account_id_from_seed("Bob") {
        Ok(a) => a,
        Err(e) => { return Err(e); },
    };
    let a_alice_stash = match get_account_id_from_seed("Alice//stash") {
        Ok(a) => a,
        Err(e) => { return Err(e); },
    };
    let a_bob_stash = match get_account_id_from_seed("Bob//stash") {
        Ok(a) => a,
        Err(e) => { return Err(e); },
    };
    proof {
        assert forall|i: int| 0 <= i < dev_validator_labels().len() implies derived_public(
            Scheme::Sr25519,
            dev_validator_labels()[i],
        ) is Some && derived_public(Scheme::Ed25519, dev_validator_labels()[i]) is Some by {
            assert(i == 0);
        }
        assert(validator_labels_ok(dev_validator_labels()));
        assert forall|i: int| 0 <= i < dev_endowed_labels().len() implies derived_public(
            Scheme::Sr25519,
            dev_endowed_labels()[i],
        ) is Some by {
            if i == 0 {
            } else if i == 1 {
            } else if i == 2 {
            } else {
                assert(i == 3);
            }
        }
        assert(account_labels_ok(dev_endowed_labels()));
    }
    let validators = vec![v_alice];
    let endowed = vec![a_alice, a_bob, a_alice_stash, a_bob_stash];
    let seeds = vec![well_known_evm_seed()];
    let ghost payload_view = payload@;
    let ghost seeds_view = seeds@;
    proof {
        assert(seeds_view[0].address_hex@ == well_known_evm_address());
    }
    let genesis = match assemble(payload, validators, a_alice, endowed, seeds) {
        Ok(g) => g,
        Err(e) => {
            proof {
                assert(!evm_seeds_ok(seeds_view));
                lemma_well_known_address_parses();
                assert forall|i: int| 0 <= i < seeds_view.len() implies parse_address(
                    (#[trigger] seeds_view[i]).address_hex@,
                ) is Some by {
                    assert(i == 0);
                }
                assert(false);
            }
            return Err(e);
        },
    };
    proof {
        assert(evm_seeds_ok(seeds_view));
        assert(parse_address(seeds_view[0].address_hex@) is Some);
        assert(preset_genesis_ok(
            genesis,
            payload_view,
            dev_validator_labels(),
            dev_endowed_labels(),
        ));
    }
    Ok(ChainSpecDescriptor {
        name: String::from_str("Development"),
        id: String::from_str("dev"),
        chain_class: ChainClass::Development,
        boot_nodes: Vec::new(),
        telemetry: None,
        protocol_id: None,
        properties: None,
        extensions: None,
        genesis,
    })
}

/// The local-testnet preset: six validators ("Alice" through "Ferdie"),
/// root from "Alice", the six plus their stash variants endowed,
/// classified `Local`, no bootnodes, telemetry, protocol id, properties or
/// extensions.
pub fn local_testnet_config(runtime_payload: Option<Vec<u8>>) -> (r: Result<
    ChainSpecDescriptor,
    GenesisError,
>)
    ensures
        r == Err::<ChainSpecDescriptor, GenesisError>(GenesisError::RuntimePayloadUnavailable)
            <==> runtime_payload is None,
        r == Err::<ChainSpecDescriptor, GenesisError>(GenesisError::MissingRuntimePayload) <==> (
        runtime_payload matches Some(p) && p@.len() == 0),
        (runtime_payload matches Some(p) && p@.len() > 0) ==> (r == Err::<
            ChainSpecDescriptor,
            GenesisError,
        >(GenesisError::InvalidLabel) <==> !(validator_labels_ok(local_validator_labels())
            && account_labels_ok(local_endowed_labels()))),
        (runtime_payload matches Some(p) && p@.len() > 0 && validator_labels_ok(
            local_validator_labels(),
        ) && account_labels_ok(local_endowed_labels())) ==> r is Ok,
        r matches Ok(d) ==> {
            &&& d.name@ == "Local Testnet"@
            &&& d.id@ == "local_testnet"@
            &&& d.chain_class == ChainClass::Local
            &&& d.boot_nodes@.len() == 0
            &&& d.telemetry is None
            &&& d.protocol_id is None
            &&& d.properties is None
            &&& d.extensions is None
            &&& runtime_payload matches Some(p) && preset_genesis_ok(
                d.genesis,
                p@,
                local_validator_labels(),
                local_endowed_labels(),
            )
            &&& d.genesis.wf()
        },
{
    let payload = match runtime_payload {
        Some(p) => p,
        None => { return Err(GenesisError::RuntimePayloadUnavailable); },
    };
    if payload.len() == 0 {
        return Err(GenesisError::MissingRuntimePayload);
    }
    proof {
        assert(local_validator_labels()[0] == "Alice"@);
        assert(local_validator_labels()[1] == "Bob"@);
        assert(local_validator_labels()[2] == "Charlie"@);
        assert(local_validator_labels()[3] == "Dave"@);
        assert(local_validator_labels()[4] == "Eve"@);
        assert(local_validator_labels()[5] == "Ferdie"@);
        assert(local_endowed_labels()[0] == "Alice"@);
        assert(local_endowed_labels()[1] == "Bob"@);
        assert(local_endowed_labels()[2] == "Charlie"@);
        assert(local_endowed_labels()[3] == "Dave"@);
        assert(local_endowed_labels()[4] == "Eve"@);
        assert(local_endowed_labels()[5] == "Ferdie"@);
        assert(local_endowed_labels()[6] == "Alice//stash"@);
        assert(local_endowed_labels()[7] == "Bob//stash"@);
        assert(local_endowed_labels()[8] == "Charlie//stash"@);
        assert(local_endowed_labels()[9] == "Dave//stash"@);
        assert(local_endowed_labels()[10] == "Eve//stash"@);
        assert(local_endowed_labels()[11] == "Ferdie//stash"@);
    }
    let v_alice = match authority_keys_from_seed("Alice") {
        Ok(v) => v,
        Err(e) => { return Err(e); },
    };
    let v_bob = match authority_keys_from_seed("Bob") {
        Ok(v) => v,
        Err(e) => { return Err(e); },
    };
    let v_charlie = match authority_keys_from_seed("Charlie") {
        Ok(v) => v,
        Err(e) => { return Err(e); },
    };
    let v_dave = match authority_keys_from_seed("Dave") {
        Ok(v) => v,
        Err(e) => { return Err(e); },
    };
    let v_eve = match authority_keys_from_seed("Eve") {
        Ok(v) => v,
        Err(e) => { return Err(e); },
    };
    let v_ferdie = match authority_keys_from_seed("Ferdie") {
        Ok(v) => v,
        Err(e) => { return Err(e); },
    };
    let a_alice = match get_account_id_from_seed("Alice") {
        Ok(a) => a,
        Err(e) => { return Err(e); },
    };
    let a_bob = match get_account_id_from_seed("Bob") {
        Ok(a) => a,
        Err(e) => { return Err(e); },
    };
    let a_charlie = match get_account_id_from_seed("Charlie") {
        Ok(a) => a,
        Err(e) => { return Err(e); },
    };
    let a_dave = match get_account_id_from_seed("Dave") {
        Ok(a) => a,
        Err(e) => { return Err(e); },
    };
    let a_eve = match get_account_id_from_seed("Eve") {
        Ok(a) => a,
        Err(e) => { return Err(e); },
    };
    let a_ferdie = match get_account_id_from_seed("Ferdie") {
        Ok(a) => a,
        Err(e) => { return Err(e); },
    };
    let s_alice = match get_account_id_from_seed("Alice//stash") {
        Ok(a) => a,
        Err(e) => { return Err(e); },
    };
    let s_bob = match get_account_id_from_seed("Bob//stash") {
        Ok(a) => a,
        Err(e) => { return Err(e); },
    };
    let s_charlie = match get_account_id_from_seed("Charlie//stash") {
        Ok(a) => a,
        Err(e) => { return Err(e); },
    };
    let s_dave = match get_account_id_from_seed("Dave//stash") {
        Ok(a) => a,
        Err(e) => { return Err(e); },
    };
    let s_eve = match get_account_id_from_seed("Eve//stash") {
        Ok(a) => a,
        Err(e) => { return Err(e); },
    };
    let s_ferdie = match get_account_id_from_seed("Ferdie//stash") {
        Ok(a) => a,
        Err(e) => { return Err(e); },
    };
    proof {
        assert forall|i: int| 0 <= i < local_validator_labels().len() implies derived_public(
            Scheme::Sr25519,
            local_validator_labels()[i],
        ) is Some && derived_public(Scheme::Ed25519, local_validator_labels()[i]) is Some by {
            if i == 0 {
            } else if i == 1 {
            } else if i == 2 {
            } else if i == 3 {
            } else if i == 4 {
            } else {
                assert(i == 5);
            }
        }
        assert(validator_labels_ok(local_validator_labels()));
        assert forall|i: int| 0 <= i < local_endowed_labels().len() implies derived_public(
            Scheme::Sr25519,
            local_endowed_labels()[i],
        ) is Some by {
            if i == 0 {
            } else if i == 1 {
            } else if i == 2 {
            } else if i == 3 {
            } else if i == 4 {
            } else if i == 5 {
            } else if i == 6 {
            } else if i == 7 {
            } else if i == 8 {
            } else if i == 9 {
            } else if i == 10 {
            } else {
                assert(i == 11);
            }
        }
        assert(account_labels_ok(local_endowed_labels()));
    }
    let validators = vec![v_alice, v_bob, v_charlie, v_dave, v_eve, v_ferdie];
    let endowed = vec![
        a_alice,
        a_bob,
        a_charlie,
        a_dave,
        a_eve,
        a_ferdie,
        s_alice,
        s_bob,
        s_charlie,
        s_dave,
        s_eve,
        s_ferdie,
    ];
    let seeds = vec![well_known_evm_seed()];
    let ghost payload_view = payload@;
    let ghost seeds_view = seeds@;
    proof {
        assert(seeds_view[0].address_hex@ == well_known_evm_address());
    }
    let genesis = match assemble(payload, validators, a_alice, endowed, seeds) {
        Ok(g) => g,
        Err(e) => {
            proof {
                assert(!evm_seeds_ok(seeds_view));
                lemma_well_known_address_parses();
                assert forall|i: int| 0 <= i < seeds_view.len() implies parse_address(
                    (#[trigger] seeds_view[i]).address_hex@,
                ) is Some by {
                    assert(i == 0);
                }
                assert(false);
            }
            return Err(e);
        },
    };
    proof {
        assert(evm_seeds_ok(seeds_view));
        assert(parse_address(seeds_view[0].address_hex@) is Some);
        assert(preset_genesis_ok(
            genesis,
            payload_view,
            local_validator_labels(),
            local_endowed_labels(),
        ));
    }
    Ok(ChainSpecDescriptor {
        name: String::from_str("Local Testnet"),
        id: String::from_str("local_testnet"),
        chain_class: ChainClass::Local,
        boot_nodes: Vec::new(),
        telemetry: None,
        protocol_id: None,
        properties: None,
        extensions: None,
        genesis,
    })
}

/// Order preservation: in a preset genesis the block authority and the
/// finality authority at each index derive from the same label.
pub proof fn lemma_preset_order_preserved(
    g: GenesisState,
    payload: Seq<u8>,
    vlabels: Seq<Seq<char>>,
    endowed_labels: Seq<Seq<char>>,
    i: int,
)
    requires
        preset_genesis_ok(g, payload, vlabels, endowed_labels),
        0 <= i < vlabels.len(),
    ensures
        derived_public(Scheme::Sr25519, vlabels[i]) matches Some(k)
            && g.block_authorities->Some_0@[i].bytes@ == k,
        derived_public(Scheme::Ed25519, vlabels[i]) matches Some(k)
            && g.finality_authorities->Some_0@[i].0.bytes@ == k,
        g.finality_authorities->Some_0@[i].1 == FINALITY_WEIGHT,
{
    let ba = g.block_authorities->Some_0@;
    let fa = g.finality_authorities->Some_0@;
    assert(ba[i].bytes@ == ba[i].bytes@);
    assert(fa[i].0.bytes@ == fa[i].0.bytes@);
}

} // verus!
