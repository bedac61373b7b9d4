//! Assembly of the aggregate genesis state.
//!
//! Given the runtime payload, the initial validator set, the root account,
//! the endowment list and the EVM seed accounts, assembly either returns one
//! fully populated, internally consistent state or fails atomically. Sections
//! are individually present or absent; an absent section means the subsystem
//! starts uninitialized.

use vstd::prelude::*;

use crate::evm_account::{build_evm_account, parse_address, EvmAccount};
use crate::keys::{AccountId, BlockAuthorityKey, FinalityAuthorityKey, ValidatorIdentity};
use crate::GenesisError;

verus! {

/// The starting balance assigned to every endowed account: 2^60 units.
pub const ENDOWMENT: u128 = 1152921504606846976;

/// The weight given to every initial finality authority.
pub const FINALITY_WEIGHT: u64 = 1;

/// The system section: the runtime's executable payload.
#[derive(Clone, Debug, PartialEq, Eq)]
pub struct SystemSection {
    pub code: Vec<u8>,
}

/// The balances section: account identifiers with their starting balances,
/// in endowment-list order; duplicate identifiers keep every entry.
#[derive(Clone, Debug, PartialEq, Eq)]
pub struct BalancesSection {
    pub balances: Vec<(AccountId, u128)>,
}

/// The council section: a collective that starts with no members.
#[derive(Clone, Debug, PartialEq, Eq)]
pub struct CouncilSection {
    pub members: Vec<AccountId>,
}

/// The bootstrap marker of the secondary execution environment; it carries
/// no data of its own.
#[derive(Clone, Copy, Debug, PartialEq, Eq, Structural)]
pub struct EthereumSection {}

/// The session-rotation section; left absent at genesis.
#[derive(Clone, Copy, Debug, PartialEq, Eq, Structural)]
pub struct SessionSection {}

/// The staking section; left absent at genesis.
#[derive(Clone, Copy, Debug, PartialEq, Eq, Structural)]
pub struct StakingSection {}

/// The ledger's state at block zero. Each section is independently present
/// or absent; absence means the subsystem starts uninitialized.
#[derive(Clone, Debug, PartialEq, Eq)]
pub struct GenesisState {
    pub system: Option<SystemSection>,
    pub balances: Option<BalancesSection>,
    pub block_authorities: Option<Vec<BlockAuthorityKey>>,
    pub finality_authorities: Option<Vec<(FinalityAuthorityKey, u64)>>,
    pub sudo: Option<AccountId>,
    pub evm_accounts: Option<Vec<EvmAccount>>,
    pub ethereum: Option<EthereumSection>,
    pub council: Option<CouncilSection>,
    pub session: Option<SessionSection>,
    pub staking: Option<StakingSection>,
}

impl GenesisState {
    /// The pairing invariant: block and finality authorities are produced
    /// pairwise, so their counts agree and neither section stands alone.
    pub open spec fn authorities_paired(self) -> bool {
        match (self.block_authorities, self.finality_authorities) {
            (Some(b), Some(f)) => b@.len() == f@.len(),
            (None, None) => true,
            _ => false,
        }
    }

    /// A well-formed assembled state: the runtime payload is present and
    /// nonempty, and the authority sections are paired.
    pub open spec fn wf(self) -> bool {
        &&& self.system matches Some(s) && s.code@.len() > 0
        &&& self.authorities_paired()
    }
}

/// One EVM seed entry: a hex address with the balance and nonce to seed it
/// with.
#[derive(Clone, Debug, PartialEq, Eq)]
pub struct EvmSeed {
    pub address_hex: String,
    pub balance: u128,
    pub nonce: u64,
}

/// The balances section built from an endowment list: every account gets
/// the fixed endowment, in input order.
pub open spec fn balances_of(endowed: Seq<AccountId>) -> Seq<(AccountId, u128)> {
    endowed.map_values(|a: AccountId| (a, ENDOWMENT))
}

/// The ordered projection of the validator set onto its block halves.
pub open spec fn block_authorities_of(vs: Seq<ValidatorIdentity>) -> Seq<BlockAuthorityKey> {
    vs.map_values(|v: ValidatorIdentity| v.block)
}

/// The ordered projection of the validator set onto its finality halves,
/// each with the fixed weight.
pub open spec fn finality_authorities_of(vs: Seq<ValidatorIdentity>) -> Seq<
    (FinalityAuthorityKey, u64),
> {
    vs.map_values(|v: ValidatorIdentity| (v.finality, FINALITY_WEIGHT))
}

/// Every seed entry's address string is well formed.
pub open spec fn evm_seeds_ok(seeds: Seq<EvmSeed>) -> bool {
    forall|i: int| 0 <= i < seeds.len() ==> parse_address(seeds[i].address_hex@) is Some
}

/// The account built from one seed entry: its parsed address, balance and
/// nonce, with empty storage and code.
pub open spec fn evm_account_matches(a: EvmAccount, seed: EvmSeed) -> bool {
    &&& parse_address(seed.address_hex@) matches Some(b) && a.address.bytes@ == b
    &&& a.balance == seed.balance
    &&& a.nonce == seed.nonce
    &&& a.wf()
}

/// What a successful assembly holds, section by section.
pub open spec fn assembled(
    g: GenesisState,
    runtime_payload: Seq<u8>,
    validators: Seq<ValidatorIdentity>,
    root: AccountId,
    endowed: Seq<AccountId>,
    evm_seeds: Seq<EvmSeed>,
) -> bool {
    &&& g.system matches Some(s) && s.code@ == runtime_payload
    &&& g.balances matches Some(b) && b.balances@ == balances_of(endowed)
    &&& g.block_authorities matches Some(ba) && ba@ == block_authorities_of(validators)
    &&& g.finality_authorities matches Some(fa) && fa@ == finality_authorities_of(validators)
    &&& g.sudo == Some(root)
    &&& g.evm_accounts matches Some(ea) && ea@.len() == evm_seeds.len() && (forall|i: int|
        0 <= i < evm_seeds.len() ==> evm_account_matches(ea@[i], evm_seeds[i]))
    &&& g.ethereum is Some
    &&& g.council matches Some(c) && c.members@.len() == 0
    &&& g.session is None
    &&& g.staking is None
}

/// Assemble the genesis state, atomically: either every section of the
/// result is as documented, or assembly fails with the one error that
/// names the violated precondition. The payload must be nonempty; every
/// seed address must decode to 20 bytes.
pub fn assemble(
    runtime_payload: Vec<u8>,
    validators: Vec<ValidatorIdentity>,
    root: AccountId,
    endowed: Vec<AccountId>,
    evm_seeds: Vec<EvmSeed>,
) -> (r: Result<GenesisState, GenesisError>)
    ensures
        r is Err && r == Err::<GenesisState, GenesisError>(GenesisError::MissingRuntimePayload)
            <==> runtime_payload@.len() == 0,
        runtime_payload@.len() > 0 ==> (r is Err <==> !evm_seeds_ok(evm_seeds@)),
        runtime_payload@.len() > 0 && r is Err ==> r == Err::<GenesisState, GenesisError>(
            GenesisError::MalformedAddress,
        ),
        r matches Ok(g) ==> assembled(
            g,
            runtime_payload@,
            validators@,
            root,
            endowed@,
            evm_seeds@,
        ) && g.wf(),
{
    if runtime_payload.len() == 0 {
        return Err(GenesisError::MissingRuntimePayload);
    }
    let mut balances: Vec<(AccountId, u128)> = Vec::new();
    let mut i: usize = 0;
    while i < endowed.len()
        invariant
            i <= endowed@.len(),
            balances@ =~= balances_of(endowed@.take(i as int)),
        decreases endowed@.len() - i,
    {
        balances.push((endowed[i], ENDOWMENT));
        assert(balances@ =~= balances_of(endowed@.take(i + 1)));
        i = i + 1;
    }
    proof {
        assert(endowed@.take(endowed@.len() as int) =~= endowed@);
    }
    let mut block_auths: Vec<BlockAuthorityKey> = Vec::new();
    let mut finality_auths: Vec<(FinalityAuthorityKey, u64)> = Vec::new();
    let mut j: usize = 0;
    while j < validators.len()
        invariant
            j <= validators@.len(),
            block_auths@ =~= block_authorities_of(validators@.take(j as int)),
            finality_auths@ =~= finality_authorities_of(validators@.take(j as int)),
        decreases validators@.len() - j,
    {
        block_auths.push(validators[j].block);
        finality_auths.push((validators[j].finality, FINALITY_WEIGHT));
        assert(block_auths@ =~= block_authorities_of(validators@.take(j + 1)));
        assert(finality_auths@ =~= finality_authorities_of(validators@.take(j + 1)));
        j = j + 1;
    }
    proof {
        assert(validators@.take(validators@.len() as int) =~= validators@);
    }
    let mut evm_accounts: Vec<EvmAccount> = Vec::new();
    let mut k: usize = 0;
    while k < evm_seeds.len()
        invariant
            runtime_payload@.len() > 0,
            k <= evm_seeds@.len(),
            evm_accounts@.len() == k,
            forall|m: int| 0 <= m < k ==> evm_account_matches(evm_accounts@[m], evm_seeds@[m]),
        decreases evm_seeds@.len() - k,
    {
        let seed = &evm_seeds[k];
        match build_evm_account(seed.address_hex.as_str(), seed.balance, seed.nonce) {
            Ok(account) => { evm_accounts.push(account); },
            Err(_) => {
                assert(parse_address(evm_seeds@[k as int].address_hex@) is None);
                return Err(GenesisError::MalformedAddress);
            },
        }
        k = k + 1;
    }
    Ok(GenesisState {
        system: Some(SystemSection { code: runtime_payload }),
        balances: Some(BalancesSection { balances }),
        block_authorities: Some(block_auths),
        finality_authorities: Some(finality_auths),
        sudo: Some(root),
        evm_accounts: Some(evm_accounts),
        ethereum: Some(EthereumSection {}),
        council: Some(CouncilSection { members: Vec::new() }),
        session: None,
        staking: None,
    })
}

/// Pairing invariant of assembly: any successfully assembled state carries
/// as many block authorities as finality authorities, one of each per
/// validator, in validator order.
pub proof fn lemma_assembled_authorities_paired(
    g: GenesisState,
    runtime_payload: Seq<u8>,
    validators: Seq<ValidatorIdentity>,
    root: AccountId,
    endowed: Seq<AccountId>,
    evm_seeds: Seq<EvmSeed>,
)
    requires
        assembled(g, runtime_payload, validators, root, endowed, evm_seeds),
    ensures
        g.authorities_paired(),
        g.block_authorities->Some_0@.len() == validators.len(),
        g.finality_authorities->Some_0@.len() == validators.len(),
        forall|i: int| 0 <= i < validators.len()
            ==> g.block_authorities->Some_0@[i] == validators[i].block,
        forall|i: int| 0 <= i < validators.len()
            ==> g.finality_authorities->Some_0@[i] == (validators[i].finality, FINALITY_WEIGHT),
{
}

} // verus!
