//! Deterministic key derivation and account-identity extraction.
//!
//! A label is prefixed with the hard-derivation marker `//` and handed to the
//! scheme's phrase-to-keypair algorithm; only the 32-byte public half is
//! retained. The ledger's signer-identity rule then maps an sr25519 public
//! key to an account identifier.

use vstd::prelude::*;

use crate::GenesisError;

verus! {

/// The two signature schemes used by the initial authorities: sr25519 for
/// block production (and account identities), ed25519 for finality.
#[derive(Clone, Copy, Debug, PartialEq, Eq, Structural)]
pub enum Scheme {
    Sr25519,
    Ed25519,
}

/// The public half of a derived keypair.
#[derive(Clone, Copy, Debug, PartialEq, Eq)]
pub struct PublicKey {
    pub bytes: [u8; 32],
}

/// A ledger-wide account identifier, derived 1:1 from a public key.
#[derive(Clone, Copy, Debug, PartialEq, Eq)]
pub struct AccountId {
    pub bytes: [u8; 32],
}

/// A block-production (sr25519) authority key.
#[derive(Clone, Copy, Debug, PartialEq, Eq)]
pub struct BlockAuthorityKey {
    pub bytes: [u8; 32],
}

/// A finality-attestation (ed25519) authority key.
#[derive(Clone, Copy, Debug, PartialEq, Eq)]
pub struct FinalityAuthorityKey {
    pub bytes: [u8; 32],
}

/// One validator's dual identity: both keys derive from the same label.
#[derive(Clone, Copy, Debug, PartialEq, Eq)]
pub struct ValidatorIdentity {
    pub block: BlockAuthorityKey,
    pub finality: FinalityAuthorityKey,
}

/// The sr25519 public key that `sp_core` derives from a phrase, or `None`
/// where the phrase grammar rejects it. The result depends on the phrase
/// alone.
pub uninterp spec fn sr25519_public_of(phrase: Seq<char>) -> Option<Seq<u8>>;

/// The ed25519 public key that `sp_core` derives from a phrase, or `None`
/// where the phrase grammar rejects it. The result depends on the phrase
/// alone.
pub uninterp spec fn ed25519_public_of(phrase: Seq<char>) -> Option<Seq<u8>>;

/// The derivation phrase for a label: the label prefixed with the hard
/// derivation-path marker.
pub open spec fn phrase_of(label: Seq<char>) -> Seq<char> {
    seq!['/', '/'] + label
}

/// The public key derived for a scheme and label, or `None` where the
/// label is rejected.
pub open spec fn derived_public(scheme: Scheme, label: Seq<char>) -> Option<Seq<u8>> {
    match scheme {
        Scheme::Sr25519 => sr25519_public_of(phrase_of(label)),
        Scheme::Ed25519 => ed25519_public_of(phrase_of(label)),
    }
}

/// Relies on `sp_core::sr25519::Pair` with the `sp_core::Pair` trait:
/// `from_string` derives a keypair from the phrase alone, with no external
/// randomness, and `public` returns the pair's 32-byte public half.
#[verifier::external_body]
fn sr25519_public_from_phrase(phrase: &str) -> (r: Option<[u8; 32]>)
    ensures
        match sr25519_public_of(phrase@) {
            Some(b) => r matches Some(p) && p@ == b,
            None => r is None,
        },
{
    match <sp_core::sr25519::Pair as sp_core::Pair>::from_string(phrase, None) {
        Ok(pair) => Some(sp_core::Pair::public(&pair).0),
        Err(_) => None,
    }
}

/// Relies on `sp_core::ed25519::Pair` with the `sp_core::Pair` trait:
/// `from_string` derives a keypair from the phrase alone, with no external
/// randomness, and `public` returns the pair's 32-byte public half.
#[verifier::external_body]
fn ed25519_public_from_phrase(phrase: &str) -> (r: Option<[u8; 32]>)
    ensures
        match ed25519_public_of(phrase@) {
            Some(b) => r matches Some(p) && p@ == b,
            None => r is None,
        },
{
    match <sp_core::ed25519::Pair as sp_core::Pair>::from_string(phrase, None) {
        Ok(pair) => Some(sp_core::Pair::public(&pair).0),
        Err(_) => None,
    }
}

/// Relies on `sp_runtime::MultiSigner::into_account`: for an sr25519 public
/// key it returns an `AccountId32` holding exactly the key's 32 bytes.
#[verifier::external_body]
fn account_bytes_of_public(public: &[u8; 32]) -> (r: [u8; 32])
    ensures
        r@ == public@,
{
    let signer = sp_runtime::MultiSigner::from(sp_core::sr25519::Public::from_raw(*public));
    let account: sp_runtime::AccountId32 = sp_runtime::traits::IdentifyAccount::into_account(signer);
    account.into()
}

/// Derive the public key for `scheme` from `seed`, the phrase being
/// `"//" + seed`. Fails with `InvalidLabel` exactly where the scheme's
/// phrase grammar rejects the constructed phrase.
pub fn get_from_seed(scheme: Scheme, seed: &str) -> (r: Result<PublicKey, GenesisError>)
    ensures
        match derived_public(scheme, seed@) {
            Some(b) => r matches Ok(k) && k.bytes@ == b,
            None => r == Err::<PublicKey, GenesisError>(GenesisError::InvalidLabel),
        },
{
    let phrase = String::from_str("//").concat(seed);
    proof {
        reveal_strlit("//");
        assert(phrase@ =~= phrase_of(seed@));
    }
    let derived = match scheme {
        Scheme::Sr25519 => sr25519_public_from_phrase(phrase.as_str()),
        Scheme::Ed25519 => ed25519_public_from_phrase(phrase.as_str()),
    };
    match derived {
        Some(bytes) => Ok(PublicKey { bytes }),
        None => Err(GenesisError::InvalidLabel),
    }
}

/// The ledger's signer-identity rule: an account identifier holds exactly
/// the bytes of the (sr25519) public key it is derived from.
pub fn account_id(public: &PublicKey) -> (r: AccountId)
    ensures
        r.bytes@ == public.bytes@,
{
    let bytes = account_bytes_of_public(&public.bytes);
    AccountId { bytes }
}

/// Derive the account identifier for a label under the sr25519 scheme, as
/// the presets do for root and endowed accounts.
pub fn get_account_id_from_seed(seed: &str) -> (r: Result<AccountId, GenesisError>)
    ensures
        match derived_public(Scheme::Sr25519, seed@) {
            Some(b) => r matches Ok(a) && a.bytes@ == b,
            None => r == Err::<AccountId, GenesisError>(GenesisError::InvalidLabel),
        },
{
    let public = get_from_seed(Scheme::Sr25519, seed)?;
    Ok(account_id(&public))
}

/// Derive one validator's dual identity: both halves from the same label,
/// the block half under sr25519 and the finality half under ed25519.
pub fn authority_keys_from_seed(seed: &str) -> (r: Result<ValidatorIdentity, GenesisError>)
    ensures
        match (derived_public(Scheme::Sr25519, seed@), derived_public(Scheme::Ed25519, seed@)) {
            (Some(a), Some(g)) => r matches Ok(v) && v.block.bytes@ == a && v.finality.bytes@ == g,
            _ => r == Err::<ValidatorIdentity, GenesisError>(GenesisError::InvalidLabel),
        },
{
    let block = get_from_seed(Scheme::Sr25519, seed)?;
    let finality = get_from_seed(Scheme::Ed25519, seed)?;
    Ok(ValidatorIdentity {
        block: BlockAuthorityKey { bytes: block.bytes },
        finality: FinalityAuthorityKey { bytes: finality.bytes },
    })
}

/// Determinism of derivation: two derivations from the same scheme and
/// label yield the same public key.
pub proof fn lemma_derivation_deterministic(
    scheme: Scheme,
    label: Seq<char>,
    k1: Seq<u8>,
    k2: Seq<u8>,
)
    requires
        derived_public(scheme, label) == Some(k1),
        derived_public(scheme, label) == Some(k2),
    ensures
        k1 == k2,
{
}

/// Pairing determinism: two validator identities whose halves derive from
/// the same label are the same pair.
pub proof fn lemma_validator_pairing_deterministic(
    label: Seq<char>,
    v1: ValidatorIdentity,
    v2: ValidatorIdentity,
)
    requires
        derived_public(Scheme::Sr25519, label) == Some(v1.block.bytes@),
        derived_public(Scheme::Ed25519, label) == Some(v1.finality.bytes@),
        derived_public(Scheme::Sr25519, label) == Some(v2.block.bytes@),
        derived_public(Scheme::Ed25519, label) == Some(v2.finality.bytes@),
    ensures
        v1.block.bytes@ == v2.block.bytes@,
        v1.finality.bytes@ == v2.finality.bytes@,
{
}

} // verus!
