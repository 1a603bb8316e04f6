use vstd::prelude::*;
use crate::pubkey::Pubkey;

verus! {

/// A token holding, as far as the rules read it.
#[derive(Clone, Copy, Debug, PartialEq, Eq)]
pub struct TokenAccount {
    pub mint: Pubkey,
    pub owner: Pubkey,
    pub amount: u64,
}

/// A token type.
#[derive(Clone, Copy, Debug, PartialEq, Eq)]
pub struct Mint {
    pub key: Pubkey,
    pub decimals: u8,
}

/// The collection a token's metadata names, and whether the collection confirmed it.
#[derive(Clone, Copy, Debug, PartialEq, Eq)]
pub struct Collection {
    pub verified: bool,
    pub key: Pubkey,
}

/// A creator a token's metadata names, and whether the creator confirmed it.
#[derive(Clone, Copy, Debug, PartialEq, Eq)]
pub struct Creator {
    pub address: Pubkey,
    pub verified: bool,
    pub share: u8,
}

/// The metadata of a token, as far as the rules read it.
#[derive(Clone, Debug, PartialEq, Eq)]
pub struct MetadataAccount {
    pub mint: Pubkey,
    pub collection: Option<Collection>,
    pub creators: Option<Vec<Creator>>,
}

/// A record of the alternate asset registry: its address and its bytes.
#[derive(Clone, Debug, PartialEq, Eq)]
pub struct AssetAccount {
    pub key: Pubkey,
    pub data: Vec<u8>,
}

/// The pairing of a manager's token with the campaign it created.
#[derive(Clone, Copy, Debug, PartialEq, Eq)]
pub struct ManagerSlot {
    pub manager: Pubkey,
    pub campaign: Pubkey,
}

} // verus!
