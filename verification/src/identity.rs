use vstd::prelude::*;
use crate::errors::ErrorCodes;
use crate::ledger::{AssetAccount, MetadataAccount, TokenAccount};
use crate::pubkey::Pubkey;
use crate::state::accounts::{IdentityType, NftCampaignConfig, PlayerIdentity};
use crate::state::common::{in_collection, metadata_is_collection, SimplifiedAssetV1, UpdateAuthority};

verus! {

/// The verdict on a token offered as proof of membership: the metadata must be
/// that of the token, `user` must own the token and hold exactly one unit, and the
/// metadata must name `collection`. The first of these that fails decides.
pub open spec fn nft_fault(
    collection: Pubkey,
    user: Pubkey,
    token: TokenAccount,
    metadata: MetadataAccount,
) -> Option<ErrorCodes> {
    if metadata.mint != token.mint {
        Some(ErrorCodes::MetadataMismatch)
    } else if token.owner != user {
        Some(ErrorCodes::TokenOwnerMismatch)
    } else if token.amount != 1 {
        Some(ErrorCodes::OwnerBalanceMismatch)
    } else if !in_collection(&metadata, &collection) {
        Some(ErrorCodes::CollectionProofInvalid)
    } else {
        None
    }
}

/// Checks a token offered as proof of membership in `collection`.
pub fn check_nft(
    collection: &Pubkey,
    user: &Pubkey,
    token: &TokenAccount,
    metadata: &MetadataAccount,
) -> (r: Result<(), ErrorCodes>)
    ensures
        r == match nft_fault(*collection, *user, *token, *metadata) {
            Some(e) => Err::<(), ErrorCodes>(e),
            None => Ok::<(), ErrorCodes>(()),
        },
{
    if metadata.mint != token.mint {
        return Err(ErrorCodes::MetadataMismatch);
    }
    if token.owner != *user {
        return Err(ErrorCodes::TokenOwnerMismatch);
    }
    if token.amount != 1 {
        return Err(ErrorCodes::OwnerBalanceMismatch);
    }
    match metadata_is_collection(metadata, collection) {
        Ok(()) => Ok(()),
        Err(_) => Err(ErrorCodes::CollectionProofInvalid),
    }
}

/// The verdict on an asset of the alternate registry offered as proof: its bytes
/// must hold an asset, `user` must be its owner, the campaign must be gated, and
/// the asset must be under the authority of the gating collection.
pub open spec fn asset_fault(
    nft_config: Option<NftCampaignConfig>,
    user: Pubkey,
    asset: AssetAccount,
) -> Option<ErrorCodes> {
    match SimplifiedAssetV1::parse(asset.data@) {
        None => Some(ErrorCodes::AccountDidNotDeserialize),
        Some(head) => if head.owner != user {
            Some(ErrorCodes::TokenOwnerMismatch)
        } else {
            match nft_config {
                None => Some(ErrorCodes::InvalidInput),
                Some(config) => if head.update_authority != UpdateAuthority::Collection(
                    config.collection,
                ) {
                    Some(ErrorCodes::OwnerBalanceMismatch)
                } else {
                    None
                },
            }
        },
    }
}

/// Checks an asset of the alternate registry offered as proof.
pub fn check_core_asset(
    nft_config: &Option<NftCampaignConfig>,
    user: &Pubkey,
    asset: &AssetAccount,
) -> (r: Result<(), ErrorCodes>)
    ensures
        r == match asset_fault(*nft_config, *user, *asset) {
            Some(e) => Err::<(), ErrorCodes>(e),
            None => Ok::<(), ErrorCodes>(()),
        },
{
    let head: SimplifiedAssetV1 = match SimplifiedAssetV1::from_account_info(
        asset.data.as_slice(),
    ) {
        Ok(h) => h,
        Err(e) => {
            return Err(e);
        },
    };
    if head.owner != *user {
        return Err(ErrorCodes::TokenOwnerMismatch);
    }
    match nft_config {
        None => Err(ErrorCodes::InvalidInput),
        Some(config) => match head.update_authority {
            UpdateAuthority::Collection(c) => if c == config.collection {
                Ok(())
            } else {
                Err(ErrorCodes::OwnerBalanceMismatch)
            },
            _ => Err(ErrorCodes::OwnerBalanceMismatch),
        },
    }
}

/// The identity under which `user` plays, or why none can be told.
///
/// In a campaign without gating only the plain wallet plays, and any proof is
/// unexpected. In a gated campaign exactly one proof must be offered and must
/// hold: a token with its metadata makes the token's mint the identity, an asset of
/// the alternate registry makes the asset's address the identity.
pub open spec fn resolve(
    nft_config: Option<NftCampaignConfig>,
    user: Pubkey,
    token: Option<TokenAccount>,
    metadata: Option<MetadataAccount>,
    asset: Option<AssetAccount>,
) -> Result<PlayerIdentity, ErrorCodes> {
    match nft_config {
        None => if token is Some || metadata is Some || asset is Some {
            Err(ErrorCodes::UnexpectedMetadata)
        } else {
            Ok(PlayerIdentity { identity_type: IdentityType::User, pubkey: user })
        },
        Some(config) => if asset is Some {
            if token is Some || metadata is Some {
                Err(ErrorCodes::InvalidInput)
            } else {
                match asset_fault(nft_config, user, asset->0) {
                    Some(e) => Err(e),
                    None => Ok(
                        PlayerIdentity {
                            identity_type: IdentityType::MplCore,
                            pubkey: asset->0.key,
                        },
                    ),
                }
            }
        } else if token is Some && metadata is Some {
            match nft_fault(config.collection, user, token->0, metadata->0) {
                Some(e) => Err(e),
                None => Ok(
                    PlayerIdentity { identity_type: IdentityType::Nft, pubkey: metadata->0.mint },
                ),
            }
        } else {
            Err(ErrorCodes::MissingMetadata)
        },
    }
}

/// Tells the identity under which `user` plays from the proofs offered.
pub fn resolve_identity(
    nft_config: &Option<NftCampaignConfig>,
    user: &Pubkey,
    token: &Option<TokenAccount>,
    metadata: &Option<MetadataAccount>,
    asset: &Option<AssetAccount>,
) -> (r: Result<PlayerIdentity, ErrorCodes>)
    ensures
        r == resolve(*nft_config, *user, *token, *metadata, *asset),
        r matches Ok(identity) ==> !(identity.identity_type is Unset) && (
        identity.identity_type is User <==> nft_config is None),
{
    match nft_config {
        None => {
            if token.is_some() || metadata.is_some() || asset.is_some() {
                Err(ErrorCodes::UnexpectedMetadata)
            } else {
                Ok(PlayerIdentity { identity_type: IdentityType::User, pubkey: *user })
            }
        },
        Some(config) => match (token, metadata, asset) {
            (None, None, Some(a)) => match check_core_asset(nft_config, user, a) {
                Ok(()) => Ok(PlayerIdentity { identity_type: IdentityType::MplCore, pubkey: a.key }),
                Err(e) => Err(e),
            },
            (_, _, Some(_)) => Err(ErrorCodes::InvalidInput),
            (Some(t), Some(m), None) => match check_nft(&config.collection, user, t, m) {
                Ok(()) => Ok(PlayerIdentity { identity_type: IdentityType::Nft, pubkey: m.mint }),
                Err(e) => Err(e),
            },
            (_, _, None) => Err(ErrorCodes::MissingMetadata),
        },
    }
}

} // verus!
