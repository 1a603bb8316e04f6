use vstd::prelude::*;

verus! {

/// Every reason for which an operation is refused.
#[derive(Clone, Copy, Debug, PartialEq, Eq, Structural, Hash)]
pub enum ErrorCodes {
    ProgramAuthorityMismatch,
    CollectionProofInvalid,
    CollectionKeyMismatch,
    TokenOwnerMismatch,
    UnexpectedMetadata,
    MissingMetadata,
    OwnerBalanceMismatch,
    MintNotNft,
    OutOfEnergy,
    EnergyCalculationFailed,
    ClubInactive,
    InvalidInput,
    MetadataMismatch,
    TaxTooHigh,
    InsufficientFunds,
    AmountTooHigh,
    NotClubAdmin,
    PlayerAlreadyInMatch,
    PlayerIdentityMismatch,
    StartsWithPunctuation,
    StartsWithWhitespace,
    EndsWithWhitespace,
    InvalidCharacter,
    ConsecutiveWhitespace,
    StringTooLong,
    StringTooShort,
    NonZeroVault,
    ActiveCampaigns,
    ActiveCampaign,
    CampaignExpired,
    InvalidTimeSpan,
    PlayerInGame,
    OracleRequired,
    OracleMismatch,
    RewardsUnavailable,
    NoStake,
    /// The player has no open session to settle.
    PlayerNotInGame,
    /// A counter, a fee or a balance left the range of its type.
    ArithmeticOverflow,
    /// The bytes of an asset record do not describe an asset.
    AccountDidNotDeserialize,
}

/// The six families of refusals.
#[derive(Clone, Copy, Debug, PartialEq, Eq, Structural, Hash)]
pub enum ErrorCategory {
    Authorization,
    Identity,
    Validation,
    Economic,
    Lifecycle,
    Arithmetic,
}

impl ErrorCodes {
    /// The family a refusal belongs to.
    pub open spec fn spec_category(&self) -> ErrorCategory {
        match *self {
            ErrorCodes::ProgramAuthorityMismatch
            | ErrorCodes::NotClubAdmin
            | ErrorCodes::OracleRequired
            | ErrorCodes::OracleMismatch => ErrorCategory::Authorization,
            ErrorCodes::CollectionProofInvalid
            | ErrorCodes::CollectionKeyMismatch
            | ErrorCodes::TokenOwnerMismatch
            | ErrorCodes::UnexpectedMetadata
            | ErrorCodes::MissingMetadata
            | ErrorCodes::OwnerBalanceMismatch
            | ErrorCodes::MintNotNft
            | ErrorCodes::MetadataMismatch
            | ErrorCodes::PlayerIdentityMismatch
            | ErrorCodes::AccountDidNotDeserialize => ErrorCategory::Identity,
            ErrorCodes::InvalidInput
            | ErrorCodes::StartsWithPunctuation
            | ErrorCodes::StartsWithWhitespace
            | ErrorCodes::EndsWithWhitespace
            | ErrorCodes::InvalidCharacter
            | ErrorCodes::ConsecutiveWhitespace
            | ErrorCodes::StringTooLong
            | ErrorCodes::StringTooShort
            | ErrorCodes::InvalidTimeSpan => ErrorCategory::Validation,
            ErrorCodes::TaxTooHigh
            | ErrorCodes::InsufficientFunds
            | ErrorCodes::AmountTooHigh
            | ErrorCodes::NonZeroVault
            | ErrorCodes::RewardsUnavailable => ErrorCategory::Economic,
            ErrorCodes::ClubInactive
            | ErrorCodes::PlayerAlreadyInMatch
            | ErrorCodes::ActiveCampaigns
            | ErrorCodes::ActiveCampaign
            | ErrorCodes::CampaignExpired
            | ErrorCodes::PlayerInGame
            | ErrorCodes::NoStake
            | ErrorCodes::PlayerNotInGame => ErrorCategory::Lifecycle,
            ErrorCodes::OutOfEnergy
            | ErrorCodes::EnergyCalculationFailed
            | ErrorCodes::ArithmeticOverflow => ErrorCategory::Arithmetic,
        }
    }

    /// The family a refusal belongs to.
    #[verifier::when_used_as_spec(spec_category)]
    pub fn category(&self) -> (r: ErrorCategory)
        ensures
            r == self.spec_category(),
    {
        match *self {
            ErrorCodes::ProgramAuthorityMismatch
            | ErrorCodes::NotClubAdmin
            | ErrorCodes::OracleRequired
            | ErrorCodes::OracleMismatch => ErrorCategory::Authorization,
            ErrorCodes::CollectionProofInvalid
            | ErrorCodes::CollectionKeyMismatch
            | ErrorCodes::TokenOwnerMismatch
            | ErrorCodes::UnexpectedMetadata
            | ErrorCodes::MissingMetadata
            | ErrorCodes::OwnerBalanceMismatch
            | ErrorCodes::MintNotNft
            | ErrorCodes::MetadataMismatch
            | ErrorCodes::PlayerIdentityMismatch
            | ErrorCodes::AccountDidNotDeserialize => ErrorCategory::Identity,
            ErrorCodes::InvalidInput
            | ErrorCodes::StartsWithPunctuation
            | ErrorCodes::StartsWithWhitespace
            | ErrorCodes::EndsWithWhitespace
            | ErrorCodes::InvalidCharacter
            | ErrorCodes::ConsecutiveWhitespace
            | ErrorCodes::StringTooLong
            | ErrorCodes::StringTooShort
            | ErrorCodes::InvalidTimeSpan => ErrorCategory::Validation,
            ErrorCodes::TaxTooHigh
            | ErrorCodes::InsufficientFunds
            | ErrorCodes::AmountTooHigh
            | ErrorCodes::NonZeroVault
            | ErrorCodes::RewardsUnavailable => ErrorCategory::Economic,
            ErrorCodes::ClubInactive
            | ErrorCodes::PlayerAlreadyInMatch
            | ErrorCodes::ActiveCampaigns
            | ErrorCodes::ActiveCampaign
            | ErrorCodes::CampaignExpired
            | ErrorCodes::PlayerInGame
            | ErrorCodes::NoStake
            | ErrorCodes::PlayerNotInGame => ErrorCategory::Lifecycle,
            ErrorCodes::OutOfEnergy
            | ErrorCodes::EnergyCalculationFailed
            | ErrorCodes::ArithmeticOverflow => ErrorCategory::Arithmetic,
        }
    }
    /// The text that explains a refusal.
    pub open spec fn spec_message(&self) -> Seq<char> {
        match *self {
            ErrorCodes::ProgramAuthorityMismatch => "Signer does not match program authority"@,
            ErrorCodes::CollectionProofInvalid => "Collection Proof is invalid"@,
            ErrorCodes::CollectionKeyMismatch => "Collection Key Mismatch"@,
            ErrorCodes::TokenOwnerMismatch => "Caller does not own the token account"@,
            ErrorCodes::UnexpectedMetadata => "Unexpected metadata account"@,
            ErrorCodes::MissingMetadata => "Expected metadata account, none provided"@,
            ErrorCodes::OwnerBalanceMismatch => "Caller does not own the NFT"@,
            ErrorCodes::MintNotNft => "Mint is not an NFT"@,
            ErrorCodes::OutOfEnergy => "Energy depleted"@,
            ErrorCodes::EnergyCalculationFailed => "Energy calculation failed"@,
            ErrorCodes::ClubInactive => "Club inactive"@,
            ErrorCodes::InvalidInput => "Invalid input"@,
            ErrorCodes::MetadataMismatch => "Metadata does not match mint"@,
            ErrorCodes::TaxTooHigh => "Tax above 100%"@,
            ErrorCodes::InsufficientFunds => "Insufficient funds"@,
            ErrorCodes::AmountTooHigh => "Amount too high"@,
            ErrorCodes::NotClubAdmin => "No Authority"@,
            ErrorCodes::PlayerAlreadyInMatch => "Player already in a match"@,
            ErrorCodes::PlayerIdentityMismatch => "Player identity mismatch"@,
            ErrorCodes::StartsWithPunctuation => "Name starts with punctuation"@,
            ErrorCodes::StartsWithWhitespace => "Name starts with whitespace"@,
            ErrorCodes::EndsWithWhitespace => "Name ends with whitespace"@,
            ErrorCodes::InvalidCharacter => "Invalid character in name"@,
            ErrorCodes::ConsecutiveWhitespace => "Consecutive whitespace in name"@,
            ErrorCodes::StringTooLong => "The string cannot be longer than 32 bytes"@,
            ErrorCodes::StringTooShort => "The string cannot be shorter than 4 bytes"@,
            ErrorCodes::NonZeroVault => "The vault must be empty"@,
            ErrorCodes::ActiveCampaigns => "Active campaigns exist"@,
            ErrorCodes::ActiveCampaign => "Campaign is active"@,
            ErrorCodes::CampaignExpired => "Campaign is expired"@,
            ErrorCodes::InvalidTimeSpan => "Invalid time span"@,
            ErrorCodes::PlayerInGame => "Player is already in a game"@,
            ErrorCodes::OracleRequired => "Oracle required"@,
            ErrorCodes::OracleMismatch => "Oracle mismatch"@,
            ErrorCodes::RewardsUnavailable => "Game cannot be started due to insufficient rewards"@,
            ErrorCodes::NoStake => "No stake on player"@,
            ErrorCodes::PlayerNotInGame => "Player is not in a game"@,
            ErrorCodes::ArithmeticOverflow => "Arithmetic overflow"@,
            ErrorCodes::AccountDidNotDeserialize => "Failed to deserialize the account"@,
        }
    }

    /// The text that explains a refusal.
    pub fn message(&self) -> (r: &'static str)
        ensures
            r@ == self.spec_message(),
    {
        match *self {
            ErrorCodes::ProgramAuthorityMismatch => "Signer does not match program authority",
            ErrorCodes::CollectionProofInvalid => "Collection Proof is invalid",
            ErrorCodes::CollectionKeyMismatch => "Collection Key Mismatch",
            ErrorCodes::TokenOwnerMismatch => "Caller does not own the token account",
            ErrorCodes::UnexpectedMetadata => "Unexpected metadata account",
            ErrorCodes::MissingMetadata => "Expected metadata account, none provided",
            ErrorCodes::OwnerBalanceMismatch => "Caller does not own the NFT",
            ErrorCodes::MintNotNft => "Mint is not an NFT",
            ErrorCodes::OutOfEnergy => "Energy depleted",
            ErrorCodes::EnergyCalculationFailed => "Energy calculation failed",
            ErrorCodes::ClubInactive => "Club inactive",
            ErrorCodes::InvalidInput => "Invalid input",
            ErrorCodes::MetadataMismatch => "Metadata does not match mint",
            ErrorCodes::TaxTooHigh => "Tax above 100%",
            ErrorCodes::InsufficientFunds => "Insufficient funds",
            ErrorCodes::AmountTooHigh => "Amount too high",
            ErrorCodes::NotClubAdmin => "No Authority",
            ErrorCodes::PlayerAlreadyInMatch => "Player already in a match",
            ErrorCodes::PlayerIdentityMismatch => "Player identity mismatch",
            ErrorCodes::StartsWithPunctuation => "Name starts with punctuation",
            ErrorCodes::StartsWithWhitespace => "Name starts with whitespace",
            ErrorCodes::EndsWithWhitespace => "Name ends with whitespace",
            ErrorCodes::InvalidCharacter => "Invalid character in name",
            ErrorCodes::ConsecutiveWhitespace => "Consecutive whitespace in name",
            ErrorCodes::StringTooLong => "The string cannot be longer than 32 bytes",
            ErrorCodes::StringTooShort => "The string cannot be shorter than 4 bytes",
            ErrorCodes::NonZeroVault => "The vault must be empty",
            ErrorCodes::ActiveCampaigns => "Active campaigns exist",
            ErrorCodes::ActiveCampaign => "Campaign is active",
            ErrorCodes::CampaignExpired => "Campaign is expired",
            ErrorCodes::InvalidTimeSpan => "Invalid time span",
            ErrorCodes::PlayerInGame => "Player is already in a game",
            ErrorCodes::OracleRequired => "Oracle required",
            ErrorCodes::OracleMismatch => "Oracle mismatch",
            ErrorCodes::RewardsUnavailable => "Game cannot be started due to insufficient rewards",
            ErrorCodes::NoStake => "No stake on player",
            ErrorCodes::PlayerNotInGame => "Player is not in a game",
            ErrorCodes::ArithmeticOverflow => "Arithmetic overflow",
            ErrorCodes::AccountDidNotDeserialize => "Failed to deserialize the account",
        }
    }
}

} // verus!
