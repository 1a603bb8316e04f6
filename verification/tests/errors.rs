use clubhouse::errors::{ErrorCategory, ErrorCodes};

#[test]
fn every_refusal_has_its_family() {
    let table: Vec<(ErrorCodes, ErrorCategory)> = vec![
        (ErrorCodes::ProgramAuthorityMismatch, ErrorCategory::Authorization),
        (ErrorCodes::NotClubAdmin, ErrorCategory::Authorization),
        (ErrorCodes::OracleRequired, ErrorCategory::Authorization),
        (ErrorCodes::OracleMismatch, ErrorCategory::Authorization),
        (ErrorCodes::CollectionProofInvalid, ErrorCategory::Identity),
        (ErrorCodes::CollectionKeyMismatch, ErrorCategory::Identity),
        (ErrorCodes::TokenOwnerMismatch, ErrorCategory::Identity),
        (ErrorCodes::UnexpectedMetadata, ErrorCategory::Identity),
        (ErrorCodes::MissingMetadata, ErrorCategory::Identity),
        (ErrorCodes::OwnerBalanceMismatch, ErrorCategory::Identity),
        (ErrorCodes::MintNotNft, ErrorCategory::Identity),
        (ErrorCodes::MetadataMismatch, ErrorCategory::Identity),
        (ErrorCodes::PlayerIdentityMismatch, ErrorCategory::Identity),
        (ErrorCodes::AccountDidNotDeserialize, ErrorCategory::Identity),
        (ErrorCodes::InvalidInput, ErrorCategory::Validation),
        (ErrorCodes::StartsWithPunctuation, ErrorCategory::Validation),
        (ErrorCodes::StartsWithWhitespace, ErrorCategory::Validation),
        (ErrorCodes::EndsWithWhitespace, ErrorCategory::Validation),
        (ErrorCodes::InvalidCharacter, ErrorCategory::Validation),
        (ErrorCodes::ConsecutiveWhitespace, ErrorCategory::Validation),
        (ErrorCodes::StringTooLong, ErrorCategory::Validation),
        (ErrorCodes::StringTooShort, ErrorCategory::Validation),
        (ErrorCodes::InvalidTimeSpan, ErrorCategory::Validation),
        (ErrorCodes::TaxTooHigh, ErrorCategory::Economic),
        (ErrorCodes::InsufficientFunds, ErrorCategory::Economic),
        (ErrorCodes::AmountTooHigh, ErrorCategory::Economic),
        (ErrorCodes::NonZeroVault, ErrorCategory::Economic),
        (ErrorCodes::RewardsUnavailable, ErrorCategory::Economic),
        (ErrorCodes::ClubInactive, ErrorCategory::Lifecycle),
        (ErrorCodes::PlayerAlreadyInMatch, ErrorCategory::Lifecycle),
        (ErrorCodes::ActiveCampaigns, ErrorCategory::Lifecycle),
        (ErrorCodes::ActiveCampaign, ErrorCategory::Lifecycle),
        (ErrorCodes::CampaignExpired, ErrorCategory::Lifecycle),
        (ErrorCodes::PlayerInGame, ErrorCategory::Lifecycle),
        (ErrorCodes::NoStake, ErrorCategory::Lifecycle),
        (ErrorCodes::PlayerNotInGame, ErrorCategory::Lifecycle),
        (ErrorCodes::OutOfEnergy, ErrorCategory::Arithmetic),
        (ErrorCodes::EnergyCalculationFailed, ErrorCategory::Arithmetic),
        (ErrorCodes::ArithmeticOverflow, ErrorCategory::Arithmetic),
    ];
    assert_eq!(table.len(), 39);
    for (code, family) in table {
        assert_eq!(code.category(), family);
    }
}

#[test]
fn refusals_explain_themselves() {
    assert_eq!(
        ErrorCodes::ProgramAuthorityMismatch.message(),
        "Signer does not match program authority"
    );
    assert_eq!(
        ErrorCodes::RewardsUnavailable.message(),
        "Game cannot be started due to insufficient rewards"
    );
    assert_eq!(ErrorCodes::NoStake.message(), "No stake on player");
    assert_eq!(ErrorCodes::TaxTooHigh.message(), "Tax above 100%");
    assert_eq!(
        ErrorCodes::StringTooLong.message(),
        "The string cannot be longer than 32 bytes"
    );
    assert_eq!(ErrorCodes::PlayerNotInGame.message(), "Player is not in a game");
    assert_eq!(ErrorCodes::OutOfEnergy.message(), "Energy depleted");
}
