pub mod claim_stake;
