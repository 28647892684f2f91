//! Contracts written to withstand the weaknesses of the `vulnerable` ones.
pub mod secure_token;
pub mod secure_vault;
pub mod secure_transfer;
pub mod secure_escrow;
pub mod secure_pausable;
pub mod secure_lending;
pub mod protected_oracle;
pub mod sequence_lock;
pub mod secure_staking;
pub mod protected_admin;
pub mod paginated_airdrop;
pub mod secure_vesting;
pub mod secure_dao;
pub mod secure_multisig;
pub mod secure_airdrop;
