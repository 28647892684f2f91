//! Contracts that each carry a known weakness, most beside a corrected
//! version in a `secure` submodule.
pub mod abstain_counts_as_yes;

pub mod div_by_zero;
pub mod assumed_token_decimals;
pub mod abs_min_overflow;
pub mod admin_rugpull;
pub mod allowance_before_balance;
pub mod allowance_not_decremented;
pub mod asset_key_collision;
pub mod audit_expiry_ignored;
pub mod auction_close_early;
pub mod auction_min_increment_missing;
pub mod auction_refund_block;
pub mod balance_key_missing_user;
pub mod borrow_without_accrual;
pub mod bridge_partial_mint_replay;
pub mod buy_without_listing;
pub mod call_depth;
pub mod callback_before_invariant;
pub mod cross_call_error_swallowed;
pub mod current_contract_admin;
pub mod double_claim;
pub mod dust_griefing;
pub mod empty_vault_share_inflation;
pub mod deposit_cap_wrong_amount;
pub mod escrow_balance_check;
