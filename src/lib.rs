//! A treasury vault: owner-managed approver and staff lists, withdrawal
//! requests that need a threshold of distinct approvals, and an optional
//! waiting period before large withdrawals may be paid out.

pub mod principal;
pub mod error;
pub mod vault;
pub mod withdrawal;
pub mod laws;

pub use error::{ErrorCode, VaultErrorCode};
pub use principal::Principal;
pub use vault::{
    Vault, VaultAuthority, MAX_APPROVERS, MAX_NAME_LEN, MAX_STAFF, add_approver, add_staff,
    create_vault, freeze, remove_approver, remove_staff, unfreeze,
};
pub use withdrawal::{
    TransferInstruction, WithdrawalRequest, WithdrawalStatus, approve_withdrawal,
    can_record_request, execute_withdrawal, request_withdrawal,
};
