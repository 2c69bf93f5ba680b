use vstd::prelude::*;

verus! {

/// Every way a vault or withdrawal operation can be refused.
#[derive(Clone, Copy, Debug, PartialEq, Eq, Structural)]
pub enum VaultErrorCode {
    InvalidName,
    InvalidThreshold,
    InvalidLimit,
    Unauthorized,
    MaxApproversReached,
    DuplicateApprover,
    ApproverNotFound,
    MaxStaffReached,
    DuplicateStaff,
    StaffNotFound,
    VaultFrozen,
    ExceedsLimit,
    InvalidStatus,
    AlreadyApproved,
    SelfApprovalNotAllowed,
    InsufficientApprovals,
    DelayNotPassed,
    InsufficientBalance,
    CustomError,
}

/// The shorter name under which the same error kinds are also known.
pub type ErrorCode = VaultErrorCode;

impl VaultErrorCode {
    /// A sentence that tells the user which rule was broken.
    pub fn message(&self) -> (r: &'static str) {
        match self {
            VaultErrorCode::InvalidName => "Invalid name: Name must be between 1 and 50 characters",
            VaultErrorCode::InvalidThreshold => "Invalid threshold: Threshold must be > 0 and <= number of approvers",
            VaultErrorCode::InvalidLimit => "Invalid limit: Limit must be greater than 0",
            VaultErrorCode::Unauthorized => "Unauthorized: You are not authorized to perform this action",
            VaultErrorCode::MaxApproversReached => "Max approvers reached: Cannot add more than 10 approvers",
            VaultErrorCode::DuplicateApprover => "Duplicate approver: Approver is already in the list",
            VaultErrorCode::ApproverNotFound => "Approver not found",
            VaultErrorCode::MaxStaffReached => "Max staff reached: Cannot add more than 20 staff members",
            VaultErrorCode::DuplicateStaff => "Duplicate staff: Staff member is already in the list",
            VaultErrorCode::StaffNotFound => "Staff not found",
            VaultErrorCode::VaultFrozen => "Vault is frozen: Cannot perform this action while vault is frozen",
            VaultErrorCode::ExceedsLimit => "Exceeds limit: Amount exceeds configured transaction limit",
            VaultErrorCode::InvalidStatus => "Invalid status: Operation not allowed for current withdrawal status",
            VaultErrorCode::AlreadyApproved => "Already approved: This approver has already approved this request",
            VaultErrorCode::SelfApprovalNotAllowed => "Self-approval not allowed: Cannot approve your own withdrawal request",
            VaultErrorCode::InsufficientApprovals => "Insufficient approvals: Not enough approvals to execute withdrawal",
            VaultErrorCode::DelayNotPassed => "Delay not passed: Time delay period has not elapsed yet",
            VaultErrorCode::InsufficientBalance => "Insufficient balance: Vault does not have enough tokens",
            VaultErrorCode::CustomError => "Custom error message",
        }
    }
}

} // verus!
