//! Properties that hold across the operations, stated over the same spec
//! functions that the operations' contracts use.
use vstd::prelude::*;
use crate::error::VaultErrorCode;
use crate::principal::Principal;
use crate::vault::{
    MAX_APPROVERS,
    MAX_NAME_LEN,
    VaultView,
    add_approver_error,
    creation_error,
    remove_approver_error,
};
use crate::withdrawal::{
    WithdrawalStatus,
    WithdrawalView,
    approve_error,
    approved_by,
    delay_for,
    execute_error,
    executed_at,
    request_error,
    still_waiting,
};

verus! {

/// A vault is created exactly when its name has one to fifty characters and
/// its threshold and three limits are positive; when a single one of these
/// is broken, creation fails with the error that names it.
pub proof fn law_creation_validation(
    name: Seq<char>,
    approval_threshold: u8,
    daily_limit: u64,
    tx_limit: u64,
    large_withdrawal_threshold: u64,
)
    ensures
        creation_error(name, approval_threshold, daily_limit, tx_limit, large_withdrawal_threshold)
            is None <==> {
            &&& 1 <= name.len() <= MAX_NAME_LEN
            &&& approval_threshold > 0
            &&& daily_limit > 0
            &&& tx_limit > 0
            &&& large_withdrawal_threshold > 0
        },
        !(1 <= name.len() <= MAX_NAME_LEN) ==> creation_error(
            name,
            approval_threshold,
            daily_limit,
            tx_limit,
            large_withdrawal_threshold,
        ) == Some(VaultErrorCode::InvalidName),
        1 <= name.len() <= MAX_NAME_LEN && approval_threshold == 0 ==> creation_error(
            name,
            approval_threshold,
            daily_limit,
            tx_limit,
            large_withdrawal_threshold,
        ) == Some(VaultErrorCode::InvalidThreshold),
        1 <= name.len() <= MAX_NAME_LEN && approval_threshold > 0 && (daily_limit == 0 || tx_limit
            == 0 || large_withdrawal_threshold == 0) ==> creation_error(
            name,
            approval_threshold,
            daily_limit,
            tx_limit,
            large_withdrawal_threshold,
        ) == Some(VaultErrorCode::InvalidLimit),
{
}

/// When the owner adds an approver to a full list the addition fails with
/// `MaxApproversReached`; below capacity, adding one already present fails
/// with `DuplicateApprover`.
pub proof fn law_add_approver_bounds(v: VaultView, approver: Principal)
    requires
        v.wf(),
    ensures
        v.approvers.len() == MAX_APPROVERS ==> add_approver_error(v, v.owner, approver) == Some(
            VaultErrorCode::MaxApproversReached,
        ),
        v.approvers.len() < MAX_APPROVERS && v.approvers.contains(approver) ==> add_approver_error(
            v,
            v.owner,
            approver,
        ) == Some(VaultErrorCode::DuplicateApprover),
{
}

/// The owner cannot remove a listed approver when the approvers left would
/// be no more than the threshold.
pub proof fn law_remove_approver_keeps_quorum(v: VaultView, approver: Principal)
    requires
        v.approvers.contains(approver),
        v.approvers.len() - 1 <= v.approval_threshold,
    ensures
        remove_approver_error(v, v.owner, approver) == Some(VaultErrorCode::InvalidThreshold),
{
}

/// For a staff member of an open vault, an amount equal to the transaction
/// limit is accepted, one above it fails with `ExceedsLimit`, and zero fails
/// with `InvalidLimit`.
pub proof fn law_request_amount_bounds(v: VaultView, requester: Principal)
    requires
        v.wf(),
        v.staff.contains(requester),
        !v.frozen,
    ensures
        request_error(v, requester, v.tx_limit) is None,
        v.tx_limit < u64::MAX ==> request_error(v, requester, (v.tx_limit + 1) as u64) == Some(
            VaultErrorCode::ExceedsLimit,
        ),
        request_error(v, requester, 0) == Some(VaultErrorCode::InvalidLimit),
{
}

/// A request at or above the large-withdrawal threshold must wait
/// `delay_hours` hours from its creation; a smaller one need not wait.
pub proof fn law_large_requests_wait(v: VaultView, amount: u64, now: i64)
    ensures
        amount >= v.large_withdrawal_threshold ==> delay_for(v, amount, now) == Some(
            now + v.delay_hours * 3600,
        ),
        amount < v.large_withdrawal_threshold ==> delay_for(v, amount, now) is None,
{
}

/// Once an approver's vote on a request is recorded, a second vote by the
/// same approver fails with `AlreadyApproved` while the request is still
/// pending.
pub proof fn law_no_double_approval(v: VaultView, w: WithdrawalView, approver: Principal)
    requires
        approve_error(v, w, approver) is None,
        approved_by(v, w, approver).status == WithdrawalStatus::Pending,
    ensures
        approve_error(v, approved_by(v, w, approver), approver) == Some(
            VaultErrorCode::AlreadyApproved,
        ),
{
    assert(approved_by(v, w, approver).approvals.last() == approver);
}

/// An approver who made the request, and has not yet voted on it, cannot
/// approve it while it is pending.
pub proof fn law_no_self_approval(v: VaultView, w: WithdrawalView)
    requires
        v.approvers.contains(w.requester),
        w.status == WithdrawalStatus::Pending,
        !w.approvals.contains(w.requester),
    ensures
        approve_error(v, w, w.requester) == Some(VaultErrorCode::SelfApprovalNotAllowed),
{
}

/// On a pending request with fewer votes than the threshold, an accepted
/// vote makes it `Approved` exactly when the votes then equal the threshold;
/// otherwise it stays pending, still below the threshold.
pub proof fn law_approval_at_threshold(v: VaultView, w: WithdrawalView, approver: Principal)
    requires
        w.status == WithdrawalStatus::Pending,
        w.approvals.len() < v.approval_threshold,
        approve_error(v, w, approver) is None,
    ensures
        approved_by(v, w, approver).approvals.len() == w.approvals.len() + 1,
        approved_by(v, w, approver).status == WithdrawalStatus::Approved <==> approved_by(
            v,
            w,
            approver,
        ).approvals.len() == v.approval_threshold,
        approved_by(v, w, approver).status == WithdrawalStatus::Pending <==> approved_by(
            v,
            w,
            approver,
        ).approvals.len() < v.approval_threshold,
{
}

/// Execution refuses a pending request, an approved one whose delay has not
/// passed, and one the vault cannot cover; otherwise it marks the request
/// executed at that moment, after which every further attempt fails with
/// `InvalidStatus`.
pub proof fn law_execution_gates(
    w: WithdrawalView,
    available_balance: u64,
    now: i64,
    later_balance: u64,
    later: i64,
)
    ensures
        w.status == WithdrawalStatus::Pending ==> execute_error(w, available_balance, now) == Some(
            VaultErrorCode::InvalidStatus,
        ),
        w.status == WithdrawalStatus::Approved && still_waiting(w, now) ==> execute_error(
            w,
            available_balance,
            now,
        ) == Some(VaultErrorCode::DelayNotPassed),
        w.status == WithdrawalStatus::Approved && !still_waiting(w, now) && available_balance
            < w.amount ==> execute_error(w, available_balance, now) == Some(
            VaultErrorCode::InsufficientBalance,
        ),
        execute_error(w, available_balance, now) is None <==> {
            &&& w.status == WithdrawalStatus::Approved
            &&& !still_waiting(w, now)
            &&& available_balance >= w.amount
        },
        executed_at(w, now).status == WithdrawalStatus::Executed,
        executed_at(w, now).executed_at == Some(now),
        execute_error(executed_at(w, now), later_balance, later) == Some(
            VaultErrorCode::InvalidStatus,
        ),
{
}

} // verus!
