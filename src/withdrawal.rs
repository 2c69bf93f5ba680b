use vstd::prelude::*;
use crate::error::VaultErrorCode;
use crate::principal::{Principal, contains_principal};
use crate::vault::{Vault, VaultAuthority, VaultView};

verus! {

/// Seconds in an hour, for turning a vault's delay into a deadline.
pub const SECONDS_PER_HOUR: u64 = 3600;

/// Where a withdrawal request stands: `Pending` until enough approvals,
/// `Approved` until paid out, then `Executed`.
#[derive(Clone, Copy, Debug, PartialEq, Eq, Structural)]
pub enum WithdrawalStatus {
    Pending,
    Approved,
    Executed,
    Rejected,
}

/// One attempt to take funds out of a vault.
#[derive(Debug)]
pub struct WithdrawalRequest {
    pub vault: Principal,
    pub amount: u64,
    pub destination: Principal,
    pub requester: Principal,
    pub reason: String,
    pub approvals: Vec<Principal>,
    pub status: WithdrawalStatus,
    pub created_at: i64,
    pub delay_until: Option<i64>,
    pub executed_at: Option<i64>,
}

/// What a withdrawal request holds, with its texts and lists as sequences.
pub ghost struct WithdrawalView {
    pub vault: Principal,
    pub amount: u64,
    pub destination: Principal,
    pub requester: Principal,
    pub reason: Seq<char>,
    pub approvals: Seq<Principal>,
    pub status: WithdrawalStatus,
    pub created_at: i64,
    pub delay_until: Option<i64>,
    pub executed_at: Option<i64>,
}

impl View for WithdrawalRequest {
    type V = WithdrawalView;

    open spec fn view(&self) -> WithdrawalView {
        WithdrawalView {
            vault: self.vault,
            amount: self.amount,
            destination: self.destination,
            requester: self.requester,
            reason: self.reason@,
            approvals: self.approvals@,
            status: self.status,
            created_at: self.created_at,
            delay_until: self.delay_until,
            executed_at: self.executed_at,
        }
    }
}

/// What the ledger is asked to do once a withdrawal is executed: move
/// `amount` out of the vault, signed by the vault itself, to `destination`.
#[derive(Debug)]
pub struct TransferInstruction {
    pub authority: VaultAuthority,
    pub destination: Principal,
    pub amount: u64,
}

/// The error that a withdrawal request gives, if any, in the order the
/// conditions are checked.
pub open spec fn request_error(v: VaultView, requester: Principal, amount: u64) -> Option<
    VaultErrorCode,
> {
    if !v.staff.contains(requester) {
        Some(VaultErrorCode::Unauthorized)
    } else if v.frozen {
        Some(VaultErrorCode::VaultFrozen)
    } else if amount == 0 {
        Some(VaultErrorCode::InvalidLimit)
    } else if amount > v.tx_limit {
        Some(VaultErrorCode::ExceedsLimit)
    } else {
        None
    }
}

/// When a request for `amount` made at `now` may first be executed: large
/// amounts wait the vault's delay, smaller ones not at all.
pub open spec fn delay_for(v: VaultView, amount: u64, now: i64) -> Option<int> {
    if amount >= v.large_withdrawal_threshold {
        Some(now + v.delay_hours * SECONDS_PER_HOUR)
    } else {
        None
    }
}

/// A timestamp, if any, as an integer.
pub open spec fn widen(t: Option<i64>) -> Option<int> {
    match t {
        Some(t) => Some(t as int),
        None => None,
    }
}

/// Whether the delay and the deadline of a large request made at `now` fit a
/// timestamp.
pub open spec fn delay_fits(v: VaultView, amount: u64, now: i64) -> bool {
    match delay_for(v, amount, now) {
        Some(t) => v.delay_hours * SECONDS_PER_HOUR <= i64::MAX && t <= i64::MAX,
        None => true,
    }
}

/// The error that approving by `approver` gives, if any.
pub open spec fn approve_error(v: VaultView, w: WithdrawalView, approver: Principal) -> Option<
    VaultErrorCode,
> {
    if !v.approvers.contains(approver) {
        Some(VaultErrorCode::Unauthorized)
    } else if w.status != WithdrawalStatus::Pending {
        Some(VaultErrorCode::InvalidStatus)
    } else if w.approvals.contains(approver) {
        Some(VaultErrorCode::AlreadyApproved)
    } else if approver == w.requester {
        Some(VaultErrorCode::SelfApprovalNotAllowed)
    } else {
        None
    }
}

/// The request after `approver`'s vote is recorded: it becomes `Approved` as
/// soon as the votes reach the vault's current threshold.
pub open spec fn approved_by(v: VaultView, w: WithdrawalView, approver: Principal) -> WithdrawalView {
    let approvals = w.approvals.push(approver);
    WithdrawalView {
        approvals,
        status: if approvals.len() >= v.approval_threshold {
            WithdrawalStatus::Approved
        } else {
            w.status
        },
        ..w
    }
}

/// Whether the request's waiting period, if it has one, is still running at `now`.
pub open spec fn still_waiting(w: WithdrawalView, now: i64) -> bool {
    match w.delay_until {
        Some(t) => now < t,
        None => false,
    }
}

/// The error that executing at `now` with `available_balance` in the vault
/// gives, if any.
pub open spec fn execute_error(w: WithdrawalView, available_balance: u64, now: i64) -> Option<
    VaultErrorCode,
> {
    if w.status != WithdrawalStatus::Approved {
        Some(VaultErrorCode::InvalidStatus)
    } else if still_waiting(w, now) {
        Some(VaultErrorCode::DelayNotPassed)
    } else if available_balance < w.amount {
        Some(VaultErrorCode::InsufficientBalance)
    } else {
        None
    }
}

/// The request once paid out at `now`.
pub open spec fn executed_at(w: WithdrawalView, now: i64) -> WithdrawalView {
    WithdrawalView { status: WithdrawalStatus::Executed, executed_at: Some(now), ..w }
}

/// Whether a request for `amount` at `now` can be recorded: the withdrawal
/// counter has room to move on and a large request's deadline fits a
/// timestamp.
pub fn can_record_request(vault: &Vault, amount: u64, now: i64) -> (r: bool)
    ensures
        r == (vault.withdrawal_count < u64::MAX && delay_fits(vault@, amount, now)),
{
    if vault.withdrawal_count == u64::MAX {
        return false;
    }
    if amount < vault.large_withdrawal_threshold {
        return true;
    }
    if vault.delay_hours > (i64::MAX as u64) / SECONDS_PER_HOUR {
        return false;
    }
    let delay_seconds: i64 = (vault.delay_hours * SECONDS_PER_HOUR) as i64;
    now <= i64::MAX - delay_seconds
}

/// A staff member asks for `amount` to be sent to `destination`. The request
/// starts `Pending` with no approvals; the vault's withdrawal counter, which
/// addresses the new request, moves on by one.
pub fn request_withdrawal(
    vault: &mut Vault,
    vault_address: Principal,
    requester: Principal,
    amount: u64,
    destination: Principal,
    reason: String,
    now: i64,
) -> (r: Result<WithdrawalRequest, VaultErrorCode>)
    requires
        old(vault).withdrawal_count < u64::MAX,
        delay_fits(old(vault)@, amount, now),
    ensures
        match r {
            Ok(w) => {
                &&& request_error(old(vault)@, requester, amount) is None
                &&& final(vault)@ == (VaultView {
                    withdrawal_count: (old(vault).withdrawal_count + 1) as u64,
                    ..old(vault)@
                })
                &&& w@.vault == vault_address
                &&& w@.amount == amount
                &&& w@.destination == destination
                &&& w@.requester == requester
                &&& w@.reason == reason@
                &&& w@.approvals == Seq::<Principal>::empty()
                &&& w@.status == WithdrawalStatus::Pending
                &&& w@.created_at == now
                &&& widen(w@.delay_until) == delay_for(old(vault)@, amount, now)
                &&& w@.executed_at is None
            },
            Err(e) => {
                &&& request_error(old(vault)@, requester, amount) == Some(e)
                &&& final(vault)@ == old(vault)@
            },
        },
        old(vault)@.wf() ==> final(vault)@.wf(),
{
    if !vault.is_staff(&requester) {
        return Err(VaultErrorCode::Unauthorized);
    }
    if vault.frozen {
        return Err(VaultErrorCode::VaultFrozen);
    }
    if amount == 0 {
        return Err(VaultErrorCode::InvalidLimit);
    }
    if amount > vault.tx_limit {
        return Err(VaultErrorCode::ExceedsLimit);
    }
    let delay_until = if amount >= vault.large_withdrawal_threshold {
        let delay_seconds: i64 = (vault.delay_hours * SECONDS_PER_HOUR) as i64;
        Some(now + delay_seconds)
    } else {
        None
    };
    vault.withdrawal_count = vault.withdrawal_count + 1;
    let w = WithdrawalRequest {
        vault: vault_address,
        amount,
        destination,
        requester,
        reason,
        approvals: Vec::new(),
        status: WithdrawalStatus::Pending,
        created_at: now,
        delay_until,
        executed_at: None,
    };
    assert(w@.approvals =~= Seq::<Principal>::empty());
    Ok(w)
}

/// An approver votes for a pending request.
pub fn approve_withdrawal(vault: &Vault, withdrawal: &mut WithdrawalRequest, approver: Principal) -> (r: Result<
    (),
    VaultErrorCode,
>)
    ensures
        match r {
            Ok(()) => {
                &&& approve_error(vault@, old(withdrawal)@, approver) is None
                &&& final(withdrawal)@ == approved_by(vault@, old(withdrawal)@, approver)
            },
            Err(e) => {
                &&& approve_error(vault@, old(withdrawal)@, approver) == Some(e)
                &&& final(withdrawal)@ == old(withdrawal)@
            },
        },
{
    if !vault.is_approver(&approver) {
        return Err(VaultErrorCode::Unauthorized);
    }
    if withdrawal.status != WithdrawalStatus::Pending {
        return Err(VaultErrorCode::InvalidStatus);
    }
    if contains_principal(&withdrawal.approvals, &approver) {
        return Err(VaultErrorCode::AlreadyApproved);
    }
    if approver == withdrawal.requester {
        return Err(VaultErrorCode::SelfApprovalNotAllowed);
    }
    withdrawal.approvals.push(approver);
    if withdrawal.approvals.len() >= vault.approval_threshold as usize {
        withdrawal.status = WithdrawalStatus::Approved;
    }
    Ok(())
}

/// Anyone may execute an approved request once its delay has passed and the
/// vault holds enough. The request is marked `Executed` at `now`, and the
/// transfer to carry out is returned; the host applies both together or
/// neither.
pub fn execute_withdrawal(
    withdrawal: &mut WithdrawalRequest,
    vault: &Vault,
    available_balance: u64,
    now: i64,
) -> (r: Result<TransferInstruction, VaultErrorCode>)
    ensures
        match r {
            Ok(t) => {
                &&& execute_error(old(withdrawal)@, available_balance, now) is None
                &&& final(withdrawal)@ == executed_at(old(withdrawal)@, now)
                &&& t.authority.owner == vault.owner
                &&& t.authority.name@ == vault.name@
                &&& t.destination == old(withdrawal).destination
                &&& t.amount == old(withdrawal).amount
            },
            Err(e) => {
                &&& execute_error(old(withdrawal)@, available_balance, now) == Some(e)
                &&& final(withdrawal)@ == old(withdrawal)@
            },
        },
{
    if withdrawal.status != WithdrawalStatus::Approved {
        return Err(VaultErrorCode::InvalidStatus);
    }
    if let Some(delay_until) = withdrawal.delay_until {
        if now < delay_until {
            return Err(VaultErrorCode::DelayNotPassed);
        }
    }
    if available_balance < withdrawal.amount {
        return Err(VaultErrorCode::InsufficientBalance);
    }
    let transfer = TransferInstruction {
        authority: vault.authority(),
        destination: withdrawal.destination,
        amount: withdrawal.amount,
    };
    withdrawal.executed_at = Some(now);
    withdrawal.status = WithdrawalStatus::Executed;
    Ok(transfer)
}

} // verus!
