use nexus_treasury::{
    add_approver, add_staff, approve_withdrawal, can_record_request, create_vault,
    execute_withdrawal, freeze, request_withdrawal, Principal, Vault, VaultErrorCode,
    WithdrawalRequest, WithdrawalStatus,
};

fn key(n: u8) -> Principal {
    Principal::new([n; 32])
}

const OWNER: u8 = 1;
const A: u8 = 2;
const B: u8 = 3;
const C: u8 = 4;
const S: u8 = 5;
const VAULT: u8 = 9;
const DEST: u8 = 20;

/// A vault owned by OWNER with approvers A, B and C and staff member S.
fn setup(threshold: u8, tx_limit: u64, large: u64, delay_hours: u64) -> Vault {
    let mut v = create_vault(key(OWNER), "ops".to_string(), threshold, 50_000, tx_limit, large, delay_hours, 0)
        .unwrap();
    for n in [A, B, C] {
        add_approver(&mut v, key(OWNER), key(n)).unwrap();
    }
    add_staff(&mut v, key(OWNER), key(S)).unwrap();
    v
}

fn request(v: &mut Vault, amount: u64, now: i64) -> Result<WithdrawalRequest, VaultErrorCode> {
    request_withdrawal(v, key(VAULT), key(S), amount, key(DEST), "payroll".to_string(), now)
}

#[test]
fn request_fields_and_counter() {
    let mut v = setup(2, 1_000, 5_000, 24);
    let w = request(&mut v, 500, 1_000).unwrap();
    assert_eq!(w.vault, key(VAULT));
    assert_eq!(w.amount, 500);
    assert_eq!(w.destination, key(DEST));
    assert_eq!(w.requester, key(S));
    assert_eq!(w.reason, "payroll");
    assert!(w.approvals.is_empty());
    assert_eq!(w.status, WithdrawalStatus::Pending);
    assert_eq!(w.created_at, 1_000);
    assert_eq!(w.delay_until, None);
    assert_eq!(w.executed_at, None);
    assert_eq!(v.withdrawal_count, 1);
    request(&mut v, 1, 1_001).unwrap();
    assert_eq!(v.withdrawal_count, 2);
}

#[test]
fn request_amount_at_limit_boundaries() {
    let mut v = setup(2, 1_000, 5_000, 24);
    assert!(request(&mut v, 1_000, 0).is_ok());
    assert_eq!(request(&mut v, 1_001, 0).unwrap_err(), VaultErrorCode::ExceedsLimit);
    assert_eq!(request(&mut v, 0, 0).unwrap_err(), VaultErrorCode::InvalidLimit);
    assert_eq!(v.withdrawal_count, 1);
}

#[test]
fn request_by_non_staff_fails() {
    let mut v = setup(2, 1_000, 5_000, 24);
    let r = request_withdrawal(&mut v, key(VAULT), key(A), 10, key(DEST), String::new(), 0);
    assert_eq!(r.unwrap_err(), VaultErrorCode::Unauthorized);
    assert_eq!(v.withdrawal_count, 0);
}

#[test]
fn request_on_frozen_vault_fails() {
    let mut v = setup(2, 1_000, 5_000, 24);
    freeze(&mut v, key(OWNER)).unwrap();
    assert_eq!(request(&mut v, 10, 0).unwrap_err(), VaultErrorCode::VaultFrozen);
    // staff is checked before the freeze
    let r = request_withdrawal(&mut v, key(VAULT), key(A), 10, key(DEST), String::new(), 0);
    assert_eq!(r.unwrap_err(), VaultErrorCode::Unauthorized);
}

#[test]
fn large_request_gets_delay() {
    let mut v = setup(2, 10_000, 5_000, 24);
    let w = request(&mut v, 5_000, 1_000).unwrap();
    assert_eq!(w.delay_until, Some(1_000 + 24 * 3600));
    let w = request(&mut v, 4_999, 1_000).unwrap();
    assert_eq!(w.delay_until, None);
}

#[test]
fn can_record_request_checks_deadline() {
    let v = setup(2, 10_000, 5_000, 24);
    assert!(can_record_request(&v, 5_000, 0));
    assert!(can_record_request(&v, 4_999, i64::MAX));
    assert!(!can_record_request(&v, 5_000, i64::MAX - 24 * 3600 + 1));
    assert!(can_record_request(&v, 5_000, i64::MAX - 24 * 3600));
    let huge = setup(2, 10_000, 5_000, u64::MAX / 3600);
    assert!(!can_record_request(&huge, 5_000, 0));
}

#[test]
fn double_approval_fails() {
    let mut v = setup(3, 1_000, 5_000, 24);
    let mut w = request(&mut v, 100, 0).unwrap();
    assert_eq!(approve_withdrawal(&v, &mut w, key(A)), Ok(()));
    assert_eq!(approve_withdrawal(&v, &mut w, key(A)), Err(VaultErrorCode::AlreadyApproved));
    assert_eq!(w.approvals.len(), 1);
}

#[test]
fn self_approval_fails() {
    let mut v = setup(2, 1_000, 5_000, 24);
    add_staff(&mut v, key(OWNER), key(A)).unwrap();
    let mut w =
        request_withdrawal(&mut v, key(VAULT), key(A), 10, key(DEST), String::new(), 0).unwrap();
    assert_eq!(
        approve_withdrawal(&v, &mut w, key(A)),
        Err(VaultErrorCode::SelfApprovalNotAllowed)
    );
    assert!(w.approvals.is_empty());
}

#[test]
fn approval_by_non_approver_fails() {
    let mut v = setup(2, 1_000, 5_000, 24);
    let mut w = request(&mut v, 10, 0).unwrap();
    assert_eq!(approve_withdrawal(&v, &mut w, key(S)), Err(VaultErrorCode::Unauthorized));
}

#[test]
fn status_flips_exactly_at_threshold() {
    let mut v = setup(3, 1_000, 5_000, 24);
    let mut w = request(&mut v, 10, 0).unwrap();
    approve_withdrawal(&v, &mut w, key(A)).unwrap();
    assert_eq!(w.status, WithdrawalStatus::Pending);
    approve_withdrawal(&v, &mut w, key(B)).unwrap();
    assert_eq!(w.status, WithdrawalStatus::Pending);
    approve_withdrawal(&v, &mut w, key(C)).unwrap();
    assert_eq!(w.status, WithdrawalStatus::Approved);
    assert_eq!(w.approvals, vec![key(A), key(B), key(C)]);
}

#[test]
fn no_approval_after_approved() {
    let mut v = setup(1, 1_000, 5_000, 24);
    let mut w = request(&mut v, 10, 0).unwrap();
    approve_withdrawal(&v, &mut w, key(A)).unwrap();
    assert_eq!(w.status, WithdrawalStatus::Approved);
    assert_eq!(approve_withdrawal(&v, &mut w, key(B)), Err(VaultErrorCode::InvalidStatus));
    assert_eq!(w.approvals.len(), 1);
}

#[test]
fn execute_pending_fails() {
    let mut v = setup(2, 1_000, 5_000, 24);
    let mut w = request(&mut v, 10, 0).unwrap();
    assert_eq!(
        execute_withdrawal(&mut w, &v, 1_000, 0).unwrap_err(),
        VaultErrorCode::InvalidStatus
    );
    assert_eq!(w.status, WithdrawalStatus::Pending);
}

#[test]
fn execute_waits_for_delay() {
    let mut v = setup(1, 10_000, 5_000, 2);
    let mut w = request(&mut v, 6_000, 100).unwrap();
    approve_withdrawal(&v, &mut w, key(A)).unwrap();
    let ready = 100 + 2 * 3600;
    assert_eq!(
        execute_withdrawal(&mut w, &v, 10_000, ready - 1).unwrap_err(),
        VaultErrorCode::DelayNotPassed
    );
    assert_eq!(w.executed_at, None);
    let t = execute_withdrawal(&mut w, &v, 10_000, ready).unwrap();
    assert_eq!(t.amount, 6_000);
    assert_eq!(w.executed_at, Some(ready));
}

#[test]
fn execute_needs_balance() {
    let mut v = setup(1, 1_000, 5_000, 24);
    let mut w = request(&mut v, 500, 0).unwrap();
    approve_withdrawal(&v, &mut w, key(A)).unwrap();
    assert_eq!(
        execute_withdrawal(&mut w, &v, 499, 10).unwrap_err(),
        VaultErrorCode::InsufficientBalance
    );
    assert_eq!(w.status, WithdrawalStatus::Approved);
    assert!(execute_withdrawal(&mut w, &v, 500, 10).is_ok());
}

#[test]
fn execute_only_once() {
    let mut v = setup(1, 1_000, 5_000, 24);
    let mut w = request(&mut v, 500, 0).unwrap();
    approve_withdrawal(&v, &mut w, key(B)).unwrap();
    let t = execute_withdrawal(&mut w, &v, 500, 7).unwrap();
    assert_eq!(t.destination, key(DEST));
    assert_eq!(t.authority.owner, key(OWNER));
    assert_eq!(t.authority.name, "ops");
    assert_eq!(w.status, WithdrawalStatus::Executed);
    assert_eq!(w.executed_at, Some(7));
    assert_eq!(
        execute_withdrawal(&mut w, &v, 500, 8).unwrap_err(),
        VaultErrorCode::InvalidStatus
    );
    assert_eq!(w.executed_at, Some(7));
}

#[test]
fn end_to_end_two_approvers() {
    let mut v =
        create_vault(key(OWNER), "Team".to_string(), 2, 10_000, 1_000, 5_000, 24, 0).unwrap();
    add_approver(&mut v, key(OWNER), key(A)).unwrap();
    add_approver(&mut v, key(OWNER), key(B)).unwrap();
    add_staff(&mut v, key(OWNER), key(S)).unwrap();

    let mut w = request(&mut v, 500, 50).unwrap();
    assert_eq!(w.status, WithdrawalStatus::Pending);
    assert_eq!(w.delay_until, None);

    approve_withdrawal(&v, &mut w, key(A)).unwrap();
    assert_eq!(w.status, WithdrawalStatus::Pending);
    approve_withdrawal(&v, &mut w, key(B)).unwrap();
    assert_eq!(w.status, WithdrawalStatus::Approved);

    let t = execute_withdrawal(&mut w, &v, 500, 60).unwrap();
    assert_eq!(t.amount, 500);
    assert_eq!(w.status, WithdrawalStatus::Executed);
    assert_eq!(w.executed_at, Some(60));
}
