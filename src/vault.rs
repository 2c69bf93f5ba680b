use vstd::prelude::*;
use crate::error::VaultErrorCode;
use crate::principal::{Principal, contains_principal, remove_principal, without};

verus! {

/// Most approvers a vault can have.
pub const MAX_APPROVERS: usize = 10;

/// Most staff members a vault can have.
pub const MAX_STAFF: usize = 20;

/// Longest vault name, in characters.
pub const MAX_NAME_LEN: usize = 50;

/// A treasury governed by its owner, voted on by approvers and drawn on by staff.
#[derive(Debug)]
pub struct Vault {
    pub owner: Principal,
    pub name: String,
    pub approvers: Vec<Principal>,
    pub staff: Vec<Principal>,
    pub approval_threshold: u8,
    pub daily_limit: u64,
    pub tx_limit: u64,
    pub large_withdrawal_threshold: u64,
    pub delay_hours: u64,
    pub frozen: bool,
    pub withdrawal_count: u64,
    pub created_at: i64,
}

/// What a vault holds, with its lists and name as sequences.
pub ghost struct VaultView {
    pub owner: Principal,
    pub name: Seq<char>,
    pub approvers: Seq<Principal>,
    pub staff: Seq<Principal>,
    pub approval_threshold: u8,
    pub daily_limit: u64,
    pub tx_limit: u64,
    pub large_withdrawal_threshold: u64,
    pub delay_hours: u64,
    pub frozen: bool,
    pub withdrawal_count: u64,
    pub created_at: i64,
}

impl View for Vault {
    type V = VaultView;

    open spec fn view(&self) -> VaultView {
        VaultView {
            owner: self.owner,
            name: self.name@,
            approvers: self.approvers@,
            staff: self.staff@,
            approval_threshold: self.approval_threshold,
            daily_limit: self.daily_limit,
            tx_limit: self.tx_limit,
            large_withdrawal_threshold: self.large_withdrawal_threshold,
            delay_hours: self.delay_hours,
            frozen: self.frozen,
            withdrawal_count: self.withdrawal_count,
            created_at: self.created_at,
        }
    }
}

impl VaultView {
    /// The vault's invariant: bounded lists without repeats, a threshold of at
    /// least one, positive limits and a name of one to fifty characters.
    pub open spec fn wf(self) -> bool {
        &&& 1 <= self.name.len() <= MAX_NAME_LEN
        &&& self.approvers.len() <= MAX_APPROVERS
        &&& self.staff.len() <= MAX_STAFF
        &&& self.approvers.no_duplicates()
        &&& self.staff.no_duplicates()
        &&& self.approval_threshold >= 1
        &&& self.daily_limit > 0
        &&& self.tx_limit > 0
        &&& self.large_withdrawal_threshold > 0
    }
}

/// The error that creating a vault with these settings gives, if any, in the
/// order the settings are checked.
pub open spec fn creation_error(
    name: Seq<char>,
    approval_threshold: u8,
    daily_limit: u64,
    tx_limit: u64,
    large_withdrawal_threshold: u64,
) -> Option<VaultErrorCode> {
    if !(1 <= name.len() <= MAX_NAME_LEN) {
        Some(VaultErrorCode::InvalidName)
    } else if approval_threshold == 0 {
        Some(VaultErrorCode::InvalidThreshold)
    } else if daily_limit == 0 || tx_limit == 0 || large_withdrawal_threshold == 0 {
        Some(VaultErrorCode::InvalidLimit)
    } else {
        None
    }
}

/// The error that adding `member` to a list of capacity `cap` gives, if any.
pub open spec fn add_member_error(
    v: VaultView,
    list: Seq<Principal>,
    cap: nat,
    caller: Principal,
    member: Principal,
    full: VaultErrorCode,
    duplicate: VaultErrorCode,
) -> Option<VaultErrorCode> {
    if caller != v.owner {
        Some(VaultErrorCode::Unauthorized)
    } else if list.len() >= cap {
        Some(full)
    } else if list.contains(member) {
        Some(duplicate)
    } else {
        None
    }
}

/// The error that the owner's call to add `approver` gives, if any.
pub open spec fn add_approver_error(v: VaultView, caller: Principal, approver: Principal) -> Option<
    VaultErrorCode,
> {
    add_member_error(
        v,
        v.approvers,
        MAX_APPROVERS as nat,
        caller,
        approver,
        VaultErrorCode::MaxApproversReached,
        VaultErrorCode::DuplicateApprover,
    )
}

/// The error that the owner's call to add `staff` gives, if any.
pub open spec fn add_staff_error(v: VaultView, caller: Principal, staff: Principal) -> Option<
    VaultErrorCode,
> {
    add_member_error(
        v,
        v.staff,
        MAX_STAFF as nat,
        caller,
        staff,
        VaultErrorCode::MaxStaffReached,
        VaultErrorCode::DuplicateStaff,
    )
}

/// The error that removing `approver` gives, if any. After the removal the
/// list must still hold more approvers than the threshold.
pub open spec fn remove_approver_error(v: VaultView, caller: Principal, approver: Principal) -> Option<
    VaultErrorCode,
> {
    if caller != v.owner {
        Some(VaultErrorCode::Unauthorized)
    } else if !v.approvers.contains(approver) {
        Some(VaultErrorCode::ApproverNotFound)
    } else if v.approvers.len() - 1 <= v.approval_threshold {
        Some(VaultErrorCode::InvalidThreshold)
    } else {
        None
    }
}

/// The error that removing `staff` gives, if any.
pub open spec fn remove_staff_error(v: VaultView, caller: Principal, staff: Principal) -> Option<
    VaultErrorCode,
> {
    if caller != v.owner {
        Some(VaultErrorCode::Unauthorized)
    } else if !v.staff.contains(staff) {
        Some(VaultErrorCode::StaffNotFound)
    } else {
        None
    }
}

/// The identity under which the vault signs its own transfers: it is derived
/// from the owner and the name, so no secret is stored.
#[derive(Debug)]
pub struct VaultAuthority {
    pub owner: Principal,
    pub name: String,
}

impl Vault {
    pub fn is_owner(&self, who: &Principal) -> (r: bool)
        ensures
            r == (*who == self.owner),
    {
        *who == self.owner
    }

    pub fn is_approver(&self, who: &Principal) -> (r: bool)
        ensures
            r == self.approvers@.contains(*who),
    {
        contains_principal(&self.approvers, who)
    }

    pub fn is_staff(&self, who: &Principal) -> (r: bool)
        ensures
            r == self.staff@.contains(*who),
    {
        contains_principal(&self.staff, who)
    }

    /// The signing identity handed to the ledger when the vault pays out.
    pub fn authority(&self) -> (r: VaultAuthority)
        ensures
            r.owner == self.owner,
            r.name@ == self.name@,
    {
        VaultAuthority { owner: self.owner, name: self.name.clone() }
    }
}

/// Opens a vault with empty approver and staff lists, unfrozen, with no
/// withdrawals yet.
pub fn create_vault(
    owner: Principal,
    name: String,
    approval_threshold: u8,
    daily_limit: u64,
    tx_limit: u64,
    large_withdrawal_threshold: u64,
    delay_hours: u64,
    now: i64,
) -> (r: Result<Vault, VaultErrorCode>)
    ensures
        match r {
            Ok(v) => {
                &&& creation_error(
                    name@,
                    approval_threshold,
                    daily_limit,
                    tx_limit,
                    large_withdrawal_threshold,
                ) is None
                &&& v@ == (VaultView {
                    owner,
                    name: name@,
                    approvers: Seq::empty(),
                    staff: Seq::empty(),
                    approval_threshold,
                    daily_limit,
                    tx_limit,
                    large_withdrawal_threshold,
                    delay_hours,
                    frozen: false,
                    withdrawal_count: 0,
                    created_at: now,
                })
                &&& v@.wf()
            },
            Err(e) => creation_error(
                name@,
                approval_threshold,
                daily_limit,
                tx_limit,
                large_withdrawal_threshold,
            ) == Some(e),
        },
{
    let name_len = name.as_str().unicode_len();
    if name_len == 0 || name_len > MAX_NAME_LEN {
        return Err(VaultErrorCode::InvalidName);
    }
    if approval_threshold == 0 {
        return Err(VaultErrorCode::InvalidThreshold);
    }
    if daily_limit == 0 || tx_limit == 0 || large_withdrawal_threshold == 0 {
        return Err(VaultErrorCode::InvalidLimit);
    }
    let v = Vault {
        owner,
        name,
        approvers: Vec::new(),
        staff: Vec::new(),
        approval_threshold,
        daily_limit,
        tx_limit,
        large_withdrawal_threshold,
        delay_hours,
        frozen: false,
        withdrawal_count: 0,
        created_at: now,
    };
    assert(v@.approvers =~= Seq::<Principal>::empty());
    assert(v@.staff =~= Seq::<Principal>::empty());
    Ok(v)
}

/// The owner appends `approver` to the approver list.
pub fn add_approver(vault: &mut Vault, caller: Principal, approver: Principal) -> (r: Result<
    (),
    VaultErrorCode,
>)
    ensures
        match r {
            Ok(()) => {
                &&& add_approver_error(old(vault)@, caller, approver) is None
                &&& final(vault)@ == (VaultView {
                    approvers: old(vault)@.approvers.push(approver),
                    ..old(vault)@
                })
            },
            Err(e) => {
                &&& add_approver_error(old(vault)@, caller, approver) == Some(e)
                &&& final(vault)@ == old(vault)@
            },
        },
        old(vault)@.wf() ==> final(vault)@.wf(),
{
    if !vault.is_owner(&caller) {
        return Err(VaultErrorCode::Unauthorized);
    }
    if vault.approvers.len() >= MAX_APPROVERS {
        return Err(VaultErrorCode::MaxApproversReached);
    }
    if vault.is_approver(&approver) {
        return Err(VaultErrorCode::DuplicateApprover);
    }
    vault.approvers.push(approver);
    Ok(())
}

/// The owner takes `approver` off the approver list.
pub fn remove_approver(vault: &mut Vault, caller: Principal, approver: Principal) -> (r: Result<
    (),
    VaultErrorCode,
>)
    ensures
        match r {
            Ok(()) => {
                &&& remove_approver_error(old(vault)@, caller, approver) is None
                &&& final(vault)@ == (VaultView {
                    approvers: without(old(vault)@.approvers, approver),
                    ..old(vault)@
                })
            },
            Err(e) => {
                &&& remove_approver_error(old(vault)@, caller, approver) == Some(e)
                &&& final(vault)@ == old(vault)@
            },
        },
        old(vault)@.wf() ==> final(vault)@.wf(),
{
    if !vault.is_owner(&caller) {
        return Err(VaultErrorCode::Unauthorized);
    }
    if !vault.is_approver(&approver) {
        return Err(VaultErrorCode::ApproverNotFound);
    }
    if vault.approvers.len() - 1 <= vault.approval_threshold as usize {
        return Err(VaultErrorCode::InvalidThreshold);
    }
    vault.approvers = remove_principal(&vault.approvers, &approver);
    Ok(())
}

/// The owner appends `staff` to the staff list.
pub fn add_staff(vault: &mut Vault, caller: Principal, staff: Principal) -> (r: Result<
    (),
    VaultErrorCode,
>)
    ensures
        match r {
            Ok(()) => {
                &&& add_staff_error(old(vault)@, caller, staff) is None
                &&& final(vault)@ == (VaultView { staff: old(vault)@.staff.push(staff), ..old(vault)@ })
            },
            Err(e) => {
                &&& add_staff_error(old(vault)@, caller, staff) == Some(e)
                &&& final(vault)@ == old(vault)@
            },
        },
        old(vault)@.wf() ==> final(vault)@.wf(),
{
    if !vault.is_owner(&caller) {
        return Err(VaultErrorCode::Unauthorized);
    }
    if vault.staff.len() >= MAX_STAFF {
        return Err(VaultErrorCode::MaxStaffReached);
    }
    if vault.is_staff(&staff) {
        return Err(VaultErrorCode::DuplicateStaff);
    }
    vault.staff.push(staff);
    Ok(())
}

/// The owner takes `staff` off the staff list.
pub fn remove_staff(vault: &mut Vault, caller: Principal, staff: Principal) -> (r: Result<
    (),
    VaultErrorCode,
>)
    ensures
        match r {
            Ok(()) => {
                &&& remove_staff_error(old(vault)@, caller, staff) is None
                &&& final(vault)@ == (VaultView { staff: without(old(vault)@.staff, staff), ..old(vault)@ })
            },
            Err(e) => {
                &&& remove_staff_error(old(vault)@, caller, staff) == Some(e)
                &&& final(vault)@ == old(vault)@
            },
        },
        old(vault)@.wf() ==> final(vault)@.wf(),
{
    if !vault.is_owner(&caller) {
        return Err(VaultErrorCode::Unauthorized);
    }
    if !vault.is_staff(&staff) {
        return Err(VaultErrorCode::StaffNotFound);
    }
    vault.staff = remove_principal(&vault.staff, &staff);
    Ok(())
}

/// The owner sets the freeze flag; freezing a frozen vault changes nothing.
pub fn freeze(vault: &mut Vault, caller: Principal) -> (r: Result<(), VaultErrorCode>)
    ensures
        match r {
            Ok(()) => caller == old(vault).owner && final(vault)@ == (VaultView {
                frozen: true,
                ..old(vault)@
            }),
            Err(e) => caller != old(vault).owner && e == VaultErrorCode::Unauthorized
                && final(vault)@ == old(vault)@,
        },
        old(vault)@.wf() ==> final(vault)@.wf(),
{
    if !vault.is_owner(&caller) {
        return Err(VaultErrorCode::Unauthorized);
    }
    vault.frozen = true;
    Ok(())
}

/// The owner clears the freeze flag; unfreezing an open vault changes nothing.
pub fn unfreeze(vault: &mut Vault, caller: Principal) -> (r: Result<(), VaultErrorCode>)
    ensures
        match r {
            Ok(()) => caller == old(vault).owner && final(vault)@ == (VaultView {
                frozen: false,
                ..old(vault)@
            }),
            Err(e) => caller != old(vault).owner && e == VaultErrorCode::Unauthorized
                && final(vault)@ == old(vault)@,
        },
        old(vault)@.wf() ==> final(vault)@.wf(),
{
    if !vault.is_owner(&caller) {
        return Err(VaultErrorCode::Unauthorized);
    }
    vault.frozen = false;
    Ok(())
}

} // verus!
