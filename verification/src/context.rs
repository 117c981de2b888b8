use crate::identity::Identity;
use crate::record::{OrganizationEscrow, VoucherEscrow};
use vstd::prelude::*;

verus! {

/// What is stored at one address of the record store.
#[derive(Clone, Debug, PartialEq, Eq)]
pub struct Account<T> {
    /// The address.
    pub key: Identity,
    /// What the address holds.
    pub data: T,
}

/// A movement of currency that the surrounding environment has to carry out
/// together with the change of records that an operation made.
#[derive(Clone, Copy, Debug, PartialEq, Eq)]
pub struct Transfer {
    /// The address that gives the currency.
    pub from: Identity,
    /// The address that receives it.
    pub to: Identity,
    /// How many currency units move.
    pub amount: u64,
}

/// The accounts of `initialize_organization`.
#[derive(Clone, Debug, PartialEq, Eq)]
pub struct InitializeOrganization {
    /// The address of the new record: vacant before, the record after.
    pub organization: Account<Option<OrganizationEscrow>>,
    /// The caller, who becomes the organization's admin.
    pub admin: Identity,
}

/// The accounts of `deposit`.
#[derive(Clone, Debug, PartialEq, Eq)]
pub struct Deposit {
    /// The organization that receives the deposit.
    pub organization: Account<OrganizationEscrow>,
    /// The caller, who pays.
    pub depositor: Identity,
}

/// The accounts of `add_maintainer` and `remove_maintainer`.
#[derive(Clone, Debug, PartialEq, Eq)]
pub struct ManageMaintainer {
    /// The organization whose maintainers change.
    pub organization: Account<OrganizationEscrow>,
    /// The caller, who has to be the organization's admin.
    pub admin: Identity,
}

/// The accounts of `create_voucher`.
#[derive(Clone, Debug, PartialEq, Eq)]
pub struct CreateVoucher {
    /// The organization that issues the voucher.
    pub organization: Account<OrganizationEscrow>,
    /// The address of the new voucher: vacant before, the voucher after.
    pub voucher: Account<Option<VoucherEscrow>>,
    /// The caller, who has to be a maintainer of the organization.
    pub maintainer: Identity,
}

/// The accounts of `claim_voucher`.
#[derive(Clone, Debug, PartialEq, Eq)]
pub struct ClaimVoucher {
    /// The voucher that is claimed.
    pub voucher: Account<VoucherEscrow>,
    /// The caller, who receives the voucher's amount.
    pub recipient: Identity,
}

/// The accounts of `cancel_voucher`.
#[derive(Clone, Debug, PartialEq, Eq)]
pub struct CancelVoucher {
    /// The organization that takes the amount back.
    pub organization: Account<OrganizationEscrow>,
    /// The voucher that is cancelled.
    pub voucher: Account<VoucherEscrow>,
    /// The caller, who has to be a maintainer of the organization.
    pub maintainer: Identity,
}

/// The accounts of `expire_voucher`.
#[derive(Clone, Debug, PartialEq, Eq)]
pub struct ExpireVoucher {
    /// The organization that takes the amount back.
    pub organization: Account<OrganizationEscrow>,
    /// The voucher that has run out.
    pub voucher: Account<VoucherEscrow>,
}

/// The accounts of `withdraw`.
#[derive(Clone, Debug, PartialEq, Eq)]
pub struct Withdraw {
    /// The organization that pays out.
    pub organization: Account<OrganizationEscrow>,
    /// The caller, who has to be the organization's admin and receives the amount.
    pub admin: Identity,
}

} // verus!
