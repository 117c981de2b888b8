use vstd::prelude::*;

verus! {

/// Every way in which a ledger operation can be refused.
///
/// A refused operation changes nothing: the records it was given are left
/// exactly as they were.
#[derive(Clone, Copy, Debug, PartialEq, Eq, Structural, Hash)]
pub enum ErrorCode {
    /// The amount of a deposit, withdrawal or voucher was zero.
    ZeroAmount,
    /// The organization's balance does not cover the amount.
    InsufficientBalance,
    /// The caller does not hold the role the operation asks for.
    NotAuthorized,
    /// The identity is already a maintainer of the organization.
    MaintainerAlreadyExists,
    /// The voucher identifier is longer than `MAX_VOUCHER_ID_LEN` bytes.
    VoucherIdTooLong,
    /// The metadata is longer than `MAX_METADATA_LEN` bytes.
    MetadataTooLong,
    /// The voucher has already been claimed, cancelled or expired.
    InvalidVoucherState,
    /// The claim came after the voucher's expiry time.
    VoucherExpired,
    /// The expiry was asked for before the voucher's expiry time had passed.
    VoucherNotExpired,
    /// A balance, a voucher count or an expiry time would exceed the largest
    /// representable value.
    Overflow,
    /// A balance would fall below zero.
    Underflow,
    /// The organization already has `MAX_MAINTAINERS` maintainers.
    MaintainerListFull,
    /// A record already exists at the address where one was to be created.
    AddressAlreadyInUse,
    /// The time could not be read from the cluster's clock.
    ClockUnavailable,
}

/// The broad kinds of refusal, for callers that react to the kind only.
#[derive(Clone, Copy, Debug, PartialEq, Eq, Structural, Hash)]
pub enum ErrorClass {
    /// Malformed input: correct it and try again.
    Validation,
    /// The caller lacks a role, or the change would break a rule on roles.
    Authorization,
    /// The record is not in the lifecycle state the operation needs.
    State,
    /// The change would break the balance invariant.
    Accounting,
    /// The surrounding record store refused the operation.
    Environment,
}

impl ErrorCode {
    /// The class an error belongs to.
    pub open spec fn class_of(self) -> ErrorClass {
        match self {
            ErrorCode::ZeroAmount | ErrorCode::VoucherIdTooLong | ErrorCode::MetadataTooLong =>
                ErrorClass::Validation,
            ErrorCode::NotAuthorized
            | ErrorCode::MaintainerAlreadyExists
            | ErrorCode::MaintainerListFull => ErrorClass::Authorization,
            ErrorCode::InvalidVoucherState
            | ErrorCode::VoucherExpired
            | ErrorCode::VoucherNotExpired => ErrorClass::State,
            ErrorCode::InsufficientBalance | ErrorCode::Overflow | ErrorCode::Underflow =>
                ErrorClass::Accounting,
            ErrorCode::AddressAlreadyInUse | ErrorCode::ClockUnavailable =>
                ErrorClass::Environment,
        }
    }

    /// The class this error belongs to.
    pub fn class(&self) -> (c: ErrorClass)
        ensures
            c == self.class_of(),
    {
        match self {
            ErrorCode::ZeroAmount => ErrorClass::Validation,
            ErrorCode::VoucherIdTooLong => ErrorClass::Validation,
            ErrorCode::MetadataTooLong => ErrorClass::Validation,
            ErrorCode::NotAuthorized => ErrorClass::Authorization,
            ErrorCode::MaintainerAlreadyExists => ErrorClass::Authorization,
            ErrorCode::MaintainerListFull => ErrorClass::Authorization,
            ErrorCode::InvalidVoucherState => ErrorClass::State,
            ErrorCode::VoucherExpired => ErrorClass::State,
            ErrorCode::VoucherNotExpired => ErrorClass::State,
            ErrorCode::InsufficientBalance => ErrorClass::Accounting,
            ErrorCode::Overflow => ErrorClass::Accounting,
            ErrorCode::Underflow => ErrorClass::Accounting,
            ErrorCode::AddressAlreadyInUse => ErrorClass::Environment,
            ErrorCode::ClockUnavailable => ErrorClass::Environment,
        }
    }

    /// The text shown to a person for an error.
    pub open spec fn message_of(self) -> Seq<char> {
        match self {
            ErrorCode::ZeroAmount => "Amount must be greater than zero"@,
            ErrorCode::InsufficientBalance => "Insufficient balance"@,
            ErrorCode::NotAuthorized => "Not authorized"@,
            ErrorCode::MaintainerAlreadyExists => "Maintainer already exists"@,
            ErrorCode::VoucherIdTooLong => "Voucher ID too long (max 64 characters)"@,
            ErrorCode::MetadataTooLong => "Metadata too long (max 512 characters)"@,
            ErrorCode::InvalidVoucherState => "Invalid voucher state"@,
            ErrorCode::VoucherExpired => "Voucher has expired"@,
            ErrorCode::VoucherNotExpired => "Voucher has not expired yet"@,
            ErrorCode::Overflow => "Arithmetic overflow"@,
            ErrorCode::Underflow => "Arithmetic underflow"@,
            ErrorCode::MaintainerListFull => "Maintainer list is full (max 10 maintainers)"@,
            ErrorCode::AddressAlreadyInUse => "Address already in use"@,
            ErrorCode::ClockUnavailable => "Clock is not available"@,
        }
    }

    /// The text shown to a person for this error.
    pub fn message(&self) -> (text: &'static str)
        ensures
            text@ == self.message_of(),
    {
        match self {
            ErrorCode::ZeroAmount => "Amount must be greater than zero",
            ErrorCode::InsufficientBalance => "Insufficient balance",
            ErrorCode::NotAuthorized => "Not authorized",
            ErrorCode::MaintainerAlreadyExists => "Maintainer already exists",
            ErrorCode::VoucherIdTooLong => "Voucher ID too long (max 64 characters)",
            ErrorCode::MetadataTooLong => "Metadata too long (max 512 characters)",
            ErrorCode::InvalidVoucherState => "Invalid voucher state",
            ErrorCode::VoucherExpired => "Voucher has expired",
            ErrorCode::VoucherNotExpired => "Voucher has not expired yet",
            ErrorCode::Overflow => "Arithmetic overflow",
            ErrorCode::Underflow => "Arithmetic underflow",
            ErrorCode::MaintainerListFull => "Maintainer list is full (max 10 maintainers)",
            ErrorCode::AddressAlreadyInUse => "Address already in use",
            ErrorCode::ClockUnavailable => "Clock is not available",
        }
    }
}

} // verus!
