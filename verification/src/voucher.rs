use crate::clock::unix_timestamp;
use crate::context::{CancelVoucher, ClaimVoucher, CreateVoucher, ExpireVoucher, Transfer};
use crate::error::ErrorCode;
use crate::identity::Identity;
use crate::record::{
    byte_len, utf8_len, OrganizationView, VoucherEscrow, VoucherState, VoucherView,
    MAX_METADATA_LEN, MAX_VOUCHER_ID_LEN, VOUCHER_LIFETIME,
};
use vstd::prelude::*;

verus! {

/// Why a creation is refused whatever the time, if it is. The checks are
/// made in this order, and the first that fails names the error.
pub open spec fn create_voucher_refusal(
    org: OrganizationView,
    vacant: bool,
    maintainer: Identity,
    voucher_id: Seq<char>,
    amount: u64,
    metadata: Seq<char>,
) -> Option<ErrorCode> {
    if !vacant {
        Some(ErrorCode::AddressAlreadyInUse)
    } else if amount == 0 {
        Some(ErrorCode::ZeroAmount)
    } else if utf8_len(voucher_id) > MAX_VOUCHER_ID_LEN {
        Some(ErrorCode::VoucherIdTooLong)
    } else if utf8_len(metadata) > MAX_METADATA_LEN {
        Some(ErrorCode::MetadataTooLong)
    } else if org.balance < amount {
        Some(ErrorCode::InsufficientBalance)
    } else if !org.is_maintainer(maintainer) {
        Some(ErrorCode::NotAuthorized)
    } else {
        None
    }
}

/// Why a creation at the time `now` is refused, if it is: for one of the
/// reasons that do not depend on the time, or else because the expiry time
/// or the organization's voucher count would overflow.
pub open spec fn create_voucher_refusal_at(
    org: OrganizationView,
    vacant: bool,
    maintainer: Identity,
    voucher_id: Seq<char>,
    amount: u64,
    metadata: Seq<char>,
    now: i64,
) -> Option<ErrorCode> {
    match create_voucher_refusal(org, vacant, maintainer, voucher_id, amount, metadata) {
        Some(e) => Some(e),
        None => if now + VOUCHER_LIFETIME > i64::MAX || org.total_vouchers_created == u64::MAX {
            Some(ErrorCode::Overflow)
        } else {
            None
        },
    }
}

/// The voucher that a creation writes.
pub open spec fn issued_voucher(
    organization: Identity,
    voucher_id: Seq<char>,
    recipient_github_id: u64,
    amount: u64,
    metadata: Seq<char>,
    now: i64,
    bump: u8,
) -> VoucherView {
    VoucherView {
        voucher_id,
        organization,
        recipient_github_id,
        amount,
        created_at: now,
        expires_at: (now + VOUCHER_LIFETIME) as i64,
        state: VoucherState::Pending,
        metadata,
        bump,
    }
}

/// The organization after it has issued a voucher of the given amount.
pub open spec fn after_issue(org: OrganizationView, amount: u64) -> OrganizationView {
    OrganizationView {
        balance: (org.balance - amount) as u64,
        total_vouchers_created: (org.total_vouchers_created + 1) as u64,
        ..org
    }
}

/// What a creation at the time `now` does: `before` and `after` are the
/// accounts before and after the call, `result` is what the call returns.
///
/// A refused creation changes nothing. An accepted one writes the voucher
/// in state `Pending`, lowers the organization's balance by `amount`,
/// raises its voucher count by one, and returns the movement of `amount`
/// from the organization's address to the voucher's.
pub open spec fn creation_outcome(
    before: CreateVoucher,
    after: CreateVoucher,
    result: Result<Transfer, ErrorCode>,
    voucher_id: Seq<char>,
    recipient_github_id: u64,
    amount: u64,
    metadata: Seq<char>,
    now: i64,
    bump: u8,
) -> bool {
    match create_voucher_refusal_at(
        before.organization.data@,
        before.voucher.data is None,
        before.maintainer,
        voucher_id,
        amount,
        metadata,
        now,
    ) {
        Some(e) => result == Err::<Transfer, ErrorCode>(e) && after == before,
        None => {
            &&& result == Ok::<Transfer, ErrorCode>(
                (Transfer { from: before.organization.key, to: before.voucher.key, amount }),
            )
            &&& after.organization.key == before.organization.key
            &&& after.organization.data@ == after_issue(before.organization.data@, amount)
            &&& after.voucher.key == before.voucher.key
            &&& after.voucher.data matches Some(v) && v@ == issued_voucher(
                before.organization.key,
                voucher_id,
                recipient_github_id,
                amount,
                metadata,
                now,
                bump,
            )
            &&& after.maintainer == before.maintainer
        },
    }
}

/// Makes the checks of a creation that do not depend on the time.
fn check_creation(ctx: &CreateVoucher, voucher_id: &str, amount: u64, metadata: &str) -> (result:
    Result<(), ErrorCode>)
    ensures
        match create_voucher_refusal(
            ctx.organization.data@,
            ctx.voucher.data is None,
            ctx.maintainer,
            voucher_id@,
            amount,
            metadata@,
        ) {
            Some(e) => result == Err::<(), ErrorCode>(e),
            None => result is Ok,
        },
{
    if ctx.voucher.data.is_some() {
        return Err(ErrorCode::AddressAlreadyInUse);
    }
    if amount == 0 {
        return Err(ErrorCode::ZeroAmount);
    }
    if byte_len(voucher_id) > MAX_VOUCHER_ID_LEN {
        return Err(ErrorCode::VoucherIdTooLong);
    }
    if byte_len(metadata) > MAX_METADATA_LEN {
        return Err(ErrorCode::MetadataTooLong);
    }
    if ctx.organization.data.balance < amount {
        return Err(ErrorCode::InsufficientBalance);
    }
    if !ctx.organization.data.is_maintainer(&ctx.maintainer) {
        return Err(ErrorCode::NotAuthorized);
    }
    Ok(())
}

/// Writes the voucher of a creation that has passed the checks which do not
/// depend on the time.
fn issue(
    ctx: &mut CreateVoucher,
    voucher_id: String,
    recipient_github_id: u64,
    amount: u64,
    metadata: String,
    now: i64,
    bump: u8,
) -> (result: Result<Transfer, ErrorCode>)
    requires
        create_voucher_refusal(
            old(ctx).organization.data@,
            old(ctx).voucher.data is None,
            old(ctx).maintainer,
            voucher_id@,
            amount,
            metadata@,
        ) is None,
    ensures
        creation_outcome(
            *old(ctx),
            *final(ctx),
            result,
            voucher_id@,
            recipient_github_id,
            amount,
            metadata@,
            now,
            bump,
        ),
        result != Err::<Transfer, ErrorCode>(ErrorCode::Underflow),
{
    let expires_at: i64 = match now.checked_add(VOUCHER_LIFETIME) {
        Some(t) => t,
        None => {
            return Err(ErrorCode::Overflow);
        },
    };
    let count: u64 = match ctx.organization.data.total_vouchers_created.checked_add(1) {
        Some(n) => n,
        None => {
            return Err(ErrorCode::Overflow);
        },
    };
    let balance: u64 = match ctx.organization.data.balance.checked_sub(amount) {
        Some(b) => b,
        None => {
            return Err(ErrorCode::Underflow);
        },
    };
    let voucher = VoucherEscrow {
        voucher_id,
        organization: ctx.organization.key,
        recipient_github_id,
        amount,
        created_at: now,
        expires_at,
        state: VoucherState::Pending,
        metadata,
        bump,
    };
    ctx.voucher.data = Some(voucher);
    ctx.organization.data.balance = balance;
    ctx.organization.data.total_vouchers_created = count;
    Ok(Transfer { from: ctx.organization.key, to: ctx.voucher.key, amount })
}

/// Issues a voucher at the time `now`: sets `amount` aside from the
/// organization's balance for the external recipient, claimable until
/// `VOUCHER_LIFETIME` seconds after `now`.
///
/// The caller has to be a maintainer of the organization, and the voucher's
/// address has to be vacant. See `creation_outcome` for what is written and
/// returned. The defensive check of the balance subtraction can never fail,
/// so `Underflow` is never returned.
pub fn create_voucher_at(
    ctx: &mut CreateVoucher,
    voucher_id: String,
    recipient_github_id: u64,
    amount: u64,
    metadata: String,
    now: i64,
    bump: u8,
) -> (result: Result<Transfer, ErrorCode>)
    ensures
        creation_outcome(
            *old(ctx),
            *final(ctx),
            result,
            voucher_id@,
            recipient_github_id,
            amount,
            metadata@,
            now,
            bump,
        ),
        result != Err::<Transfer, ErrorCode>(ErrorCode::Underflow),
        old(ctx).organization.data@.wf() ==> final(ctx).organization.data@.wf(),
        result is Ok ==> (final(ctx).voucher.data matches Some(v) && v@.wf()),
{
    match check_creation(ctx, voucher_id.as_str(), amount, metadata.as_str()) {
        Ok(()) => issue(ctx, voucher_id, recipient_github_id, amount, metadata, now, bump),
        Err(e) => Err(e),
    }
}

/// Issues a voucher at the time that the cluster's clock shows.
///
/// A creation that is refused whatever the time is refused without a look
/// at the clock. Otherwise the clock is read: where that fails the call is
/// refused with `ClockUnavailable` and nothing changes, and where it gives a
/// time the call does what `create_voucher_at` does at that time.
pub fn create_voucher(
    ctx: &mut CreateVoucher,
    voucher_id: String,
    recipient_github_id: u64,
    amount: u64,
    metadata: String,
    bump: u8,
) -> (result: Result<Transfer, ErrorCode>)
    ensures
        match create_voucher_refusal(
            old(ctx).organization.data@,
            old(ctx).voucher.data is None,
            old(ctx).maintainer,
            voucher_id@,
            amount,
            metadata@,
        ) {
            Some(e) => result == Err::<Transfer, ErrorCode>(e) && *final(ctx) == *old(ctx),
            None => {
                ||| result == Err::<Transfer, ErrorCode>(ErrorCode::ClockUnavailable) && *final(ctx)
                    == *old(ctx)
                ||| exists|now: i64|
                    creation_outcome(
                        *old(ctx),
                        *final(ctx),
                        result,
                        voucher_id@,
                        recipient_github_id,
                        amount,
                        metadata@,
                        now,
                        bump,
                    )
            },
        },
        result != Err::<Transfer, ErrorCode>(ErrorCode::Underflow),
        old(ctx).organization.data@.wf() ==> final(ctx).organization.data@.wf(),
        result is Ok ==> (final(ctx).voucher.data matches Some(v) && v@.wf()),
{
    match check_creation(ctx, voucher_id.as_str(), amount, metadata.as_str()) {
        Ok(()) => {},
        Err(e) => {
            return Err(e);
        },
    }
    match unix_timestamp() {
        Ok(now) => issue(ctx, voucher_id, recipient_github_id, amount, metadata, now, bump),
        Err(_) => Err(ErrorCode::ClockUnavailable),
    }
}

/// Why a claim at the time `now` is refused, if it is.
pub open spec fn claim_voucher_refusal(voucher: VoucherView, now: i64) -> Option<ErrorCode> {
    if voucher.state != VoucherState::Pending {
        Some(ErrorCode::InvalidVoucherState)
    } else if now > voucher.expires_at {
        Some(ErrorCode::VoucherExpired)
    } else {
        None
    }
}

/// What a claim at the time `now` does: `before` and `after` are the
/// accounts before and after the call, `result` is what the call returns.
///
/// A refused claim changes nothing. An accepted one makes the voucher
/// `Claimed` and returns the movement of its amount from the voucher's
/// address to the caller.
pub open spec fn claim_outcome(
    before: ClaimVoucher,
    after: ClaimVoucher,
    result: Result<Transfer, ErrorCode>,
    now: i64,
) -> bool {
    match claim_voucher_refusal(before.voucher.data@, now) {
        Some(e) => result == Err::<Transfer, ErrorCode>(e) && after == before,
        None => {
            &&& result == Ok::<Transfer, ErrorCode>(
                (Transfer {
                    from: before.voucher.key,
                    to: before.recipient,
                    amount: before.voucher.data.amount,
                }),
            )
            &&& after.voucher.key == before.voucher.key
            &&& after.voucher.data@ == before.voucher.data@.with_state(VoucherState::Claimed)
            &&& after.recipient == before.recipient
        },
    }
}

/// Pays a pending voucher out to the caller, at the time `now`.
///
/// The voucher can be claimed up to and including its expiry time. Nothing
/// ties the caller to the voucher's `recipient_github_id`: whoever presents
/// a pending, unexpired voucher receives its amount.
pub fn claim_voucher_at(ctx: &mut ClaimVoucher, now: i64) -> (result: Result<Transfer, ErrorCode>)
    ensures
        claim_outcome(*old(ctx), *final(ctx), result, now),
        old(ctx).voucher.data@.wf() ==> final(ctx).voucher.data@.wf(),
{
    if ctx.voucher.data.state != VoucherState::Pending {
        return Err(ErrorCode::InvalidVoucherState);
    }
    if now > ctx.voucher.data.expires_at {
        return Err(ErrorCode::VoucherExpired);
    }
    let amount: u64 = ctx.voucher.data.amount;
    ctx.voucher.data.state = VoucherState::Claimed;
    Ok(Transfer { from: ctx.voucher.key, to: ctx.recipient, amount })
}

/// Pays a pending voucher out to the caller, at the time that the cluster's
/// clock shows.
///
/// A voucher that is not pending is refused without a look at the clock.
/// Otherwise the clock is read: where that fails the call is refused with
/// `ClockUnavailable` and nothing changes, and where it gives a time the
/// call does what `claim_voucher_at` does at that time.
pub fn claim_voucher(ctx: &mut ClaimVoucher) -> (result: Result<Transfer, ErrorCode>)
    ensures
        old(ctx).voucher.data.state != VoucherState::Pending ==> result == Err::<
            Transfer,
            ErrorCode,
        >(ErrorCode::InvalidVoucherState) && *final(ctx) == *old(ctx),
        old(ctx).voucher.data.state == VoucherState::Pending ==> {
            ||| result == Err::<Transfer, ErrorCode>(ErrorCode::ClockUnavailable) && *final(ctx)
                == *old(ctx)
            ||| exists|now: i64| claim_outcome(*old(ctx), *final(ctx), result, now)
        },
        old(ctx).voucher.data@.wf() ==> final(ctx).voucher.data@.wf(),
{
    if ctx.voucher.data.state != VoucherState::Pending {
        return Err(ErrorCode::InvalidVoucherState);
    }
    match unix_timestamp() {
        Ok(now) => claim_voucher_at(ctx, now),
        Err(_) => Err(ErrorCode::ClockUnavailable),
    }
}

/// Why `cancel_voucher` refuses, if it does.
pub open spec fn cancel_voucher_refusal(
    org: OrganizationView,
    voucher: VoucherView,
    maintainer: Identity,
) -> Option<ErrorCode> {
    if voucher.state != VoucherState::Pending {
        Some(ErrorCode::InvalidVoucherState)
    } else if !org.is_maintainer(maintainer) {
        Some(ErrorCode::NotAuthorized)
    } else if org.balance + voucher.amount > u64::MAX {
        Some(ErrorCode::Overflow)
    } else {
        None
    }
}

/// The organization after a voucher's amount has come back to it.
pub open spec fn after_return(org: OrganizationView, amount: u64) -> OrganizationView {
    org.with_balance((org.balance + amount) as u64)
}

/// Takes a pending voucher back: its amount returns to the organization in
/// the context.
///
/// The caller has to be a maintainer of that organization. On success the
/// voucher becomes `Cancelled`, the organization's balance is raised by the
/// voucher's amount, and the result is the movement of the amount from the
/// voucher's address to the organization's. On refusal nothing changes.
///
/// The voucher's `organization` field is not compared with the organization
/// in the context.
pub fn cancel_voucher(ctx: &mut CancelVoucher) -> (result: Result<Transfer, ErrorCode>)
    ensures
        match cancel_voucher_refusal(
            old(ctx).organization.data@,
            old(ctx).voucher.data@,
            old(ctx).maintainer,
        ) {
            Some(e) => result == Err::<Transfer, ErrorCode>(e) && *final(ctx) == *old(ctx),
            None => {
                &&& result == Ok::<Transfer, ErrorCode>(
                    (Transfer {
                        from: old(ctx).voucher.key,
                        to: old(ctx).organization.key,
                        amount: old(ctx).voucher.data.amount,
                    }),
                )
                &&& final(ctx).organization.key == old(ctx).organization.key
                &&& final(ctx).organization.data@ == after_return(
                    old(ctx).organization.data@,
                    old(ctx).voucher.data.amount,
                )
                &&& final(ctx).voucher.key == old(ctx).voucher.key
                &&& final(ctx).voucher.data@ == old(ctx).voucher.data@.with_state(
                    VoucherState::Cancelled,
                )
                &&& final(ctx).maintainer == old(ctx).maintainer
            },
        },
        old(ctx).organization.data@.wf() ==> final(ctx).organization.data@.wf(),
        old(ctx).voucher.data@.wf() ==> final(ctx).voucher.data@.wf(),
{
    if ctx.voucher.data.state != VoucherState::Pending {
        return Err(ErrorCode::InvalidVoucherState);
    }
    if !ctx.organization.data.is_maintainer(&ctx.maintainer) {
        return Err(ErrorCode::NotAuthorized);
    }
    let amount: u64 = ctx.voucher.data.amount;
    let balance: u64 = match ctx.organization.data.balance.checked_add(amount) {
        Some(b) => b,
        None => {
            return Err(ErrorCode::Overflow);
        },
    };
    ctx.voucher.data.state = VoucherState::Cancelled;
    ctx.organization.data.balance = balance;
    Ok(Transfer { from: ctx.voucher.key, to: ctx.organization.key, amount })
}

/// Why an expiry at the time `now` is refused, if it is.
pub open spec fn expire_voucher_refusal(
    org: OrganizationView,
    voucher: VoucherView,
    now: i64,
) -> Option<ErrorCode> {
    if voucher.state != VoucherState::Pending {
        Some(ErrorCode::InvalidVoucherState)
    } else if now <= voucher.expires_at {
        Some(ErrorCode::VoucherNotExpired)
    } else if org.balance + voucher.amount > u64::MAX {
        Some(ErrorCode::Overflow)
    } else {
        None
    }
}

/// What an expiry at the time `now` does: `before` and `after` are the
/// accounts before and after the call, `result` is what the call returns.
///
/// A refused expiry changes nothing. An accepted one makes the voucher
/// `Expired`, raises the organization's balance by the voucher's amount, and
/// returns the movement of the amount from the voucher's address to the
/// organization's.
pub open spec fn expiry_outcome(
    before: ExpireVoucher,
    after: ExpireVoucher,
    result: Result<Transfer, ErrorCode>,
    now: i64,
) -> bool {
    match expire_voucher_refusal(before.organization.data@, before.voucher.data@, now) {
        Some(e) => result == Err::<Transfer, ErrorCode>(e) && after == before,
        None => {
            &&& result == Ok::<Transfer, ErrorCode>(
                (Transfer {
                    from: before.voucher.key,
                    to: before.organization.key,
                    amount: before.voucher.data.amount,
                }),
            )
            &&& after.organization.key == before.organization.key
            &&& after.organization.data@ == after_return(
                before.organization.data@,
                before.voucher.data.amount,
            )
            &&& after.voucher.key == before.voucher.key
            &&& after.voucher.data@ == before.voucher.data@.with_state(VoucherState::Expired)
        },
    }
}

/// Closes a pending voucher whose expiry time has passed at the time `now`:
/// its amount returns to the organization in the context.
///
/// Anyone may call this; only the time decides. The voucher's
/// `organization` field is not compared with the organization in the
/// context.
pub fn expire_voucher_at(ctx: &mut ExpireVoucher, now: i64) -> (result: Result<
    Transfer,
    ErrorCode,
>)
    ensures
        expiry_outcome(*old(ctx), *final(ctx), result, now),
        old(ctx).organization.data@.wf() ==> final(ctx).organization.data@.wf(),
        old(ctx).voucher.data@.wf() ==> final(ctx).voucher.data@.wf(),
{
    if ctx.voucher.data.state != VoucherState::Pending {
        return Err(ErrorCode::InvalidVoucherState);
    }
    if now <= ctx.voucher.data.expires_at {
        return Err(ErrorCode::VoucherNotExpired);
    }
    let amount: u64 = ctx.voucher.data.amount;
    let balance: u64 = match ctx.organization.data.balance.checked_add(amount) {
        Some(b) => b,
        None => {
            return Err(ErrorCode::Overflow);
        },
    };
    ctx.voucher.data.state = VoucherState::Expired;
    ctx.organization.data.balance = balance;
    Ok(Transfer { from: ctx.voucher.key, to: ctx.organization.key, amount })
}

/// Closes a pending voucher whose expiry time has passed at the time that
/// the cluster's clock shows.
///
/// A voucher that is not pending is refused without a look at the clock.
/// Otherwise the clock is read: where that fails the call is refused with
/// `ClockUnavailable` and nothing changes, and where it gives a time the
/// call does what `expire_voucher_at` does at that time.
pub fn expire_voucher(ctx: &mut ExpireVoucher) -> (result: Result<Transfer, ErrorCode>)
    ensures
        old(ctx).voucher.data.state != VoucherState::Pending ==> result == Err::<
            Transfer,
            ErrorCode,
        >(ErrorCode::InvalidVoucherState) && *final(ctx) == *old(ctx),
        old(ctx).voucher.data.state == VoucherState::Pending ==> {
            ||| result == Err::<Transfer, ErrorCode>(ErrorCode::ClockUnavailable) && *final(ctx)
                == *old(ctx)
            ||| exists|now: i64| expiry_outcome(*old(ctx), *final(ctx), result, now)
        },
        old(ctx).organization.data@.wf() ==> final(ctx).organization.data@.wf(),
        old(ctx).voucher.data@.wf() ==> final(ctx).voucher.data@.wf(),
{
    if ctx.voucher.data.state != VoucherState::Pending {
        return Err(ErrorCode::InvalidVoucherState);
    }
    match unix_timestamp() {
        Ok(now) => expire_voucher_at(ctx, now),
        Err(_) => Err(ErrorCode::ClockUnavailable),
    }
}

/// A call that resolves a voucher, with what it is given besides the voucher.
pub enum Resolution {
    Claim { now: i64 },
    Cancel { organization: OrganizationView, maintainer: Identity },
    Expire { organization: OrganizationView, now: i64 },
}

impl Resolution {
    /// Why the call is refused for the voucher, if it is.
    pub open spec fn refusal(self, voucher: VoucherView) -> Option<ErrorCode> {
        match self {
            Resolution::Claim { now } => claim_voucher_refusal(voucher, now),
            Resolution::Cancel { organization, maintainer } => cancel_voucher_refusal(
                organization,
                voucher,
                maintainer,
            ),
            Resolution::Expire { organization, now } => expire_voucher_refusal(
                organization,
                voucher,
                now,
            ),
        }
    }

    /// The state in which the call leaves a voucher that it is not refused for.
    pub open spec fn outcome(self) -> VoucherState {
        match self {
            Resolution::Claim { .. } => VoucherState::Claimed,
            Resolution::Cancel { .. } => VoucherState::Cancelled,
            Resolution::Expire { .. } => VoucherState::Expired,
        }
    }
}

/// Of two resolving calls on one voucher at most the first succeeds: where
/// it does, the voucher keeps its amount and holds nothing any more, and the
/// second call, whichever it is, is refused with `InvalidVoucherState`.
pub proof fn lemma_second_resolution_is_refused(
    voucher: VoucherView,
    first: Resolution,
    second: Resolution,
)
    requires
        first.refusal(voucher) is None,
    ensures
        voucher.state == VoucherState::Pending,
        voucher.with_state(first.outcome()).state.is_terminal(),
        voucher.with_state(first.outcome()).amount == voucher.amount,
        voucher.with_state(first.outcome()).held() == 0,
        second.refusal(voucher.with_state(first.outcome())) == Some(
            ErrorCode::InvalidVoucherState,
        ),
{
}

/// A voucher that was just created can be cancelled by any maintainer, and
/// the cancellation undoes the creation: the organization's balance is what
/// it was before, the voucher holds nothing, and of the organization only
/// the count of issued vouchers has changed.
pub proof fn lemma_create_then_cancel_restores_balance(
    org: OrganizationView,
    key: Identity,
    creator: Identity,
    canceller: Identity,
    voucher_id: Seq<char>,
    recipient_github_id: u64,
    amount: u64,
    metadata: Seq<char>,
    now: i64,
    bump: u8,
)
    requires
        create_voucher_refusal_at(org, true, creator, voucher_id, amount, metadata, now) is None,
        org.is_maintainer(canceller),
    ensures
        ({
            let issued = issued_voucher(
                key,
                voucher_id,
                recipient_github_id,
                amount,
                metadata,
                now,
                bump,
            );
            let debited = after_issue(org, amount);
            let restored = after_return(debited, issued.amount);
            &&& issued.held() == amount
            &&& debited.balance + amount == org.balance
            &&& cancel_voucher_refusal(debited, issued, canceller) is None
            &&& restored.balance == org.balance
            &&& restored == OrganizationView {
                total_vouchers_created: (org.total_vouchers_created + 1) as u64,
                ..org
            }
            &&& issued.with_state(VoucherState::Cancelled).held() == 0
        }),
{
}

/// The expiry time is the last moment of a claim and the moment before the
/// first of an expiry: a pending voucher can be claimed at `now` exactly
/// when `now <= expires_at`, and it can be expired exactly when
/// `now > expires_at`, unless the returning amount would overflow the
/// organization's balance.
pub proof fn lemma_expiry_boundary(org: OrganizationView, voucher: VoucherView, now: i64)
    requires
        voucher.state == VoucherState::Pending,
    ensures
        now <= voucher.expires_at ==> claim_voucher_refusal(voucher, now) is None,
        now > voucher.expires_at ==> claim_voucher_refusal(voucher, now) == Some(
            ErrorCode::VoucherExpired,
        ),
        now <= voucher.expires_at ==> expire_voucher_refusal(org, voucher, now) == Some(
            ErrorCode::VoucherNotExpired,
        ),
        now > voucher.expires_at && org.balance + voucher.amount <= u64::MAX
            ==> expire_voucher_refusal(org, voucher, now) is None,
        now > voucher.expires_at && org.balance + voucher.amount > u64::MAX
            ==> expire_voucher_refusal(org, voucher, now) == Some(ErrorCode::Overflow),
        claim_voucher_refusal(voucher, voucher.expires_at) is None,
        expire_voucher_refusal(org, voucher, voucher.expires_at) == Some(
            ErrorCode::VoucherNotExpired,
        ),
        voucher.expires_at < i64::MAX ==> claim_voucher_refusal(
            voucher,
            (voucher.expires_at + 1) as i64,
        ) == Some(ErrorCode::VoucherExpired),
        voucher.expires_at < i64::MAX && org.balance + voucher.amount <= u64::MAX
            ==> expire_voucher_refusal(org, voucher, (voucher.expires_at + 1) as i64) is None,
{
}

} // verus!
