use crate::context::{Deposit, InitializeOrganization, ManageMaintainer, Transfer, Withdraw};
use crate::error::ErrorCode;
use crate::identity::Identity;
use crate::record::{OrganizationEscrow, OrganizationView, MAX_MAINTAINERS};
use vstd::prelude::*;

verus! {

/// Creates the record of an organization at a vacant address.
///
/// The caller becomes the admin; the balance and the voucher counter start
/// at zero and there are no maintainers. Where the address already holds a
/// record the call is refused with `AddressAlreadyInUse` and nothing changes.
pub fn initialize_organization(
    ctx: &mut InitializeOrganization,
    org_github_id: u64,
    bump: u8,
) -> (result: Result<(), ErrorCode>)
    ensures
        old(ctx).organization.data is Some ==> result == Err::<(), ErrorCode>(
            ErrorCode::AddressAlreadyInUse,
        ) && *final(ctx) == *old(ctx),
        old(ctx).organization.data is None ==> {
            &&& result is Ok
            &&& final(ctx).organization.key == old(ctx).organization.key
            &&& final(ctx).admin == old(ctx).admin
            &&& final(ctx).organization.data matches Some(org) && org@ == OrganizationView::fresh(
                org_github_id,
                old(ctx).admin,
                bump,
            ) && org@.wf()
        },
{
    if ctx.organization.data.is_some() {
        return Err(ErrorCode::AddressAlreadyInUse);
    }
    ctx.organization.data = Some(
        OrganizationEscrow {
            org_github_id,
            admin: ctx.admin,
            balance: 0,
            maintainers: Vec::new(),
            total_vouchers_created: 0,
            bump,
        },
    );
    Ok(())
}

/// Why `deposit` refuses, if it does.
pub open spec fn deposit_refusal(org: OrganizationView, amount: u64) -> Option<ErrorCode> {
    if amount == 0 {
        Some(ErrorCode::ZeroAmount)
    } else if org.balance + amount > u64::MAX {
        Some(ErrorCode::Overflow)
    } else {
        None
    }
}

/// The organization after a deposit of the given amount.
pub open spec fn after_deposit(org: OrganizationView, amount: u64) -> OrganizationView {
    org.with_balance((org.balance + amount) as u64)
}

/// Adds `amount` to the organization's balance. Anyone may deposit.
///
/// On success the result is the movement of `amount` from the caller to the
/// organization's address. On refusal nothing changes.
pub fn deposit(ctx: &mut Deposit, amount: u64) -> (result: Result<Transfer, ErrorCode>)
    ensures
        match deposit_refusal(old(ctx).organization.data@, amount) {
            Some(e) => result == Err::<Transfer, ErrorCode>(e) && *final(ctx) == *old(ctx),
            None => {
                &&& result == Ok::<Transfer, ErrorCode>(
                    (Transfer {
                        from: old(ctx).depositor,
                        to: old(ctx).organization.key,
                        amount,
                    }),
                )
                &&& final(ctx).organization.key == old(ctx).organization.key
                &&& final(ctx).organization.data@ == after_deposit(
                    old(ctx).organization.data@,
                    amount,
                )
                &&& final(ctx).depositor == old(ctx).depositor
            },
        },
        old(ctx).organization.data@.wf() ==> final(ctx).organization.data@.wf(),
{
    if amount == 0 {
        return Err(ErrorCode::ZeroAmount);
    }
    let balance: u64 = match ctx.organization.data.balance.checked_add(amount) {
        Some(b) => b,
        None => {
            return Err(ErrorCode::Overflow);
        },
    };
    ctx.organization.data.balance = balance;
    Ok(Transfer { from: ctx.depositor, to: ctx.organization.key, amount })
}

/// Why `withdraw` refuses, if it does.
pub open spec fn withdraw_refusal(
    org: OrganizationView,
    caller: Identity,
    amount: u64,
) -> Option<ErrorCode> {
    if caller != org.admin {
        Some(ErrorCode::NotAuthorized)
    } else if amount == 0 {
        Some(ErrorCode::ZeroAmount)
    } else if org.balance < amount {
        Some(ErrorCode::InsufficientBalance)
    } else {
        None
    }
}

/// The organization after a withdrawal of the given amount.
pub open spec fn after_withdrawal(org: OrganizationView, amount: u64) -> OrganizationView {
    org.with_balance((org.balance - amount) as u64)
}

/// Pays `amount` out of the organization's balance to its admin.
///
/// The caller has to be the admin. On success the balance is lowered by
/// `amount` and the result is the movement of `amount` from the
/// organization's address to the admin. On refusal nothing changes.
pub fn withdraw(ctx: &mut Withdraw, amount: u64) -> (result: Result<Transfer, ErrorCode>)
    ensures
        match withdraw_refusal(old(ctx).organization.data@, old(ctx).admin, amount) {
            Some(e) => result == Err::<Transfer, ErrorCode>(e) && *final(ctx) == *old(ctx),
            None => {
                &&& result == Ok::<Transfer, ErrorCode>(
                    (Transfer {
                        from: old(ctx).organization.key,
                        to: old(ctx).admin,
                        amount,
                    }),
                )
                &&& final(ctx).organization.key == old(ctx).organization.key
                &&& final(ctx).organization.data@ == after_withdrawal(
                    old(ctx).organization.data@,
                    amount,
                )
                &&& final(ctx).admin == old(ctx).admin
            },
        },
        result != Err::<Transfer, ErrorCode>(ErrorCode::Underflow),
        old(ctx).organization.data@.wf() ==> final(ctx).organization.data@.wf(),
{
    if ctx.admin != ctx.organization.data.admin {
        return Err(ErrorCode::NotAuthorized);
    }
    if amount == 0 {
        return Err(ErrorCode::ZeroAmount);
    }
    if ctx.organization.data.balance < amount {
        return Err(ErrorCode::InsufficientBalance);
    }
    let balance: u64 = match ctx.organization.data.balance.checked_sub(amount) {
        Some(b) => b,
        None => {
            return Err(ErrorCode::Underflow);
        },
    };
    ctx.organization.data.balance = balance;
    Ok(Transfer { from: ctx.organization.key, to: ctx.admin, amount })
}

/// Why `add_maintainer` refuses, if it does.
pub open spec fn add_maintainer_refusal(
    org: OrganizationView,
    caller: Identity,
    maintainer: Identity,
) -> Option<ErrorCode> {
    if caller != org.admin {
        Some(ErrorCode::NotAuthorized)
    } else if org.is_maintainer(maintainer) {
        Some(ErrorCode::MaintainerAlreadyExists)
    } else if org.maintainers.len() >= MAX_MAINTAINERS {
        Some(ErrorCode::MaintainerListFull)
    } else {
        None
    }
}

/// The organization after `maintainer` has been added to its maintainers.
pub open spec fn after_adding(org: OrganizationView, maintainer: Identity) -> OrganizationView {
    org.with_maintainers(org.maintainers.push(maintainer))
}

/// Makes `maintainer` a maintainer of the organization, after those it has.
///
/// The caller has to be the admin. An identity that is already a maintainer
/// is refused, and so is any identity once the organization has
/// `MAX_MAINTAINERS` of them. On refusal nothing changes.
pub fn add_maintainer(ctx: &mut ManageMaintainer, maintainer: Identity) -> (result: Result<
    (),
    ErrorCode,
>)
    ensures
        match add_maintainer_refusal(old(ctx).organization.data@, old(ctx).admin, maintainer) {
            Some(e) => result == Err::<(), ErrorCode>(e) && *final(ctx) == *old(ctx),
            None => {
                &&& result is Ok
                &&& final(ctx).organization.key == old(ctx).organization.key
                &&& final(ctx).organization.data@ == after_adding(
                    old(ctx).organization.data@,
                    maintainer,
                )
                &&& final(ctx).admin == old(ctx).admin
            },
        },
        old(ctx).organization.data@.wf() ==> final(ctx).organization.data@.wf(),
{
    if ctx.admin != ctx.organization.data.admin {
        return Err(ErrorCode::NotAuthorized);
    }
    if ctx.organization.data.is_maintainer(&maintainer) {
        return Err(ErrorCode::MaintainerAlreadyExists);
    }
    if ctx.organization.data.maintainers.len() >= MAX_MAINTAINERS {
        return Err(ErrorCode::MaintainerListFull);
    }
    ctx.organization.data.maintainers.push(maintainer);
    Ok(())
}

/// The maintainers that are left when `who` is taken out: the others, in
/// their order.
pub open spec fn without(maintainers: Seq<Identity>, who: Identity) -> Seq<Identity> {
    maintainers.filter(|m: Identity| m != who)
}

/// The organization after `maintainer` has been taken out of its maintainers.
pub open spec fn after_removing(org: OrganizationView, maintainer: Identity) -> OrganizationView {
    org.with_maintainers(without(org.maintainers, maintainer))
}

/// What taking an identity out of a maintainer list does: `who` is gone,
/// every other member stays, the list gets no longer, a list without
/// duplicates stays one, and a list that did not hold `who` is unchanged.
pub proof fn lemma_without(maintainers: Seq<Identity>, who: Identity)
    ensures
        forall|m: Identity|
            #![trigger without(maintainers, who).contains(m)]
            #![trigger maintainers.contains(m)]
            without(maintainers, who).contains(m) <==> (maintainers.contains(m) && m != who),
        without(maintainers, who).len() <= maintainers.len(),
        maintainers.no_duplicates() ==> without(maintainers, who).no_duplicates(),
        !maintainers.contains(who) ==> without(maintainers, who) == maintainers,
    decreases maintainers.len(),
{
    reveal(Seq::filter);
    let rest = without(maintainers, who);
    if maintainers.len() == 0 {
        assert(rest =~= maintainers);
        assert forall|m: Identity| rest.contains(m) <==> (maintainers.contains(m) && m != who) by {
            if rest.contains(m) {
                let i = choose|i: int| 0 <= i < rest.len() && rest[i] == m;
            }
            if maintainers.contains(m) {
                let i = choose|i: int| 0 <= i < maintainers.len() && maintainers[i] == m;
            }
        }
    } else {
        let front = maintainers.drop_last();
        let last = maintainers.last();
        let front_rest = without(front, who);
        lemma_without(front, who);
        assert(rest == if last != who {
            front_rest.push(last)
        } else {
            front_rest
        });
        assert forall|m: Identity| rest.contains(m) <==> (maintainers.contains(m) && m != who) by {
            if rest.contains(m) {
                let i = choose|i: int| 0 <= i < rest.len() && rest[i] == m;
                if i < front_rest.len() {
                    assert(front_rest[i] == m);
                    assert(front_rest.contains(m));
                    let j = choose|j: int| 0 <= j < front.len() && front[j] == m;
                    assert(maintainers[j] == m);
                } else {
                    assert(m == last);
                    assert(maintainers[maintainers.len() - 1] == m);
                }
            }
            if maintainers.contains(m) && m != who {
                let j = choose|j: int| 0 <= j < maintainers.len() && maintainers[j] == m;
                if j < front.len() {
                    assert(front[j] == m);
                    assert(front.contains(m));
                    let i = choose|i: int| 0 <= i < front_rest.len() && front_rest[i] == m;
                    assert(rest[i] == m);
                } else {
                    assert(rest[rest.len() - 1] == m);
                }
            }
        }
        if maintainers.no_duplicates() {
            assert(front.no_duplicates());
            if last != who {
                assert(!front.contains(last)) by {
                    if front.contains(last) {
                        let j = choose|j: int| 0 <= j < front.len() && front[j] == last;
                        assert(maintainers[j] == maintainers[maintainers.len() - 1]);
                    }
                }
                assert(!front_rest.contains(last));
                assert forall|i: int, j: int|
                    0 <= i < rest.len() && 0 <= j < rest.len() && i != j implies rest[i]
                    != rest[j] by {
                    if i < front_rest.len() && j < front_rest.len() {
                    } else if i < front_rest.len() {
                        assert(front_rest.contains(rest[i]));
                    } else {
                        assert(front_rest.contains(rest[j]));
                    }
                }
            }
        }
        if !maintainers.contains(who) {
            assert(last != who) by {
                assert(maintainers[maintainers.len() - 1] == last);
            }
            assert(!front.contains(who)) by {
                if front.contains(who) {
                    let j = choose|j: int| 0 <= j < front.len() && front[j] == who;
                    assert(maintainers[j] == who);
                }
            }
            assert(rest =~= maintainers);
        }
    }
}

/// Why `remove_maintainer` refuses, if it does.
pub open spec fn remove_maintainer_refusal(org: OrganizationView, caller: Identity) -> Option<
    ErrorCode,
> {
    if caller != org.admin {
        Some(ErrorCode::NotAuthorized)
    } else {
        None
    }
}

/// Takes `maintainer` out of the organization's maintainers.
///
/// The caller has to be the admin. An identity that is no maintainer is
/// accepted, and nothing changes then. On refusal nothing changes.
pub fn remove_maintainer(ctx: &mut ManageMaintainer, maintainer: Identity) -> (result: Result<
    (),
    ErrorCode,
>)
    ensures
        match remove_maintainer_refusal(old(ctx).organization.data@, old(ctx).admin) {
            Some(e) => result == Err::<(), ErrorCode>(e) && *final(ctx) == *old(ctx),
            None => {
                &&& result is Ok
                &&& final(ctx).organization.key == old(ctx).organization.key
                &&& final(ctx).organization.data@ == after_removing(
                    old(ctx).organization.data@,
                    maintainer,
                )
                &&& final(ctx).admin == old(ctx).admin
                &&& !final(ctx).organization.data@.is_maintainer(maintainer)
                &&& !old(ctx).organization.data@.is_maintainer(maintainer)
                    ==> final(ctx).organization.data@ == old(ctx).organization.data@
            },
        },
        old(ctx).organization.data@.wf() ==> final(ctx).organization.data@.wf(),
{
    if ctx.admin != ctx.organization.data.admin {
        return Err(ErrorCode::NotAuthorized);
    }
    let ghost before = ctx.organization.data.maintainers@;
    let mut kept: Vec<Identity> = Vec::new();
    let mut i: usize = 0;
    proof {
        reveal(Seq::filter);
        assert(without(before.take(0), maintainer) =~= Seq::<Identity>::empty());
    }
    while i < ctx.organization.data.maintainers.len()
        invariant
            i <= before.len(),
            ctx.organization.data.maintainers@ == before,
            kept@ == without(before.take(i as int), maintainer),
            *ctx == *old(ctx),
        decreases before.len() - i,
    {
        let m: Identity = ctx.organization.data.maintainers[i];
        proof {
            reveal(Seq::filter);
            assert(before.take(i + 1).drop_last() =~= before.take(i as int));
        }
        if m != maintainer {
            kept.push(m);
        }
        i += 1;
    }
    proof {
        assert(before.take(before.len() as int) =~= before);
        lemma_without(before, maintainer);
    }
    ctx.organization.data.maintainers = kept;
    Ok(())
}

} // verus!
