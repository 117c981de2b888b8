use crate::identity::Identity;
use crate::organization::{
    add_maintainer_refusal, after_adding, after_deposit, after_removing, after_withdrawal,
    deposit_refusal, lemma_without, remove_maintainer_refusal, withdraw_refusal,
};
use crate::record::{OrganizationView, VoucherState, VoucherView};
use crate::voucher::{
    after_issue, after_return, cancel_voucher_refusal, claim_voucher_refusal,
    create_voucher_refusal_at, expire_voucher_refusal, issued_voucher,
};
use vstd::prelude::*;

verus! {

/// One call of an operation on an organization or on one of its vouchers.
/// A voucher is named by its place among the vouchers the organization has
/// issued, the first being 0.
pub enum Operation {
    Deposit { amount: u64 },
    Withdraw { caller: Identity, amount: u64 },
    AddMaintainer { caller: Identity, maintainer: Identity },
    RemoveMaintainer { caller: Identity, maintainer: Identity },
    CreateVoucher {
        maintainer: Identity,
        voucher_id: Seq<char>,
        recipient_github_id: u64,
        amount: u64,
        metadata: Seq<char>,
        now: i64,
        bump: u8,
    },
    ClaimVoucher { voucher: int, now: i64 },
    CancelVoucher { voucher: int, maintainer: Identity },
    ExpireVoucher { voucher: int, now: i64 },
}

/// An organization together with every voucher it has issued and the sums
/// of what was ever deposited into it and withdrawn from it.
pub struct Ledger {
    /// The organization's address.
    pub key: Identity,
    /// The organization's record.
    pub organization: OrganizationView,
    /// The vouchers the organization has issued, oldest first.
    pub vouchers: Seq<VoucherView>,
    /// The sum of all deposits.
    pub deposited: nat,
    /// The sum of all withdrawals.
    pub withdrawn: nat,
}

/// What a voucher still takes from its organization's balance: its amount
/// while it is pending and after it was claimed, nothing once the amount has
/// come back through cancellation or expiry.
pub open spec fn owed(voucher: VoucherView) -> nat {
    if voucher.state == VoucherState::Pending || voucher.state == VoucherState::Claimed {
        voucher.amount as nat
    } else {
        0
    }
}

/// The sum of what the vouchers still take from the balance.
pub open spec fn outstanding(vouchers: Seq<VoucherView>) -> nat
    decreases vouchers.len(),
{
    if vouchers.len() == 0 {
        0
    } else {
        outstanding(vouchers.drop_last()) + owed(vouchers.last())
    }
}

impl Ledger {
    /// The ledger of an organization that has just been created.
    pub open spec fn opened(key: Identity, org_github_id: u64, admin: Identity, bump: u8) -> Ledger {
        Ledger {
            key,
            organization: OrganizationView::fresh(org_github_id, admin, bump),
            vouchers: Seq::empty(),
            deposited: 0,
            withdrawn: 0,
        }
    }

    /// Whether the organization has issued a voucher under this identifier.
    pub open spec fn has_voucher(self, voucher_id: Seq<char>) -> bool {
        exists|i: int| 0 <= i < self.vouchers.len() && self.vouchers[i].voucher_id == voucher_id
    }

    /// Whether `voucher` names one of the vouchers.
    pub open spec fn names(self, voucher: int) -> bool {
        0 <= voucher < self.vouchers.len()
    }

    /// The ledger with another organization record.
    pub open spec fn with_organization(self, organization: OrganizationView) -> Ledger {
        Ledger { organization, ..self }
    }

    /// The ledger with one voucher in another state.
    pub open spec fn with_voucher_state(self, voucher: int, state: VoucherState) -> Ledger {
        Ledger {
            vouchers: self.vouchers.update(voucher, self.vouchers[voucher].with_state(state)),
            ..self
        }
    }

    /// The ledger after one call. A call that is refused leaves the ledger as
    /// it is, and so does one that names no voucher.
    pub open spec fn apply(self, op: Operation) -> Ledger {
        let org = self.organization;
        match op {
            Operation::Deposit { amount } => {
                if deposit_refusal(org, amount) is None {
                    Ledger {
                        organization: after_deposit(org, amount),
                        deposited: self.deposited + amount as nat,
                        ..self
                    }
                } else {
                    self
                }
            },
            Operation::Withdraw { caller, amount } => {
                if withdraw_refusal(org, caller, amount) is None {
                    Ledger {
                        organization: after_withdrawal(org, amount),
                        withdrawn: self.withdrawn + amount as nat,
                        ..self
                    }
                } else {
                    self
                }
            },
            Operation::AddMaintainer { caller, maintainer } => {
                if add_maintainer_refusal(org, caller, maintainer) is None {
                    self.with_organization(after_adding(org, maintainer))
                } else {
                    self
                }
            },
            Operation::RemoveMaintainer { caller, maintainer } => {
                if remove_maintainer_refusal(org, caller) is None {
                    self.with_organization(after_removing(org, maintainer))
                } else {
                    self
                }
            },
            Operation::CreateVoucher {
                maintainer,
                voucher_id,
                recipient_github_id,
                amount,
                metadata,
                now,
                bump,
            } => {
                if create_voucher_refusal_at(
                    org,
                    !self.has_voucher(voucher_id),
                    maintainer,
                    voucher_id,
                    amount,
                    metadata,
                    now,
                ) is None {
                    Ledger {
                        organization: after_issue(org, amount),
                        vouchers: self.vouchers.push(
                            issued_voucher(
                                self.key,
                                voucher_id,
                                recipient_github_id,
                                amount,
                                metadata,
                                now,
                                bump,
                            ),
                        ),
                        ..self
                    }
                } else {
                    self
                }
            },
            Operation::ClaimVoucher { voucher, now } => {
                if self.names(voucher) && claim_voucher_refusal(self.vouchers[voucher], now)
                    is None {
                    self.with_voucher_state(voucher, VoucherState::Claimed)
                } else {
                    self
                }
            },
            Operation::CancelVoucher { voucher, maintainer } => {
                if self.names(voucher) && cancel_voucher_refusal(
                    org,
                    self.vouchers[voucher],
                    maintainer,
                ) is None {
                    self.with_voucher_state(voucher, VoucherState::Cancelled).with_organization(
                        after_return(org, self.vouchers[voucher].amount),
                    )
                } else {
                    self
                }
            },
            Operation::ExpireVoucher { voucher, now } => {
                if self.names(voucher) && expire_voucher_refusal(org, self.vouchers[voucher], now)
                    is None {
                    self.with_voucher_state(voucher, VoucherState::Expired).with_organization(
                        after_return(org, self.vouchers[voucher].amount),
                    )
                } else {
                    self
                }
            },
        }
    }

    /// The ledger after a series of calls, made one after the other.
    pub open spec fn replay(self, ops: Seq<Operation>) -> Ledger
        decreases ops.len(),
    {
        if ops.len() == 0 {
            self
        } else {
            self.replay(ops.drop_last()).apply(ops.last())
        }
    }

    /// The balance accounts for every unit that ever came in: what was
    /// deposited is what the balance holds, what vouchers still take from
    /// it, and what was withdrawn.
    pub open spec fn balanced(self) -> bool {
        self.organization.balance + outstanding(self.vouchers) + self.withdrawn == self.deposited
    }

    /// The invariants of the records: the organization's maintainer set is
    /// valid, every voucher is valid and names this organization as its
    /// issuer, and no two vouchers share an identifier.
    pub open spec fn wf(self) -> bool {
        &&& self.organization.wf()
        &&& forall|i: int|
            0 <= i < self.vouchers.len() ==> (#[trigger] self.vouchers[i]).wf()
                && self.vouchers[i].organization == self.key
        &&& forall|i: int, j: int|
            0 <= i < self.vouchers.len() && 0 <= j < self.vouchers.len() && i != j
                ==> self.vouchers[i].voucher_id != self.vouchers[j].voucher_id
    }
}

/// Issuing one more voucher adds what it takes to the sum.
pub proof fn lemma_outstanding_push(vouchers: Seq<VoucherView>, voucher: VoucherView)
    ensures
        outstanding(vouchers.push(voucher)) == outstanding(vouchers) + owed(voucher),
{
    assert(vouchers.push(voucher).drop_last() =~= vouchers);
}

/// Replacing one voucher changes the sum by the difference of what the two take.
pub proof fn lemma_outstanding_update(vouchers: Seq<VoucherView>, i: int, voucher: VoucherView)
    requires
        0 <= i < vouchers.len(),
    ensures
        outstanding(vouchers.update(i, voucher)) + owed(vouchers[i]) == outstanding(vouchers)
            + owed(voucher),
    decreases vouchers.len(),
{
    let changed = vouchers.update(i, voucher);
    if i == vouchers.len() - 1 {
        assert(changed.drop_last() =~= vouchers.drop_last());
    } else {
        lemma_outstanding_update(vouchers.drop_last(), i, voucher);
        assert(changed.drop_last() =~= vouchers.drop_last().update(i, voucher));
    }
}

/// No call breaks the account of the balance.
pub proof fn lemma_apply_keeps_balanced(ledger: Ledger, op: Operation)
    requires
        ledger.balanced(),
    ensures
        ledger.apply(op).balanced(),
{
    let next = ledger.apply(op);
    match op {
        Operation::CreateVoucher {
            maintainer,
            voucher_id,
            recipient_github_id,
            amount,
            metadata,
            now,
            bump,
        } => {
            let v = issued_voucher(
                ledger.key,
                voucher_id,
                recipient_github_id,
                amount,
                metadata,
                now,
                bump,
            );
            lemma_outstanding_push(ledger.vouchers, v);
        },
        Operation::ClaimVoucher { voucher, now } => {
            if ledger.names(voucher) {
                lemma_outstanding_update(
                    ledger.vouchers,
                    voucher,
                    ledger.vouchers[voucher].with_state(VoucherState::Claimed),
                );
            }
        },
        Operation::CancelVoucher { voucher, maintainer } => {
            if ledger.names(voucher) {
                lemma_outstanding_update(
                    ledger.vouchers,
                    voucher,
                    ledger.vouchers[voucher].with_state(VoucherState::Cancelled),
                );
            }
        },
        Operation::ExpireVoucher { voucher, now } => {
            if ledger.names(voucher) {
                lemma_outstanding_update(
                    ledger.vouchers,
                    voucher,
                    ledger.vouchers[voucher].with_state(VoucherState::Expired),
                );
            }
        },
        _ => {},
    }
}

/// At every point in an organization's history its balance is what was
/// deposited, less what was withdrawn, less the amounts of the vouchers it
/// issued that are pending or were claimed.
pub proof fn lemma_balance_accounts_for_history(
    key: Identity,
    org_github_id: u64,
    admin: Identity,
    bump: u8,
    ops: Seq<Operation>,
)
    ensures
        Ledger::opened(key, org_github_id, admin, bump).replay(ops).balanced(),
    decreases ops.len(),
{
    let start = Ledger::opened(key, org_github_id, admin, bump);
    if ops.len() == 0 {
        assert(outstanding(start.vouchers) == 0);
    } else {
        lemma_balance_accounts_for_history(key, org_github_id, admin, bump, ops.drop_last());
        lemma_apply_keeps_balanced(start.replay(ops.drop_last()), ops.last());
    }
}

/// No call breaks the invariants of the records.
pub proof fn lemma_apply_keeps_wf(ledger: Ledger, op: Operation)
    requires
        ledger.wf(),
    ensures
        ledger.apply(op).wf(),
{
    let next = ledger.apply(op);
    let org = ledger.organization;
    match op {
        Operation::RemoveMaintainer { caller, maintainer } => {
            lemma_without(org.maintainers, maintainer);
        },
        Operation::CreateVoucher {
            maintainer,
            voucher_id,
            recipient_github_id,
            amount,
            metadata,
            now,
            bump,
        } => {
            if next != ledger {
                assert forall|i: int, j: int|
                    0 <= i < next.vouchers.len() && 0 <= j < next.vouchers.len() && i
                        != j implies next.vouchers[i].voucher_id != next.vouchers[j].voucher_id by {
                    if i < ledger.vouchers.len() && j < ledger.vouchers.len() {
                        assert(ledger.vouchers[i].voucher_id != ledger.vouchers[j].voucher_id);
                    } else if i < ledger.vouchers.len() {
                        assert(ledger.vouchers[i].voucher_id != voucher_id);
                    } else {
                        assert(ledger.vouchers[j].voucher_id != voucher_id);
                    }
                }
            }
        },
        _ => {},
    }
}

/// At every point in an organization's history its records are valid.
pub proof fn lemma_history_keeps_wf(
    key: Identity,
    org_github_id: u64,
    admin: Identity,
    bump: u8,
    ops: Seq<Operation>,
)
    ensures
        Ledger::opened(key, org_github_id, admin, bump).replay(ops).wf(),
    decreases ops.len(),
{
    let start = Ledger::opened(key, org_github_id, admin, bump);
    if ops.len() > 0 {
        lemma_history_keeps_wf(key, org_github_id, admin, bump, ops.drop_last());
        lemma_apply_keeps_wf(start.replay(ops.drop_last()), ops.last());
    }
}

/// No call deletes a voucher or changes anything of it but its state, and
/// the state it changes only from `Pending` to one of the terminal states.
pub proof fn lemma_apply_resolves_at_most_once(ledger: Ledger, op: Operation, voucher: int)
    requires
        ledger.names(voucher),
    ensures
        ledger.apply(op).names(voucher),
        ledger.apply(op).vouchers[voucher] == ledger.vouchers[voucher].with_state(
            ledger.apply(op).vouchers[voucher].state,
        ),
        ledger.apply(op).vouchers[voucher].state != ledger.vouchers[voucher].state ==> {
            &&& ledger.vouchers[voucher].state == VoucherState::Pending
            &&& ledger.apply(op).vouchers[voucher].state.is_terminal()
        },
{
}

/// Through any series of calls a voucher keeps its amount and everything
/// else that was set at its creation; its state changes at most once, from
/// `Pending` to a terminal state, and a terminal state is never left.
pub proof fn lemma_voucher_resolves_once(ledger: Ledger, ops: Seq<Operation>, voucher: int)
    requires
        ledger.names(voucher),
    ensures
        ledger.replay(ops).names(voucher),
        ledger.replay(ops).vouchers[voucher].amount == ledger.vouchers[voucher].amount,
        ledger.replay(ops).vouchers[voucher] == ledger.vouchers[voucher].with_state(
            ledger.replay(ops).vouchers[voucher].state,
        ),
        ledger.vouchers[voucher].state.is_terminal() ==> ledger.replay(ops).vouchers[voucher]
            == ledger.vouchers[voucher],
        ledger.replay(ops).vouchers[voucher].state == VoucherState::Pending
            ==> ledger.vouchers[voucher].state == VoucherState::Pending,
    decreases ops.len(),
{
    if ops.len() > 0 {
        lemma_voucher_resolves_once(ledger, ops.drop_last(), voucher);
        lemma_apply_resolves_at_most_once(ledger.replay(ops.drop_last()), ops.last(), voucher);
    }
}

/// The currency units that the vouchers hold at their addresses.
pub open spec fn escrowed(vouchers: Seq<VoucherView>) -> nat
    decreases vouchers.len(),
{
    if vouchers.len() == 0 {
        0
    } else {
        escrowed(vouchers.drop_last()) + vouchers.last().held()
    }
}

/// The currency units that were paid out to those who claimed a voucher.
pub open spec fn claimed(vouchers: Seq<VoucherView>) -> nat
    decreases vouchers.len(),
{
    if vouchers.len() == 0 {
        0
    } else {
        claimed(vouchers.drop_last()) + if vouchers.last().state == VoucherState::Claimed {
            vouchers.last().amount as nat
        } else {
            0
        }
    }
}

/// What the vouchers take from the balance is what they hold and what was
/// paid out for them.
pub proof fn lemma_outstanding_is_escrowed_and_claimed(vouchers: Seq<VoucherView>)
    ensures
        outstanding(vouchers) == escrowed(vouchers) + claimed(vouchers),
    decreases vouchers.len(),
{
    if vouchers.len() > 0 {
        lemma_outstanding_is_escrowed_and_claimed(vouchers.drop_last());
    }
}

/// Currency is neither made nor lost: at every point in an organization's
/// history, what was deposited is what the organization's address holds,
/// what the addresses of its vouchers hold, what was paid out to claimants
/// and what was withdrawn.
pub proof fn lemma_currency_is_conserved(
    key: Identity,
    org_github_id: u64,
    admin: Identity,
    bump: u8,
    ops: Seq<Operation>,
)
    ensures
        ({
            let now = Ledger::opened(key, org_github_id, admin, bump).replay(ops);
            now.deposited == now.organization.held() + escrowed(now.vouchers) + claimed(
                now.vouchers,
            ) + now.withdrawn
        }),
{
    let now = Ledger::opened(key, org_github_id, admin, bump).replay(ops);
    lemma_balance_accounts_for_history(key, org_github_id, admin, bump, ops);
    lemma_outstanding_is_escrowed_and_claimed(now.vouchers);
}

/// What is fixed when an organization is created stays fixed: its address,
/// its external identifier, its admin and its address nonce never change,
/// and its voucher count is the number of vouchers it has issued.
pub proof fn lemma_history_keeps_what_creation_fixed(
    key: Identity,
    org_github_id: u64,
    admin: Identity,
    bump: u8,
    ops: Seq<Operation>,
)
    ensures
        ({
            let now = Ledger::opened(key, org_github_id, admin, bump).replay(ops);
            &&& now.key == key
            &&& now.organization.org_github_id == org_github_id
            &&& now.organization.admin == admin
            &&& now.organization.bump == bump
            &&& now.organization.total_vouchers_created == now.vouchers.len()
        }),
    decreases ops.len(),
{
    if ops.len() > 0 {
        lemma_history_keeps_what_creation_fixed(key, org_github_id, admin, bump, ops.drop_last());
    }
}

} // verus!
