use crate::identity::Identity;
use vstd::prelude::*;
use vstd::utf8::encode_utf8;

verus! {

/// The most maintainers an organization can have.
pub const MAX_MAINTAINERS: usize = 10;

/// The longest voucher identifier, in bytes of its UTF-8 form.
pub const MAX_VOUCHER_ID_LEN: usize = 64;

/// The longest voucher metadata, in bytes of its UTF-8 form.
pub const MAX_METADATA_LEN: usize = 512;

/// The time a voucher stays claimable after its creation: thirty days, in seconds.
pub const VOUCHER_LIFETIME: i64 = 2_592_000;

/// The number of bytes a text takes in UTF-8.
pub open spec fn utf8_len(text: Seq<char>) -> nat {
    encode_utf8(text).len()
}

/// The number of bytes a text takes in UTF-8.
pub fn byte_len(text: &str) -> (n: usize)
    ensures
        n == utf8_len(text@),
{
    text.as_bytes().len()
}

/// The lifecycle of a voucher: `Pending` at first, then exactly one of the
/// three terminal states.
#[derive(Clone, Copy, Debug, PartialEq, Eq, Structural, Hash)]
pub enum VoucherState {
    Pending,
    Claimed,
    Cancelled,
    Expired,
}

impl VoucherState {
    /// True of the three states that no operation leaves.
    pub open spec fn is_terminal(self) -> bool {
        self != VoucherState::Pending
    }
}

/// The pooled balance of one sponsoring organization, with the identities
/// that control it.
#[derive(Clone, Debug, PartialEq, Eq)]
pub struct OrganizationEscrow {
    /// The organization's stable external identifier.
    pub org_github_id: u64,
    /// The identity that created the record; it alone withdraws and manages maintainers.
    pub admin: Identity,
    /// The currency units held by the record and not set aside in a voucher.
    pub balance: u64,
    /// The identities allowed to issue and cancel vouchers, in the order they were added.
    pub maintainers: Vec<Identity>,
    /// How many vouchers the organization has issued.
    pub total_vouchers_created: u64,
    /// The nonce of the record's address.
    pub bump: u8,
}

/// What an organization record holds, as mathematical values.
pub struct OrganizationView {
    pub org_github_id: u64,
    pub admin: Identity,
    pub balance: u64,
    pub maintainers: Seq<Identity>,
    pub total_vouchers_created: u64,
    pub bump: u8,
}

impl View for OrganizationEscrow {
    type V = OrganizationView;

    open spec fn view(&self) -> OrganizationView {
        OrganizationView {
            org_github_id: self.org_github_id,
            admin: self.admin,
            balance: self.balance,
            maintainers: self.maintainers@,
            total_vouchers_created: self.total_vouchers_created,
            bump: self.bump,
        }
    }
}

impl OrganizationView {
    /// The record of an organization that has just been created.
    pub open spec fn fresh(org_github_id: u64, admin: Identity, bump: u8) -> OrganizationView {
        OrganizationView {
            org_github_id,
            admin,
            balance: 0,
            maintainers: Seq::empty(),
            total_vouchers_created: 0,
            bump,
        }
    }

    /// The invariant of the maintainer set: at most `MAX_MAINTAINERS`
    /// identities, none of them twice.
    pub open spec fn wf(self) -> bool {
        &&& self.maintainers.len() <= MAX_MAINTAINERS
        &&& self.maintainers.no_duplicates()
    }

    /// Whether the identity is one of the maintainers.
    pub open spec fn is_maintainer(self, who: Identity) -> bool {
        self.maintainers.contains(who)
    }

    /// The currency units held at the organization's address.
    pub open spec fn held(self) -> nat {
        self.balance as nat
    }

    /// This record with another balance.
    pub open spec fn with_balance(self, balance: u64) -> OrganizationView {
        OrganizationView { balance, ..self }
    }

    /// This record with another maintainer list.
    pub open spec fn with_maintainers(self, maintainers: Seq<Identity>) -> OrganizationView {
        OrganizationView { maintainers, ..self }
    }
}

/// One voucher: a fixed amount set aside for an external recipient until it
/// is claimed, cancelled or expired.
#[derive(Clone, Debug, PartialEq, Eq)]
pub struct VoucherEscrow {
    /// The identifier the voucher was created under; it is also its addressing key.
    pub voucher_id: String,
    /// The address of the organization that issued the voucher.
    pub organization: Identity,
    /// The external identity the voucher is meant for.
    pub recipient_github_id: u64,
    /// The currency units set aside.
    pub amount: u64,
    /// When the voucher was created, in seconds since the Unix epoch.
    pub created_at: i64,
    /// The last moment at which the voucher can be claimed.
    pub expires_at: i64,
    /// Where the voucher is in its lifecycle.
    pub state: VoucherState,
    /// Free text carried with the voucher.
    pub metadata: String,
    /// The nonce of the record's address.
    pub bump: u8,
}

/// What a voucher record holds, as mathematical values.
pub struct VoucherView {
    pub voucher_id: Seq<char>,
    pub organization: Identity,
    pub recipient_github_id: u64,
    pub amount: u64,
    pub created_at: i64,
    pub expires_at: i64,
    pub state: VoucherState,
    pub metadata: Seq<char>,
    pub bump: u8,
}

impl View for VoucherEscrow {
    type V = VoucherView;

    open spec fn view(&self) -> VoucherView {
        VoucherView {
            voucher_id: self.voucher_id@,
            organization: self.organization,
            recipient_github_id: self.recipient_github_id,
            amount: self.amount,
            created_at: self.created_at,
            expires_at: self.expires_at,
            state: self.state,
            metadata: self.metadata@,
            bump: self.bump,
        }
    }
}

impl VoucherView {
    /// The invariant of a voucher: a positive amount, texts within their
    /// limits, and an expiry exactly `VOUCHER_LIFETIME` after the creation.
    pub open spec fn wf(self) -> bool {
        &&& self.amount > 0
        &&& utf8_len(self.voucher_id) <= MAX_VOUCHER_ID_LEN
        &&& utf8_len(self.metadata) <= MAX_METADATA_LEN
        &&& self.expires_at == self.created_at + VOUCHER_LIFETIME
    }

    /// The currency units held at the voucher's address: the whole amount
    /// while the voucher is pending, nothing once it is resolved.
    pub open spec fn held(self) -> nat {
        if self.state == VoucherState::Pending {
            self.amount as nat
        } else {
            0
        }
    }

    /// This voucher in another state.
    pub open spec fn with_state(self, state: VoucherState) -> VoucherView {
        VoucherView { state, ..self }
    }
}

impl VoucherEscrow {
    /// The currency units held at the voucher's address.
    pub fn held(&self) -> (units: u64)
        ensures
            units == self@.held(),
    {
        match self.state {
            VoucherState::Pending => self.amount,
            _ => 0,
        }
    }
}

impl OrganizationEscrow {
    /// The currency units held at the organization's address.
    pub fn held(&self) -> (units: u64)
        ensures
            units == self@.held(),
    {
        self.balance
    }

    /// Whether the identity is one of the maintainers.
    pub fn is_maintainer(&self, who: &Identity) -> (found: bool)
        ensures
            found == self@.is_maintainer(*who),
    {
        let mut i: usize = 0;
        while i < self.maintainers.len()
            invariant
                i <= self.maintainers.len(),
                forall|j: int| 0 <= j < i ==> self.maintainers@[j] != *who,
            decreases self.maintainers.len() - i,
        {
            if self.maintainers[i] == *who {
                return true;
            }
            i += 1;
        }
        false
    }
}

} // verus!
