//! An escrow ledger for vouchers.
//!
//! An organization pools funds in a balance. Its maintainers issue
//! vouchers, each of which sets a fixed amount aside for an external
//! recipient for thirty days. A voucher is resolved exactly once: it is
//! claimed, and its amount goes to the claimant, or it is cancelled or
//! expires, and its amount returns to the organization.
//!
//! The operations work on plain records and say, as a [`context::Transfer`],
//! which movement of currency belongs to the change they made; moving the
//! currency is left to the caller. Each operation either applies in full or
//! changes nothing. [`ledger`] states, over whole histories of calls, that
//! the balance always accounts for every unit that was deposited.

pub mod address;
pub mod clock;
pub mod context;
pub mod error;
pub mod identity;
pub mod ledger;
pub mod organization;
pub mod record;
pub mod voucher;
