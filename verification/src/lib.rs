//! Subscription engine that watches a chain for VM-scoped data transactions.
//!
//! The engine tracks a monotonically advancing block cursor, plans bounded
//! fetch windows against the reported chain head, and dispatches every fetched
//! transaction to a caller-supplied handler exactly once before the cursor
//! moves past its window. All control-flag and cursor logic is verified; the
//! surrounding I/O (the actual chain queries and the background worker that
//! drives the loop) lives outside this crate and feeds results in as plain
//! values.

pub mod subscription;
pub mod transaction;

pub use subscription::IvaTransactionSubscription;

pub use transaction::IvaTransactionHandler;
pub use transaction::VMDataTransaction;
