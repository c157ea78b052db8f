//! The transactions the engine delivers, and the handler that receives them.

use vstd::prelude::*;

verus! {

/// A VM-scoped application-data transaction, as the engine hands it to a
/// handler: the VM identifier it is scoped to, the block it was confirmed in,
/// and its payload bytes.
pub struct VMDataTransaction {
    pub vm_id: u64,
    pub block_number: u64,
    pub data: Vec<u8>,
}

/// Caller-supplied callback: invoked once per delivered transaction,
/// synchronously with the engine's delivery loop. Failures inside the handler
/// are the handler's own concern; the engine neither catches nor retries them.
pub trait IvaTransactionHandler: Send + Sync {
    fn process_iva_transactions(&self, transaction: VMDataTransaction);
}

} // verus!
