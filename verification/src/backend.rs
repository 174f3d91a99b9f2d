//! The calls that the core asks of the backend, and what may come back.
//!
//! Nothing here sends anything. A lifecycle hands out a [`Call`]; whoever
//! drives it performs the call and reports a handle, a [`StartFailure`] or a
//! [`CallFailure`].

use vstd::prelude::*;

verus! {

/// The deadline, in milliseconds, of every call that follows the start of a
/// transaction. The start call has none: its two time limits travel in the
/// request and are the backend's to apply.
pub const CALL_DEADLINE_MILLIS: u64 = 5000;

/// The identifier of an open transaction, as the backend issued it.
#[derive(Debug, PartialEq, Eq)]
pub struct TransactionHandle {
    pub id: String,
}

impl Clone for TransactionHandle {
    fn clone(&self) -> (copy: TransactionHandle)
        ensures
            copy == *self,
    {
        TransactionHandle { id: self.id.clone() }
    }
}

/// Why a start call yielded no handle.
#[derive(Clone, Copy, Debug, PartialEq, Eq, Structural)]
pub enum StartFailure {
    /// The reply was no JSON text, or its identifier was no string.
    Malformed,
    /// The reply named no identifier.
    NoIdentifier,
    /// The call brought no reply at all.
    NoReply,
}

/// Why a call after the start did not complete normally.
#[derive(Clone, Copy, Debug, PartialEq, Eq, Structural)]
pub enum CallFailure {
    /// The transport reported an error.
    NetworkError,
    /// No reply came within the deadline.
    Timeout,
}

/// One call to the backend.
#[derive(Debug, PartialEq, Eq)]
pub enum Call {
    /// Open a transaction with the given time limits.
    Start { timeout_millis: u32, max_wait_millis: u32 },
    /// Run a single mutating operation inside the transaction.
    SingleOperation { handle: TransactionHandle },
    /// Run two mutating operations inside the transaction, submitted together as one atomic batch.
    BatchOperation { handle: TransactionHandle },
    /// Commit the transaction.
    Commit { handle: TransactionHandle },
    /// Roll the transaction back.
    Rollback { handle: TransactionHandle },
}

impl Call {
    /// The deadline of a call in milliseconds, where it has one.
    pub open spec fn spec_deadline_millis(&self) -> Option<u64> {
        match self {
            Call::Start { .. } => None,
            _ => Some(CALL_DEADLINE_MILLIS),
        }
    }

    /// The deadline of this call in milliseconds, where it has one.
    pub fn deadline_millis(&self) -> (deadline: Option<u64>)
        ensures
            deadline == self.spec_deadline_millis(),
    {
        match self {
            Call::Start { .. } => None,
            _ => Some(CALL_DEADLINE_MILLIS),
        }
    }

    /// The transaction that a call belongs to; the start call belongs to none.
    pub open spec fn spec_handle(&self) -> Option<TransactionHandle> {
        match self {
            Call::Start { .. } => None,
            Call::SingleOperation { handle } => Some(*handle),
            Call::BatchOperation { handle } => Some(*handle),
            Call::Commit { handle } => Some(*handle),
            Call::Rollback { handle } => Some(*handle),
        }
    }

    /// The transaction that this call belongs to; the start call belongs to none.
    pub fn handle(&self) -> (found: Option<&TransactionHandle>)
        ensures
            match found {
                Some(handle) => self.spec_handle() == Some(*handle),
                None => self.spec_handle() is None,
            },
    {
        match self {
            Call::Start { .. } => None,
            Call::SingleOperation { handle } => Some(handle),
            Call::BatchOperation { handle } => Some(handle),
            Call::Commit { handle } => Some(handle),
            Call::Rollback { handle } => Some(handle),
        }
    }
}

} // verus!
