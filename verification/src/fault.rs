//! Why a run stops before its end.

use miden_objects::{AccountError, AccountIdError};
use miden_client::transaction::TransactionRequestError;
use vstd::prelude::*;

verus! {

/// A condition that ends a run where it is found. None of them is a failure of the client: those
/// are handed back as they came.
#[derive(Debug)]
pub enum Fault {
    /// A file of the demo could not be read.
    FileUnreadable,
    /// The contract module did not compile.
    CompileFailed(AccountError),
    /// The block that the node offered as an anchor does not open an epoch.
    MalformedAnchor(AccountIdError),
    /// No account could be built from the component.
    BuildFailed(AccountError),
    /// The contract does not export the procedure that the script calls.
    MissingExport,
    /// No transaction request could be made of the script.
    RequestRejected(TransactionRequestError),
    /// The client does not know the account that it was given.
    AccountUnknown,
    /// An event arrived that the run was not waiting for.
    OutOfTurn,
}

} // verus!
