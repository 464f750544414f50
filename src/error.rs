use vstd::prelude::*;

verus! {

/// What an adapter or the benchmark harness reports when an operation fails.
/// Each variant carries a message that names the engine and the operation.
#[derive(Debug)]
pub enum Error {
    /// The upstream data could not be fetched or decoded.
    OperationFailed(String),
    /// An engine could not be reached or opened.
    DataBaseConnectionFailed(String),
    /// Tables could not be created.
    DataBaseCreationFailed(String),
    /// A write failed.
    DataBaseInsertionFailed(String),
    /// A read failed, or stored bytes could not be decoded.
    DataBaseReadFailed(String),
}

pub type Result<T> = core::result::Result<T, Error>;

} // verus!
