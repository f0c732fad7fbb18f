//! Selector dispatch: the closed mapping from a 16-bit function id to one
//! of the two operations the extension offers.

use vstd::prelude::*;
use crate::error::DispatchFailure;

verus! {

/// The function id of the owner query (the first two bytes of the
/// contract-side selector of `get_owner`).
pub const FUNC_ID_GET_OWNER: u16 = 0x162d;

/// The function id of the transfer operation (the first two bytes of the
/// contract-side selector of `transfer_nft`).
pub const FUNC_ID_TRANSFER: u16 = 0xdb20;

/// The id under which this extension is registered with the host runtime.
pub const EXTENSION_ID: u16 = 2;

/// The read-only queries the extension offers.
#[derive(Debug, Clone, Copy, PartialEq, Eq, Structural)]
pub enum Query {
    /// Who owns a given item of a given collection.
    Owner,
}

/// The operations of the extension, as a closed set: a function id outside
/// it is always rejected, never silently ignored.
#[derive(Debug, Clone, Copy, PartialEq, Eq, Structural)]
pub enum FuncId {
    /// A read-only query.
    Query(Query),
    /// The mutating transfer.
    Transfer,
}

impl FuncId {
    /// Maps an inbound function id to its operation; exactly the two
    /// registered ids are accepted, every other id is rejected as
    /// unregistered.
    pub fn try_from_u16(func_id: u16) -> (r: Result<FuncId, DispatchFailure>)
        ensures
            func_id == FUNC_ID_GET_OWNER
                ==> r == Ok::<FuncId, DispatchFailure>(FuncId::Query(Query::Owner)),
            func_id == FUNC_ID_TRANSFER ==> r == Ok::<FuncId, DispatchFailure>(FuncId::Transfer),
            func_id != FUNC_ID_GET_OWNER && func_id != FUNC_ID_TRANSFER
                ==> r == Err::<FuncId, DispatchFailure>(DispatchFailure::UnregisteredFuncId),
    {
        match func_id {
            0x162d => Ok(FuncId::Query(Query::Owner)),
            0xdb20 => Ok(FuncId::Transfer),
            _ => Err(DispatchFailure::UnregisteredFuncId),
        }
    }
}

} // verus!
