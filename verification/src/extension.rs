//! The contract-side declaration of the extension: builds the calls that
//! the contract virtual machine carries across the extension boundary,
//! and interprets what comes back.
//!
//! A remote operation is a 16-bit function id plus a SCALE payload; the
//! host answers with a numeric status code and, for the owner query, an
//! encoded optional account. The round trip itself — serializing the call
//! into the host boundary and back — is the virtual machine's work, done
//! by an unverified driver around this crate.

use vstd::prelude::*;
use crate::account::AccountId;
use crate::selector::{FUNC_ID_GET_OWNER, FUNC_ID_TRANSFER};
use crate::wire::{encode_transfer_input, transfer_input_bytes, TransferInput, TRANSFER_INPUT_LEN};

verus! {

/// One call for the host to carry across the extension boundary.
#[derive(Debug)]
pub struct ExtensionCall {
    /// The function id of the remote operation.
    pub func_id: u16,
    /// The SCALE payload of the operation's arguments.
    pub input: Vec<u8>,
}

/// The contract-side handle to the extension's two remote operations.
#[derive(Debug)]
pub struct Psp02Extension {}

impl Psp02Extension {
    /// Creates a new handle.
    pub fn new() -> (r: Psp02Extension)
        ensures
            r == (Psp02Extension {  }),
    {
        Psp02Extension {  }
    }

    /// Builds the owner-query call for an item: the query's function id,
    /// with the {collection id, item id, destination} payload. The query
    /// reads no destination, so the field is sent as the zero account.
    pub fn get_owner_call(&self, asset_id: u32, collection_id: u32) -> (r: ExtensionCall)
        ensures
            r.func_id == FUNC_ID_GET_OWNER,
            r.input@ == transfer_input_bytes(
                collection_id,
                asset_id,
                Seq::<u8>::new(crate::ACCOUNT_ID_LEN as nat, |i: int| 0u8),
            ),
            r.input@.len() == TRANSFER_INPUT_LEN,
    {
        let input = encode_transfer_input(
            &TransferInput { collection_id, item_id: asset_id, dest: AccountId::zero() },
        );
        ExtensionCall { func_id: FUNC_ID_GET_OWNER, input }
    }

    /// Builds the transfer call for an item: the transfer's function id,
    /// with the {collection id, item id, destination} payload.
    pub fn transfer_nft_call(&self, asset_id: u32, dest: &AccountId, collection_id: u32) -> (r:
        ExtensionCall)
        requires
            dest.wf(),
        ensures
            r.func_id == FUNC_ID_TRANSFER,
            r.input@ == transfer_input_bytes(collection_id, asset_id, dest@),
            r.input@.len() == TRANSFER_INPUT_LEN,
    {
        let input = encode_transfer_input(
            &TransferInput { collection_id, item_id: asset_id, dest: dest.duplicate() },
        );
        ExtensionCall { func_id: FUNC_ID_TRANSFER, input }
    }
}

} // verus!
