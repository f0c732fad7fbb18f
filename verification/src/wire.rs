//! The wire format of the bridge: SCALE encoding and decoding of the two
//! fixed-shape records that cross it — the transfer-request payload
//! {collection id, item id, destination account} and the owner-query
//! reply (an optional account).
//!
//! The primitive integer codec is the outside codec crate's; the record
//! shapes, the length checks and the reply tag are this crate's own logic
//! and are verified against exact byte-level specifications.

use vstd::prelude::*;
use vstd::slice::{slice_index_get, slice_subrange, slice_to_vec};
use crate::account::AccountId;
use crate::error::DispatchFailure;

verus! {

/// The encoded length of a transfer-request payload: two 32-bit ids and a
/// 32-byte account.
pub const TRANSFER_INPUT_LEN: usize = 40;

/// A transfer-request payload: which item of which collection to move,
/// and to whom. The caller identity comes from the call context, not the
/// payload.
#[derive(Debug, Clone)]
pub struct TransferInput {
    /// The collection the item belongs to.
    pub collection_id: u32,
    /// The item within the collection.
    pub item_id: u32,
    /// The destination account.
    pub dest: AccountId,
}

impl TransferInput {
    /// A well-formed payload carries a well-formed destination account.
    pub open spec fn wf(&self) -> bool {
        self.dest.wf()
    }
}

/// The four little-endian bytes of a 32-bit integer: SCALE's fixed-width
/// integer encoding.
pub open spec fn u32_le(x: u32) -> Seq<u8> {
    seq![
        (x & 0xff) as u8,
        ((x >> 8) & 0xff) as u8,
        ((x >> 16) & 0xff) as u8,
        ((x >> 24) & 0xff) as u8,
    ]
}

/// The SCALE bytes of a transfer request: the two ids little-endian, then
/// the destination's raw bytes.
pub open spec fn transfer_input_bytes(collection_id: u32, item_id: u32, dest: Seq<u8>) -> Seq<u8> {
    u32_le(collection_id) + u32_le(item_id) + dest
}

/// The account bytes inside an optional account, if one is present.
pub open spec fn opt_account_bytes(owner: Option<AccountId>) -> Option<Seq<u8>> {
    match owner {
        Option::None => Option::None,
        Option::Some(a) => Option::Some(a@),
    }
}

/// The SCALE bytes of an optional account: a single absence byte, or a
/// presence byte followed by the account's raw bytes.
pub open spec fn owner_result_bytes(owner: Option<Seq<u8>>) -> Seq<u8> {
    match owner {
        Option::None => seq![0u8],
        Option::Some(a) => seq![1u8] + a,
    }
}

/// Relies on the codec crate's `Encode` for `u32`: a fixed-width integer
/// encodes as its little-endian bytes.
#[verifier::external_body]
fn scale_encode_u32(x: u32) -> (r: Vec<u8>)
    ensures
        r@ == u32_le(x),
{
    parity_scale_codec::Encode::encode(&x)
}

/// Relies on the codec crate's `Decode` for `u32` reading a byte-slice
/// input: it takes four little-endian bytes from the front, and errs
/// exactly when fewer than four remain.
#[verifier::external_body]
fn scale_decode_u32(bytes: &[u8]) -> (r: Option<u32>)
    ensures
        r is Some <==> bytes@.len() >= 4,
        r matches Some(x) ==> bytes@.subrange(0, 4) == u32_le(x),
{
    let mut input: &[u8] = bytes;
    <u32 as parity_scale_codec::Decode>::decode(&mut input).ok()
}

/// Law: the little-endian encoding of a 32-bit integer determines it —
/// equal byte strings come only from equal integers.
pub proof fn lemma_u32_le_injective(x: u32, y: u32)
    requires
        u32_le(x) == u32_le(y),
    ensures
        x == y,
{
    assert(u32_le(x)[0] == u32_le(y)[0]);
    assert(u32_le(x)[1] == u32_le(y)[1]);
    assert(u32_le(x)[2] == u32_le(y)[2]);
    assert(u32_le(x)[3] == u32_le(y)[3]);
    assert(x == y) by (bit_vector)
        requires
            (x & 0xff) as u8 == (y & 0xff) as u8,
            ((x >> 8) & 0xff) as u8 == ((y >> 8) & 0xff) as u8,
            ((x >> 16) & 0xff) as u8 == ((y >> 16) & 0xff) as u8,
            ((x >> 24) & 0xff) as u8 == ((y >> 24) & 0xff) as u8,
    ;
}

/// Law: a transfer-request payload determines its triple. Together with
/// the contracts of [`encode_transfer_input`] and
/// [`decode_transfer_input`] this is the round trip: encoding a
/// {collection id, item id, destination} triple and decoding the bytes
/// reproduces that same triple exactly.
pub proof fn lemma_transfer_encoding_injective(
    c1: u32,
    i1: u32,
    d1: Seq<u8>,
    c2: u32,
    i2: u32,
    d2: Seq<u8>,
)
    requires
        d1.len() == d2.len(),
        transfer_input_bytes(c1, i1, d1) == transfer_input_bytes(c2, i2, d2),
    ensures
        c1 == c2,
        i1 == i2,
        d1 == d2,
{
    let b1 = transfer_input_bytes(c1, i1, d1);
    let b2 = transfer_input_bytes(c2, i2, d2);
    assert(b1.subrange(0, 4) =~= u32_le(c1));
    assert(b2.subrange(0, 4) =~= u32_le(c2));
    assert(b1.subrange(4, 8) =~= u32_le(i1));
    assert(b2.subrange(4, 8) =~= u32_le(i2));
    lemma_u32_le_injective(c1, c2);
    lemma_u32_le_injective(i1, i2);
    assert(b1.subrange(8, b1.len() as int) =~= d1);
    assert(b2.subrange(8, b2.len() as int) =~= d2);
}

/// Encodes a transfer request for the wire.
pub fn encode_transfer_input(input: &TransferInput) -> (r: Vec<u8>)
    requires
        input.wf(),
    ensures
        r@ == transfer_input_bytes(input.collection_id, input.item_id, input.dest@),
        r@.len() == TRANSFER_INPUT_LEN,
{
    let mut r = scale_encode_u32(input.collection_id);
    let mut item = scale_encode_u32(input.item_id);
    r.append(&mut item);
    let mut dest = slice_to_vec(input.dest.as_bytes().as_slice());
    r.append(&mut dest);
    r
}

/// Decodes a transfer request from an inbound buffer. The payload must
/// decode exactly: only a buffer of exactly the fixed record length is
/// accepted, and the accepted buffer is precisely the encoding of the
/// returned triple.
pub fn decode_transfer_input(buf: &[u8]) -> (r: Result<TransferInput, DispatchFailure>)
    ensures
        r is Ok <==> buf@.len() == TRANSFER_INPUT_LEN,
        r matches Ok(input) ==> input.wf() && buf@ == transfer_input_bytes(
            input.collection_id,
            input.item_id,
            input.dest@,
        ),
        r is Err ==> r == Err::<TransferInput, DispatchFailure>(DispatchFailure::DecodeFailed),
{
    if buf.len() != TRANSFER_INPUT_LEN {
        return Err(DispatchFailure::DecodeFailed);
    }
    let collection_id = match scale_decode_u32(slice_subrange(buf, 0, 4)) {
        Some(x) => x,
        None => {
            return Err(DispatchFailure::DecodeFailed);
        },
    };
    let item_id = match scale_decode_u32(slice_subrange(buf, 4, 8)) {
        Some(x) => x,
        None => {
            return Err(DispatchFailure::DecodeFailed);
        },
    };
    let dest_bytes = slice_to_vec(slice_subrange(buf, 8, TRANSFER_INPUT_LEN));
    let dest = match AccountId::from_bytes(dest_bytes) {
        Some(a) => a,
        None => {
            return Err(DispatchFailure::DecodeFailed);
        },
    };
    let input = TransferInput { collection_id, item_id, dest };
    proof {
        assert(buf@ =~= buf@.subrange(0, 4) + buf@.subrange(4, 8) + buf@.subrange(8, 40));
        assert(buf@.subrange(0, 4) == u32_le(input.collection_id));
        assert(buf@.subrange(4, 8) == u32_le(input.item_id));
        assert(input.dest@ == buf@.subrange(8, 40));
    }
    Ok(input)
}

/// Encodes the owner-query result for the outbound buffer: the module's
/// answer exactly as reported — "no owner" is a valid, successful answer,
/// not an error.
pub fn encode_owner_result(owner: &Option<AccountId>) -> (r: Vec<u8>)
    ensures
        r@ == owner_result_bytes(opt_account_bytes(*owner)),
{
    match owner {
        None => {
            let mut r: Vec<u8> = Vec::new();
            r.push(0u8);
            proof {
                assert(r@ =~= seq![0u8]);
            }
            r
        },
        Some(a) => {
            let mut r: Vec<u8> = Vec::new();
            r.push(1u8);
            let mut bytes = slice_to_vec(a.as_bytes().as_slice());
            r.append(&mut bytes);
            proof {
                assert(r@ =~= seq![1u8] + a@);
            }
            r
        },
    }
}

/// A byte string is a well-formed owner reply when it is the single
/// absence byte, or the presence byte followed by a full account.
pub open spec fn is_owner_reply(bytes: Seq<u8>) -> bool {
    ||| bytes == seq![0u8]
    ||| (bytes.len() == 33 && bytes[0] == 1)
}

/// Says whether a buffer is a well-formed owner reply, so that an
/// unverified driver can rule malformed replies out — a malformed reply
/// is a protocol defect and is treated as fatal, never decoded by guess.
pub fn check_owner_reply(buf: &[u8]) -> (r: bool)
    ensures
        r == is_owner_reply(buf@),
{
    if buf.len() == 1 {
        let b0 = *slice_index_get(buf, 0);
        proof {
            if b0 == 0 {
                assert(buf@ =~= seq![0u8]);
            } else {
                assert(buf@ != seq![0u8]) by {
                    assert(buf@[0] != seq![0u8][0]);
                }
            }
        }
        b0 == 0
    } else if buf.len() == 33 {
        proof {
            assert(buf@ != seq![0u8]) by {
                assert(buf@.len() != seq![0u8].len());
            }
        }
        *slice_index_get(buf, 0) == 1
    } else {
        proof {
            assert(buf@ != seq![0u8]) by {
                assert(buf@.len() != seq![0u8].len());
            }
        }
        false
    }
}

/// Decodes a well-formed owner reply: the absence byte means the item has
/// no recorded owner; the presence byte carries the owner's account.
pub fn decode_owner_reply(buf: &[u8]) -> (r: Option<AccountId>)
    requires
        is_owner_reply(buf@),
    ensures
        buf@[0] == 0 ==> r is None,
        buf@[0] == 1 ==> (r matches Some(a) && a@ == buf@.subrange(1, 33) && a.wf()),
{
    let b0 = *slice_index_get(buf, 0);
    if b0 == 0 {
        proof {
            assert(buf@ == seq![0u8]);
        }
        None
    } else {
        let bytes = slice_to_vec(slice_subrange(buf, 1, 33));
        match AccountId::from_bytes(bytes) {
            Some(a) => Some(a),
            None => None,
        }
    }
}

} // verus!
