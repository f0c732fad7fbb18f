//! Account identifiers: opaque 32-byte values naming the owner of an item
//! or the destination of a transfer.

use vstd::prelude::*;

verus! {

/// An account identifier: exactly [`crate::ACCOUNT_ID_LEN`] raw bytes.
#[derive(Debug, Clone)]
pub struct AccountId {
    bytes: Vec<u8>,
}

impl View for AccountId {
    type V = Seq<u8>;

    closed spec fn view(&self) -> Seq<u8> {
        self.bytes@
    }
}

impl AccountId {
    /// A well-formed account holds exactly 32 bytes.
    pub open spec fn wf(&self) -> bool {
        self@.len() == crate::ACCOUNT_ID_LEN
    }

    /// Builds an account from raw bytes; succeeds exactly on 32-byte input.
    pub fn from_bytes(bytes: Vec<u8>) -> (r: Option<AccountId>)
        ensures
            r is Some <==> bytes@.len() == crate::ACCOUNT_ID_LEN,
            r matches Some(a) ==> a@ == bytes@ && a.wf(),
    {
        if bytes.len() == crate::ACCOUNT_ID_LEN {
            Some(AccountId { bytes })
        } else {
            None
        }
    }

    /// The all-zero account, used as a placeholder destination in a
    /// query-owner payload, whose destination field the runtime ignores.
    pub fn zero() -> (r: AccountId)
        ensures
            r@ == Seq::<u8>::new(crate::ACCOUNT_ID_LEN as nat, |i: int| 0u8),
            r.wf(),
    {
        let mut bytes: Vec<u8> = Vec::new();
        let mut i: usize = 0;
        while i < crate::ACCOUNT_ID_LEN
            invariant
                i <= crate::ACCOUNT_ID_LEN,
                bytes@ =~= Seq::<u8>::new(i as nat, |j: int| 0u8),
            decreases crate::ACCOUNT_ID_LEN - i,
        {
            bytes.push(0u8);
            i = i + 1;
        }
        let r = AccountId { bytes };
        proof {
            assert(r@ =~= Seq::<u8>::new(crate::ACCOUNT_ID_LEN as nat, |i: int| 0u8));
        }
        r
    }

    /// An owned copy of the account, byte for byte.
    pub fn duplicate(&self) -> (r: AccountId)
        ensures
            r@ == self@,
    {
        AccountId { bytes: vstd::slice::slice_to_vec(self.bytes.as_slice()) }
    }

    /// The raw bytes of the account.
    pub fn as_bytes(&self) -> (r: &Vec<u8>)
        ensures
            r@ == self@,
    {
        &self.bytes
    }

    /// Byte-for-byte equality of two accounts.
    pub fn eq_account(&self, other: &AccountId) -> (r: bool)
        ensures
            r == (self@ == other@),
    {
        if self.bytes.len() != other.bytes.len() {
            proof {
                assert(self@.len() != other@.len());
            }
            return false;
        }
        let n = self.bytes.len();
        let mut i: usize = 0;
        while i < n
            invariant
                n == self@.len(),
                n == other@.len(),
                i <= n,
                forall|j: int| 0 <= j < i ==> self@[j] == other@[j],
            decreases n - i,
        {
            if self.bytes[i] != other.bytes[i] {
                return false;
            }
            i = i + 1;
        }
        proof {
            assert(self@ =~= other@);
        }
        true
    }
}

} // verus!
