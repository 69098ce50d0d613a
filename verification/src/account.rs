//! Addresses and the account handles that the host supplies per invocation.

use vstd::prelude::*;

verus! {

/// The 32 bytes that name an account or a program on the ledger.
#[derive(Clone, Copy, Debug, PartialEq, Eq, Hash)]
pub struct Address {
    pub bytes: [u8; 32],
}

impl View for Address {
    type V = Seq<u8>;

    open spec fn view(&self) -> Seq<u8> {
        self.bytes@
    }
}

impl Address {
    /// The address made of the given bytes.
    pub fn new(bytes: [u8; 32]) -> (r: Address)
        ensures
            r@ == bytes@,
            r.bytes == bytes,
    {
        Address { bytes }
    }

    /// Whether two addresses hold the same 32 bytes.
    pub fn same_as(&self, other: &Address) -> (r: bool)
        ensures
            r == (self@ == other@),
            r == (*self == *other),
    {
        let mut i: usize = 0;
        while i < 32
            invariant
                i <= 32,
                forall|k: int| 0 <= k < i ==> self.bytes@[k] == other.bytes@[k],
            decreases 32 - i,
        {
            if self.bytes[i] != other.bytes[i] {
                return false;
            }
            i += 1;
        }
        assert(self.bytes@ =~= other.bytes@);
        assert(self.bytes == other.bytes);
        true
    }
}

/// One account as the host hands it to the program for the length of one
/// invocation: where it lives, who owns it, what it holds.
#[derive(Clone, Debug)]
pub struct AccountHandle {
    /// The account's own address.
    pub address: Address,
    /// The program that alone may change the account's data.
    pub owner: Address,
    /// The account's balance in lamports.
    pub balance: u64,
    /// The account's data region. Its length is fixed by whoever allocated
    /// the account.
    pub data: Vec<u8>,
    /// Whether the account's key signed the transaction.
    pub is_signer: bool,
}

/// The state stored in a storage account: the hash of one report's document.
#[derive(Debug)]
pub struct HashAccount {
    pub hash: String,
}

} // verus!
