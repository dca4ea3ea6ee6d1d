//! Plain values that travel through the pipeline: the content identifier, the
//! contract's address, the transaction hash and the receipt.

use crate::model::ReceiptView;
use vstd::prelude::*;

verus! {

/// The on-chain address of one deployed registration contract.
#[derive(Clone, Copy, Debug, PartialEq, Eq)]
pub struct Address {
    pub bytes: [u8; 20],
}

impl View for Address {
    type V = Seq<u8>;

    open spec fn view(&self) -> Seq<u8> {
        self.bytes@
    }
}

/// The hash under which the ledger knows a submitted transaction.
#[derive(Clone, Copy, Debug, PartialEq, Eq)]
pub struct TxHash {
    pub bytes: [u8; 32],
}

impl View for TxHash {
    type V = Seq<u8>;

    open spec fn view(&self) -> Seq<u8> {
        self.bytes@
    }
}

impl TxHash {
    /// Whether two hashes name the same transaction.
    pub fn same_as(&self, other: &TxHash) -> (r: bool)
        ensures
            r == (self@ == other@),
    {
        let mut i: usize = 0;
        while i < 32
            invariant
                i <= 32,
                forall|k: int| 0 <= k < i ==> self.bytes@[k] == other.bytes@[k],
            decreases 32 - i,
        {
            if self.bytes[i] != other.bytes[i] {
                return false;
            }
            i = i + 1;
        }
        assert(self.bytes@ =~= other.bytes@);
        true
    }
}

/// One deployed instance of the registration contract, known by its address.
/// The capability to sign for it stays with the driver.
#[derive(Clone, Copy, Debug, PartialEq, Eq)]
pub struct ContractHandle {
    pub address: Address,
}

impl View for ContractHandle {
    type V = Seq<u8>;

    open spec fn view(&self) -> Seq<u8> {
        self.address@
    }
}

impl ContractHandle {
    /// The handle of the contract deployed at `address`.
    pub fn at(address: Address) -> (r: Self)
        ensures
            r@ == address@,
    {
        ContractHandle { address }
    }
}

/// The ledger's acknowledgment that a transaction was included, with the
/// outcome of its execution.
#[derive(Clone, Copy, Debug, PartialEq, Eq)]
pub struct TransactionReceipt {
    /// The transaction that the receipt is for.
    pub transaction: TxHash,
    /// Whether the call ran through; `false` when the contract reverted it.
    pub succeeded: bool,
    /// The number of the block that includes the transaction.
    pub block_number: u64,
}

impl View for TransactionReceipt {
    type V = ReceiptView;

    open spec fn view(&self) -> ReceiptView {
        ReceiptView {
            transaction: self.transaction@,
            succeeded: self.succeeded,
            block_number: self.block_number,
        }
    }
}

/// The key under which the content store holds a file. The pipeline never
/// looks inside it; it only carries it and compares it, and it is never
/// empty.
#[derive(Debug, PartialEq, Eq)]
pub struct ContentIdentifier {
    text: String,
}

impl View for ContentIdentifier {
    type V = Seq<char>;

    closed spec fn view(&self) -> Seq<char> {
        self.text@
    }
}

impl Clone for ContentIdentifier {
    fn clone(&self) -> (r: Self)
        ensures
            r@ == self@,
    {
        proof {
            use_type_invariant(self);
        }
        ContentIdentifier { text: self.text.clone() }
    }
}

impl ContentIdentifier {
    /// An identifier holds at least one character.
    #[verifier::type_invariant]
    spec fn is_not_empty(self) -> bool {
        self.text@.len() > 0
    }

    /// Takes the store's answer as an identifier, unless it is empty.
    pub fn new(text: String) -> (r: Option<Self>)
        ensures
            r is Some <==> text@.len() > 0,
            r matches Some(identifier) ==> identifier@ == text@,
    {
        if text.as_str().is_empty() {
            None
        } else {
            Some(ContentIdentifier { text })
        }
    }

    /// The identifier as text, which is never empty.
    pub fn as_str(&self) -> (r: &str)
        ensures
            r@ == self@,
            r@.len() > 0,
    {
        proof {
            use_type_invariant(self);
        }
        self.text.as_str()
    }

    /// Gives the text back, which is never empty.
    pub fn into_string(self) -> (r: String)
        ensures
            r@ == self@,
            r@.len() > 0,
    {
        proof {
            use_type_invariant(&self);
        }
        self.text
    }

    /// Whether `text` is this identifier, character for character.
    pub fn matches_text(&self, text: &String) -> (r: bool)
        ensures
            r == (self@ == text@),
    {
        self.text == *text
    }
}

} // verus!
