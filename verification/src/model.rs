//! The request-scoped values that the recovery flow consumes: addresses,
//! explorer and provider records, trace entries, ABI candidates, and the
//! closed set of error kinds.

use vstd::prelude::*;

verus! {

/// A fixed-width account identifier: exactly 20 bytes, compared byte for byte.
#[derive(Debug, Clone, PartialEq, Eq)]
pub struct Address {
    pub bytes: Vec<u8>,
}

impl View for Address {
    type V = Seq<u8>;

    open spec fn view(&self) -> Seq<u8> {
        self.bytes@
    }
}

impl Address {
    /// An address is exactly 20 bytes wide.
    pub open spec fn well_formed(&self) -> bool {
        self@.len() == 20
    }

    pub fn new(bytes: Vec<u8>) -> (r: Address)
        requires
            bytes@.len() == 20,
        ensures
            r@ == bytes@,
            r.well_formed(),
    {
        Address { bytes }
    }

    /// Exact byte equality of two addresses.
    pub fn same_as(&self, other: &Address) -> (r: bool)
        ensures
            r == (self@ == other@),
    {
        if self.bytes.len() != other.bytes.len() {
            return false;
        }
        let n = self.bytes.len();
        let mut i: usize = 0;
        while i < n
            invariant
                0 <= i <= n,
                n == self@.len(),
                n == other@.len(),
                forall|j: int| 0 <= j < i ==> self@[j] == other@[j],
            decreases n - i,
        {
            if self.bytes[i] != other.bytes[i] {
                return false;
            }
            i += 1;
        }
        proof {
            assert(self@ =~= other@);
        }
        true
    }
}

/// A transaction identifier, carried from the explorer to the provider
/// untouched.
#[derive(Debug, Clone, PartialEq, Eq)]
pub struct TxHash {
    pub bytes: Vec<u8>,
}

impl View for TxHash {
    type V = Seq<u8>;

    open spec fn view(&self) -> Seq<u8> {
        self.bytes@
    }
}

/// What the explorer reports for a deployed contract: the hash of the
/// transaction that created it.
#[derive(Debug, Clone, PartialEq, Eq)]
pub struct CreationRecord {
    pub transaction_hash: TxHash,
}

/// A transaction as the provider returns it. An absent `to` marks a
/// top-level contract-creation transaction, whose input is the creation
/// bytecode itself.
#[derive(Debug, Clone, PartialEq, Eq)]
pub struct TransactionRecord {
    pub to: Option<Address>,
    pub input: Vec<u8>,
}

/// What one trace entry asked the virtual machine to do.
#[derive(Debug, Clone, PartialEq, Eq)]
pub enum TraceAction {
    /// A nested create operation carrying its initialization payload.
    Create { init: Vec<u8> },
    /// Any other operation; its details are irrelevant here.
    Other,
}

/// What one trace entry's operation produced.
#[derive(Debug, Clone, PartialEq, Eq)]
pub enum TraceOutcome {
    /// A contract was installed at `address`.
    Created { address: Address, code: Vec<u8>, gas_used: u64 },
    /// Any other outcome; its details are irrelevant here.
    Other,
}

/// One nested operation recorded during a transaction's execution.
#[derive(Debug, Clone, PartialEq, Eq)]
pub struct TraceEntry {
    pub action: TraceAction,
    pub result: Option<TraceOutcome>,
}

/// A constructor signature: one type descriptor per parameter, in order.
#[derive(Debug, Clone, PartialEq, Eq)]
pub struct ConstructorSignature {
    pub inputs: Vec<String>,
}

/// One ABI candidate returned by the explorer. A contract without a
/// constructor has `constructor` absent; a constructor without parameters
/// has an empty `inputs`.
#[derive(Debug, Clone, PartialEq, Eq)]
pub struct AbiRecord {
    pub constructor: Option<ConstructorSignature>,
}

/// Which lookup came back empty.
#[derive(Debug, Clone, PartialEq, Eq)]
pub enum NotFoundKind {
    /// The explorer has no creation record for the address.
    CreationRecord,
    /// The provider has no transaction under the creation hash.
    Transaction,
    /// No trace entry reports the creation of the target address.
    CreationTrace,
}

/// Why no constructor-argument window could be placed.
#[derive(Debug, Clone, PartialEq, Eq)]
pub enum AbiFailure {
    /// The explorer returned no ABI candidate at all.
    AbiNotFound,
    /// The selected ABI has no constructor.
    NoConstructor,
    /// The constructor takes no parameters.
    NoConstructorArgs,
}

/// Every way the recovery flow can fail.
#[derive(Debug, Clone, PartialEq, Eq)]
pub enum Error {
    /// Conflicting mode flags, rejected before any collaborator call.
    Usage,
    /// A required record was missing.
    NotFound(NotFoundKind),
    /// The ABI stage could not place an argument window.
    Abi(AbiFailure),
    /// The computed argument window exceeds the bytecode length.
    MalformedBytecode,
    /// A failure surfaced by the explorer or the provider, with context.
    Collaborator(String),
}

} // verus!
