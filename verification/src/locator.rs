//! Resolving the creation bytecode of a contract.
//!
//! The flow is a short chain of collaborator lookups with a decision after
//! each: the explorer names the creation transaction, the provider returns
//! it, and either its input is the bytecode (top-level deployment) or the
//! execution traces must be scanned for the nested create that installed
//! the target (factory and create2 deployments). Each decision is a
//! verified step function here; the lookups themselves stay with the
//! caller, which hands their plain results in.

use vstd::prelude::*;

use crate::bytes::copy_bytes;
use crate::model::{
    Address, CreationRecord, Error, NotFoundKind, TraceAction, TraceEntry, TraceOutcome,
    TransactionRecord, TxHash,
};

verus! {

/// Whether this entry's result reports the creation of a contract at
/// `target`.
pub open spec fn targets(e: TraceEntry, target: Seq<u8>) -> bool {
    match e.result {
        Some(TraceOutcome::Created { address, .. }) => address@ == target,
        _ => false,
    }
}

/// The init payload of this entry's action, if that action is a create.
pub open spec fn created_init(e: TraceEntry) -> Option<Seq<u8>> {
    match e.action {
        TraceAction::Create { init } => Some(init@),
        TraceAction::Other => None,
    }
}

/// Whether this entry is relevant to the scan for `target`: only an entry
/// that pairs a create action with a result reporting the creation of
/// `target` is; all other entries leave the scan untouched.
pub open spec fn creates_target(e: TraceEntry, target: Seq<u8>) -> bool {
    targets(e, target) && created_init(e) is Some
}

/// What a full scan of `entries` retains: the last relevant entry — one
/// pairing a create action with a result that created `target` — decides,
/// and its action's init payload is the retained bytecode. Earlier matches
/// are overwritten by later ones; every other entry, including one whose
/// result targets the address but whose action is not a create, leaves the
/// retained match untouched.
pub open spec fn scan_result(entries: Seq<TraceEntry>, target: Seq<u8>) -> Option<Seq<u8>>
    decreases entries.len(),
{
    if entries.len() == 0 {
        None
    } else if creates_target(entries.last(), target) {
        created_init(entries.last())
    } else {
        scan_result(entries.drop_last(), target)
    }
}

/// The transaction hash of the explorer's creation record; `NotFound` when
/// the explorer had no record for the address.
pub fn require_creation_record(reply: Option<CreationRecord>) -> (r: Result<TxHash, Error>)
    ensures
        (match reply {
            Some(record) => r matches Ok(h) && h@ == record.transaction_hash@,
            None => r matches Err(e) && e == Error::NotFound(NotFoundKind::CreationRecord),
        }),
{
    match reply {
        Some(record) => Ok(record.transaction_hash),
        None => Err(Error::NotFound(NotFoundKind::CreationRecord)),
    }
}

/// How the creation transaction delivered the bytecode.
#[derive(Debug, Clone, PartialEq, Eq)]
pub enum CreationSource {
    /// A top-level creation transaction: its input is the creation bytecode.
    Direct { input: Vec<u8> },
    /// The transaction targeted another account, so the creation happened
    /// inside a call and must be read from the execution traces.
    Nested,
}

/// Classify the provider's reply for the creation transaction: absent
/// transaction is `NotFound`; absent `to` means the input is the bytecode;
/// a present `to` sends the caller to the traces.
pub fn classify_transaction(reply: Option<TransactionRecord>) -> (r: Result<CreationSource, Error>)
    ensures
        (match reply {
            None => r matches Err(e) && e == Error::NotFound(NotFoundKind::Transaction),
            Some(tx) => match tx.to {
                None => r matches Ok(CreationSource::Direct { input }) && input@ == tx.input@,
                Some(_) => r matches Ok(CreationSource::Nested),
            },
        }),
{
    match reply {
        None => Err(Error::NotFound(NotFoundKind::Transaction)),
        Some(tx) => match tx.to {
            None => Ok(CreationSource::Direct { input: tx.input }),
            Some(_) => Ok(CreationSource::Nested),
        },
    }
}

/// Scan the trace entries in execution order and return the init bytecode
/// of the last entry that created `target`; the scan never stops early, so
/// a later match for the same address overwrites an earlier one. Entries
/// that do not pair a create action with a matching created address are
/// irrelevant and skipped. Fails with `NotFound` when no entry matches
/// after the full scan.
pub fn scan_traces(traces: &Vec<TraceEntry>, target: &Address) -> (r: Result<Vec<u8>, Error>)
    ensures
        (match scan_result(traces@, target@) {
            Some(init) => r matches Ok(b) && b@ == init,
            None => r matches Err(e) && e == Error::NotFound(NotFoundKind::CreationTrace),
        }),
{
    let mut best: Option<Vec<u8>> = None;
    let mut i: usize = 0;
    while i < traces.len()
        invariant
            0 <= i <= traces@.len(),
            (match scan_result(traces@.take(i as int), target@) {
                Some(init) => best matches Some(b) && b@ == init,
                None => best is None,
            }),
        decreases traces@.len() - i,
    {
        let entry = &traces[i];
        let mut matched = false;
        match &entry.result {
            Some(TraceOutcome::Created { address, .. }) => {
                if address.same_as(target) {
                    matched = true;
                }
            }
            _ => {}
        }
        if matched {
            match &entry.action {
                TraceAction::Create { init } => {
                    best = Some(copy_bytes(init));
                },
                TraceAction::Other => {},
            }
        }
        proof {
            assert(traces@.take(i as int + 1).drop_last() =~= traces@.take(i as int));
            assert(traces@.take(i as int + 1).last() == traces@[i as int]);
        }
        i += 1;
    }
    proof {
        assert(traces@.take(traces@.len() as int) =~= traces@);
    }
    match best {
        Some(b) => Ok(b),
        None => Err(Error::NotFound(NotFoundKind::CreationTrace)),
    }
}

/// Last write wins: if `entries[i]` pairs a create action with a result
/// that created the target, and no later entry does, the scan retains
/// exactly the init bytes of `entries[i]` — whatever other entries,
/// relevant-looking or not, stand after it.
pub proof fn lemma_scan_last_match(entries: Seq<TraceEntry>, target: Seq<u8>, i: int)
    requires
        0 <= i < entries.len(),
        creates_target(entries[i], target),
        forall|j: int| i < j < entries.len() ==> !creates_target(entries[j], target),
    ensures
        scan_result(entries, target) == created_init(entries[i]),
        scan_result(entries, target) is Some,
    decreases entries.len(),
{
    assert(entries.last() == entries[entries.len() - 1]);
    if i == entries.len() - 1 {
    } else {
        let head = entries.drop_last();
        assert(head[i] == entries[i]);
        assert forall|j: int| i < j < head.len() implies !creates_target(head[j], target) by {
            assert(head[j] == entries[j]);
        }
        lemma_scan_last_match(head, target, i);
    }
}

/// A scan over entries none of which both creates and targets the address
/// retains nothing.
pub proof fn lemma_scan_no_match(entries: Seq<TraceEntry>, target: Seq<u8>)
    requires
        forall|j: int| 0 <= j < entries.len() ==> !creates_target(entries[j], target),
    ensures
        scan_result(entries, target) is None,
    decreases entries.len(),
{
    if entries.len() > 0 {
        assert(entries.last() == entries[entries.len() - 1]);
        let head = entries.drop_last();
        assert forall|j: int| 0 <= j < head.len() implies !creates_target(head[j], target) by {
            assert(head[j] == entries[j]);
        }
        lemma_scan_no_match(head, target);
    }
}

} // verus!
