//! Slicing the constructor-argument bytes off the tail of creation
//! bytecode, driven by two mutually exclusive mode flags.
//!
//! The argument window is one 32-byte word per constructor parameter. This
//! is exact only for constructors whose every parameter is fixed-size:
//! dynamically sized parameters (`bytes`, `string`, arrays) are encoded
//! with offsets and lengths and can occupy more or fewer bytes. The
//! word-per-parameter rule is kept deliberately, as established behavior.

use vstd::prelude::*;

use crate::bytes::sub_bytes;
use crate::model::{AbiFailure, AbiRecord, ConstructorSignature, Error};

verus! {

/// How the recovered bytecode is post-processed.
#[derive(Clone, Copy, Debug, PartialEq, Eq, Structural)]
pub enum SplitMode {
    /// Hand the bytecode back untouched; the ABI is never consulted.
    Passthrough,
    /// Drop the trailing constructor-argument bytes.
    WithoutArgs,
    /// Keep only the trailing constructor-argument bytes.
    OnlyArgs,
}

/// Resolve the two mode flags. They are mutually exclusive; the conflict is
/// reported before any collaborator is contacted.
pub fn parse_mode(without_args: bool, only_args: bool) -> (r: Result<SplitMode, Error>)
    ensures
        (without_args && only_args) ==> (r matches Err(e) && e == Error::Usage),
        (without_args && !only_args) ==> (r matches Ok(m) && m == SplitMode::WithoutArgs),
        (!without_args && only_args) ==> (r matches Ok(m) && m == SplitMode::OnlyArgs),
        (!without_args && !only_args) ==> (r matches Ok(m) && m == SplitMode::Passthrough),
{
    if without_args && only_args {
        Err(Error::Usage)
    } else if without_args {
        Ok(SplitMode::WithoutArgs)
    } else if only_args {
        Ok(SplitMode::OnlyArgs)
    } else {
        Ok(SplitMode::Passthrough)
    }
}

/// The splitter's first step, taken before any ABI is available.
#[derive(Debug, Clone, PartialEq, Eq)]
pub enum SplitProgress {
    /// The final bytes: no ABI lookup is needed.
    Done(Vec<u8>),
    /// The contract's ABI is needed to place the argument window; the
    /// bytecode rides along unchanged.
    NeedAbi(Vec<u8>),
}

/// Decide whether the ABI is needed: passthrough finishes immediately with
/// the bytecode unchanged and requests no lookup; both slicing modes
/// request the ABI.
pub fn split_local(bytecode: Vec<u8>, mode: SplitMode) -> (r: SplitProgress)
    ensures
        mode == SplitMode::Passthrough ==> (r matches SplitProgress::Done(b) && b@ == bytecode@),
        mode != SplitMode::Passthrough ==> (r matches SplitProgress::NeedAbi(b) && b@
            == bytecode@),
{
    match mode {
        SplitMode::Passthrough => SplitProgress::Done(bytecode),
        _ => SplitProgress::NeedAbi(bytecode),
    }
}

/// The argument-window width: one 32-byte word per constructor parameter.
pub open spec fn args_size(sig: ConstructorSignature) -> nat {
    32 * sig.inputs@.len()
}

/// What the splitter owes for a slicing mode (`WithoutArgs` or `OnlyArgs`)
/// once the explorer has answered with `candidates`: the first candidate
/// decides; an empty list, an absent constructor under `OnlyArgs`, an empty
/// parameter list under `OnlyArgs`, and an argument window wider than the
/// bytecode each fail with their own kind; otherwise the bytecode is cut
/// `args_size` bytes before its end and one side is returned.
pub open spec fn split_outcome(
    bytecode: Seq<u8>,
    mode: SplitMode,
    candidates: Seq<AbiRecord>,
) -> Result<Seq<u8>, Error> {
    if candidates.len() == 0 {
        Err(Error::Abi(AbiFailure::AbiNotFound))
    } else {
        match candidates[0].constructor {
            None => {
                if mode == SplitMode::OnlyArgs {
                    Err(Error::Abi(AbiFailure::NoConstructor))
                } else {
                    Ok(bytecode)
                }
            },
            Some(sig) => {
                if sig.inputs@.len() == 0 {
                    if mode == SplitMode::OnlyArgs {
                        Err(Error::Abi(AbiFailure::NoConstructorArgs))
                    } else {
                        Ok(bytecode)
                    }
                } else if args_size(sig) > bytecode.len() {
                    Err(Error::MalformedBytecode)
                } else if mode == SplitMode::WithoutArgs {
                    Ok(bytecode.take(bytecode.len() - args_size(sig)))
                } else {
                    Ok(bytecode.skip(bytecode.len() - args_size(sig)))
                }
            },
        }
    }
}

/// The splitter's second step, once the explorer's ABI candidates are at
/// hand. Only the two slicing modes reach this step: passthrough never
/// fetches an ABI.
pub fn split_with_abi(bytecode: Vec<u8>, mode: SplitMode, candidates: &Vec<AbiRecord>) -> (r:
    Result<Vec<u8>, Error>)
    requires
        mode != SplitMode::Passthrough,
    ensures
        (match (split_outcome(bytecode@, mode, candidates@), r) {
            (Ok(want), Ok(b)) => b@ == want,
            (Err(want), Err(e)) => e == want,
            _ => false,
        }),
{
    if candidates.len() == 0 {
        return Err(Error::Abi(AbiFailure::AbiNotFound));
    }
    let first = &candidates[0];
    match &first.constructor {
        None => {
            if mode == SplitMode::OnlyArgs {
                Err(Error::Abi(AbiFailure::NoConstructor))
            } else {
                Ok(bytecode)
            }
        },
        Some(sig) => {
            let n = sig.inputs.len();
            if n == 0 {
                if mode == SplitMode::OnlyArgs {
                    Err(Error::Abi(AbiFailure::NoConstructorArgs))
                } else {
                    Ok(bytecode)
                }
            } else if n > bytecode.len() / 32 {
                proof {
                    lemma_window_fit(bytecode@.len() as int, n as int);
                }
                Err(Error::MalformedBytecode)
            } else {
                proof {
                    lemma_window_fit(bytecode@.len() as int, n as int);
                }
                let args: usize = 32 * n;
                let cut: usize = bytecode.len() - args;
                if mode == SplitMode::WithoutArgs {
                    Ok(sub_bytes(&bytecode, 0, cut))
                } else {
                    Ok(sub_bytes(&bytecode, cut, bytecode.len()))
                }
            }
        },
    }
}

/// The window of `n` words fits in `len` bytes exactly when `n` is at most
/// `len / 32`.
proof fn lemma_window_fit(len: int, n: int)
    requires
        len >= 0,
        n >= 1,
    ensures
        n <= len / 32 <==> 32 * n <= len,
{
    assert(n <= len / 32 <==> 32 * n <= len) by (nonlinear_arith)
        requires
            len >= 0,
            n >= 1,
    ;
}

/// The two slicing modes cut the same bytecode at the same point, so the
/// head that `WithoutArgs` keeps and the tail that `OnlyArgs` keeps
/// partition the original bytes: the tail is exactly one word per
/// parameter, the lengths sum to the original length, and head followed by
/// tail is the original bytecode.
pub proof fn lemma_split_partition(bytecode: Seq<u8>, candidates: Seq<AbiRecord>)
    requires
        candidates.len() > 0,
        candidates[0].constructor is Some,
        candidates[0].constructor.unwrap().inputs@.len() > 0,
        args_size(candidates[0].constructor.unwrap()) <= bytecode.len(),
    ensures
        split_outcome(bytecode, SplitMode::WithoutArgs, candidates) matches Ok(head)
            && split_outcome(bytecode, SplitMode::OnlyArgs, candidates) matches Ok(tail)
            && tail.len() == args_size(candidates[0].constructor.unwrap())
            && head.len() + tail.len() == bytecode.len()
            && head + tail == bytecode,
{
    let sig = candidates[0].constructor.unwrap();
    let cut = bytecode.len() - args_size(sig);
    assert(bytecode.take(cut) + bytecode.skip(cut) =~= bytecode);
}

} // verus!
