use vstd::prelude::*;
use vstd::bytes::{lemma_auto_spec_u64_to_from_le_bytes, spec_u64_from_le_bytes, spec_u64_to_le_bytes, u64_from_le_bytes, u64_to_le_bytes};
use vstd::slice::slice_subrange;

use crate::ident::{identifier, IdModel, Identifier};

verus! {

/// The Fibonacci numbers: 0, 1, 1, 2, 3, 5, ...
pub open spec fn fib(n: nat) -> nat
    decreases n,
{
    if n == 0 {
        0
    } else if n == 1 {
        1
    } else {
        fib((n - 2) as nat) + fib((n - 1) as nat)
    }
}

/// The Fibonacci numbers never decrease.
pub proof fn lemma_fib_monotone(j: nat, k: nat)
    requires
        j <= k,
    ensures
        fib(j) <= fib(k),
    decreases k - j,
{
    if j < k {
        lemma_fib_monotone(j, (k - 1) as nat);
        if k >= 2 {
            assert(fib(k) == fib((k - 2) as nat) + fib((k - 1) as nat));
        }
    }
}

/// Whether the Fibonacci number of `n` fits in a `u64`.
pub fn fib_fits(n: u64) -> (r: bool)
    ensures
        r == (fib(n as nat) <= u64::MAX),
{
    let mut a: u64 = 0;
    let mut b: u64 = 1;
    let mut i: u64 = 0;
    proof {
        reveal_with_fuel(fib, 2);
    }
    while i < n
        invariant
            i <= n,
            a == fib(i as nat),
            b == fib(i as nat + 1),
        decreases n - i,
    {
        proof {
            assert(fib(i as nat + 2) == fib(i as nat) + fib(i as nat + 1));
        }
        match b.checked_add(a) {
            Some(c) => {
                a = b;
                b = c;
                i = i + 1;
            },
            None => {
                if i + 1 < n {
                    proof {
                        lemma_fib_monotone(i as nat + 2, n as nat);
                    }
                    return false;
                }
                return true;
            },
        }
    }
    true
}

/// Why a byte string could not be read back as a task.
#[derive(Debug, Clone, Copy, PartialEq, Eq, Structural)]
pub enum DecodeError {
    /// The bytes are not one encoded task: their count is wrong.
    WrongLength,
}

/// The Fibonacci task: computes `fib(iter)` into `result`.
#[derive(Debug, Clone, Copy, PartialEq, Eq, Structural)]
pub struct FibTask {
    pub iter: u64,
    pub result: u64,
}

/// The bytes of a task: `iter`, then `result`, each as eight little-endian
/// bytes.
pub open spec fn task_bytes(t: FibTask) -> Seq<u8> {
    spec_u64_to_le_bytes(t.iter) + spec_u64_to_le_bytes(t.result)
}

/// The task that sixteen bytes stand for.
pub open spec fn task_of_bytes(b: Seq<u8>) -> FibTask {
    FibTask {
        iter: spec_u64_from_le_bytes(b.subrange(0, 8)),
        result: spec_u64_from_le_bytes(b.subrange(8, 16)),
    }
}

/// The number of bytes of an encoded task.
pub const TASK_BYTES: usize = 16;

/// The identifier of a Fibonacci task: ("engine_core", "fib"), whatever its
/// fields hold.
pub open spec fn task_id(t: FibTask) -> IdModel {
    ("engine_core"@, "fib"@)
}

/// Writing a task as bytes and reading it back gives the same task.
pub proof fn lemma_round_trip(t: FibTask)
    ensures
        task_bytes(t).len() == TASK_BYTES,
        task_of_bytes(task_bytes(t)) == t,
{
    lemma_auto_spec_u64_to_from_le_bytes();
    let b = task_bytes(t);
    assert(b.subrange(0, 8) =~= spec_u64_to_le_bytes(t.iter));
    assert(b.subrange(8, 16) =~= spec_u64_to_le_bytes(t.result));
}

/// A task keeps its identifier through a copy and through a trip to bytes
/// and back.
pub proof fn lemma_id_stable(t: FibTask, copy: FibTask)
    requires
        copy == t,
    ensures
        task_id(copy) == task_id(t),
        task_id(task_of_bytes(task_bytes(t))) == task_id(t),
{
    lemma_round_trip(t);
}

impl FibTask {
    /// A task template: no iterations asked for, no result yet.
    pub fn new() -> (r: FibTask)
        ensures
            r.iter == 0,
            r.result == 0,
    {
        FibTask { iter: 0, result: 0 }
    }

    /// The identifier that a Fibonacci task is registered under.
    pub fn get_id(&self) -> (r: Identifier)
        ensures
            r@ == task_id(*self),
    {
        identifier("engine_core", "fib")
    }

    /// An independent copy, sharing nothing with `self`.
    pub fn clone_box(&self) -> (r: FibTask)
        ensures
            r == *self,
    {
        FibTask { iter: self.iter, result: self.result }
    }

    /// Computes the Fibonacci number of `iter` into `result`, with two
    /// accumulators.
    pub fn run_cpu(&mut self)
        requires
            fib(old(self).iter as nat) <= u64::MAX,
        ensures
            final(self).iter == old(self).iter,
            final(self).result == fib(old(self).iter as nat),
    {
        let n = self.iter;
        let mut a: u64 = 0;
        let mut b: u64 = 1;
        let mut i: u64 = 0;
        proof {
            reveal_with_fuel(fib, 2);
        }
        while i < n
            invariant
                i <= n,
                fib(n as nat) <= u64::MAX,
                a == fib(i as nat),
                i < n ==> b == fib(i as nat + 1),
            decreases n - i,
        {
            let tmp = a;
            a = b;
            i = i + 1;
            if i < n {
                proof {
                    assert(fib(i as nat + 1) == fib((i - 1) as nat) + fib(i as nat));
                    lemma_fib_monotone(i as nat + 1, n as nat);
                }
                b = b + tmp;
            }
        }
        self.result = a;
    }

    /// The task's fields as bytes.
    pub fn to_bytes(&self) -> (r: Vec<u8>)
        ensures
            r@ == task_bytes(*self),
    {
        let mut r = u64_to_le_bytes(self.iter);
        let mut tail = u64_to_le_bytes(self.result);
        r.append(&mut tail);
        r
    }

    /// Reads a task back from bytes that `to_bytes` wrote.
    pub fn from_bytes(&self, bytes: &[u8]) -> (r: Result<FibTask, DecodeError>)
        ensures
            bytes@.len() == TASK_BYTES ==> r == Ok::<FibTask, DecodeError>(
                task_of_bytes(bytes@),
            ),
            bytes@.len() != TASK_BYTES ==> r == Err::<FibTask, DecodeError>(
                DecodeError::WrongLength,
            ),
    {
        if bytes.len() != TASK_BYTES {
            return Err(DecodeError::WrongLength);
        }
        let lo = slice_subrange(bytes, 0, 8);
        let hi = slice_subrange(bytes, 8, 16);
        Ok(FibTask { iter: u64_from_le_bytes(lo), result: u64_from_le_bytes(hi) })
    }
}

} // verus!
