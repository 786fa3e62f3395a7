//! Transfer buffers: the zeroed destination that the engine fills, and the
//! cut that leaves only what the engine reported as written.

use vstd::prelude::*;

verus! {

/// The first `n` bytes of `buffer`, or all of it where it holds fewer.
pub open spec fn trimmed(buffer: Seq<u8>, n: int) -> Seq<u8>
    recommends
        0 <= n,
{
    if n <= buffer.len() {
        buffer.take(n)
    } else {
        buffer
    }
}

/// A trimmed buffer starts as the buffer does and is never longer than asked
/// for: where the buffer holds at least `n` bytes, exactly `n` are left.
pub proof fn lemma_trimmed_is_prefix(buffer: Seq<u8>, n: int)
    requires
        0 <= n,
    ensures
        trimmed(buffer, n).is_prefix_of(buffer),
        trimmed(buffer, n).len() <= n,
        n <= buffer.len() ==> trimmed(buffer, n).len() == n,
        n >= buffer.len() ==> trimmed(buffer, n) == buffer,
{
    if n <= buffer.len() {
        assert(buffer.take(n) =~= buffer.subrange(0, n));
    }
    assert(buffer.take(buffer.len() as int) =~= buffer);
}

/// A buffer of `capacity` zero bytes for the engine to write into.
pub fn zeroed(capacity: usize) -> (buffer: Vec<u8>)
    ensures
        buffer@ == Seq::new(capacity as nat, |i: int| 0u8),
{
    let buffer = vec![0u8; capacity];
    assert(buffer@ =~= Seq::new(capacity as nat, |i: int| 0u8));
    buffer
}

/// Cuts `buffer` down to the `n` bytes that the engine reported, so that
/// nothing behind them reaches the caller.
pub fn trim(buffer: Vec<u8>, n: usize) -> (out: Vec<u8>)
    ensures
        out@ == trimmed(buffer@, n as int),
        n > 0 ==> (out@.len() > 0 <==> buffer@.len() > 0),
{
    let mut out = buffer;
    out.truncate(n);
    out
}

} // verus!
