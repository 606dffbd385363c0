//! The name buffer of a "get slave name" request, read as a C string.
//!
//! The system writes the slave's name into a buffer of fixed size and ends it
//! with a zero byte. What follows that byte is whatever the buffer held
//! before, and is no part of the name.

use vstd::prelude::*;

verus! {

/// The size of a name buffer: the longest slave name the system hands out,
/// terminator included.
pub const SLAVE_NAME_MAX: usize = 128;

/// `n` is where the name in `buf` ends: no byte before `n` is zero, and `n`
/// is either the place of a zero byte or, where `buf` holds none, its length.
pub open spec fn name_ends_at(buf: Seq<u8>, n: int) -> bool {
    &&& 0 <= n <= buf.len()
    &&& forall|i: int| 0 <= i < n ==> buf[i] != 0
    &&& n < buf.len() ==> buf[n] == 0
}

/// The length of the name in `buf`: the index of its first zero byte, or the
/// length of `buf` where no byte is zero.
pub open spec fn name_len(buf: Seq<u8>) -> int {
    choose|n: int| name_ends_at(buf, n)
}

/// The bytes of the name in `buf`: everything before its first zero byte.
pub open spec fn name_bytes(buf: Seq<u8>) -> Seq<u8> {
    buf.take(name_len(buf))
}

/// A name that has no zero byte among its first `i` bytes ends somewhere.
proof fn lemma_name_ends_from(buf: Seq<u8>, i: int)
    requires
        0 <= i <= buf.len(),
        forall|j: int| 0 <= j < i ==> buf[j] != 0,
    ensures
        exists|n: int| name_ends_at(buf, n),
    decreases buf.len() - i,
{
    if i < buf.len() && buf[i] != 0 {
        lemma_name_ends_from(buf, i + 1);
    } else {
        assert(name_ends_at(buf, i));
    }
}

/// Every buffer holds exactly one name: `name_len` is the one place where it
/// ends.
pub proof fn lemma_name_len(buf: Seq<u8>)
    ensures
        name_ends_at(buf, name_len(buf)),
        forall|n: int| name_ends_at(buf, n) ==> n == name_len(buf),
{
    lemma_name_ends_from(buf, 0);
    let m = name_len(buf);
    assert forall|n: int| name_ends_at(buf, n) implies n == m by {
        if n < m {
            assert(buf[n] == 0);
        } else if m < n {
            assert(buf[m] == 0);
        }
    }
}

/// The name holds no zero byte, is a prefix of the buffer, and is the whole
/// buffer exactly where the buffer holds no zero byte.
pub proof fn lemma_name_bytes(buf: Seq<u8>)
    ensures
        name_bytes(buf).len() == name_len(buf),
        name_bytes(buf).is_prefix_of(buf),
        !name_bytes(buf).contains(0u8),
        name_bytes(buf) == buf <==> !buf.contains(0u8),
{
    lemma_name_len(buf);
    let n = name_len(buf);
    if n < buf.len() {
        assert(buf[n] == 0u8);
    } else {
        assert(name_bytes(buf) =~= buf);
    }
}

/// Bytes after the terminator never reach the name: two buffers that agree up
/// to and including the first zero byte of one of them hold the same name.
pub proof fn lemma_name_ignores_tail(a: Seq<u8>, b: Seq<u8>)
    requires
        name_len(a) < a.len(),
        name_len(a) < b.len(),
        forall|i: int| 0 <= i <= name_len(a) ==> a[i] == b[i],
    ensures
        name_len(b) == name_len(a),
        name_bytes(b) == name_bytes(a),
{
    lemma_name_len(a);
    lemma_name_len(b);
    assert(name_ends_at(b, name_len(a)));
    assert(name_bytes(b) =~= name_bytes(a));
}

/// Finds where the name in `buf` ends.
pub fn name_length(buf: &[u8]) -> (n: usize)
    ensures
        n == name_len(buf@),
        name_ends_at(buf@, n as int),
{
    let mut i: usize = 0;
    while i < buf.len() && buf[i] != 0
        invariant
            i <= buf.len(),
            forall|j: int| 0 <= j < i ==> buf@[j] != 0,
        decreases buf.len() - i,
    {
        i += 1;
    }
    proof {
        lemma_name_len(buf@);
    }
    i
}

/// A buffer for one request: `SLAVE_NAME_MAX` zero bytes, so that it holds the
/// empty name until the system writes into it.
pub fn fresh_buffer() -> (buf: [u8; SLAVE_NAME_MAX])
    ensures
        buf@.len() == SLAVE_NAME_MAX,
        forall|i: int| 0 <= i < buf@.len() ==> buf@[i] == 0,
        name_len(buf@) == 0,
{
    let buf = [0u8; SLAVE_NAME_MAX];
    proof {
        lemma_name_len(buf@);
        assert(name_ends_at(buf@, 0));
    }
    buf
}

} // verus!
