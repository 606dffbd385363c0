//! From the answer of a "get slave name" device-control request to a result.
//!
//! Where the system has no reentrant slave-name query, the name is asked for
//! with a device-control request on the master's descriptor. The request
//! fills a name buffer and returns a status, zero for success. The caller
//! makes the request; everything after it is decided here.

use vstd::prelude::*;
use vstd::slice::slice_subrange;
use vstd::utf8::{decode_utf8, valid_utf8};
use crate::buffer::{lemma_name_bytes, lemma_name_ignores_tail, lemma_name_len, name_bytes,
    name_len, name_length};
use crate::error::{last_os_error, OsError};
use crate::text::{ascii_text, decode_lossy, is_ascii_bytes, lemma_ascii_is_utf8,
    lemma_utf8_keeps_nul_out, reads_as};

verus! {

/// Reads the slave name out of a filled name buffer.
///
/// The name is cut at the first zero byte and decoded permissively into a
/// string of its own. A buffer without a zero byte is taken whole.
pub fn decode_slave_name(buf: &[u8]) -> (name: String)
    ensures
        reads_as(name_bytes(buf@), name@),
{
    let n = name_length(buf);
    let bytes = slice_subrange(buf, 0, n);
    decode_lossy(bytes)
}

/// Decides the result of a request from what it left behind.
///
/// `status` is what the request returned, `buf` the name buffer it was given,
/// and `last_error` the thread's error number read after the request. A
/// status of zero is success, whatever the buffer holds; any other status is
/// failure with `last_error`, whatever the buffer holds.
pub fn interpret_reply(status: i32, buf: &[u8], last_error: i32) -> (r: Result<String, OsError>)
    ensures
        status == 0 ==> (r matches Ok(name) && reads_as(name_bytes(buf@), name@)),
        status != 0 ==> r == Err::<String, OsError>(OsError { code: last_error }),
{
    if status == 0 {
        Ok(decode_slave_name(buf))
    } else {
        Err(OsError::from_raw(last_error))
    }
}

/// Finishes a request: like [`interpret_reply`], with the error number read
/// from the system, and only once the request is known to have failed.
///
/// Call it right after the request, on the thread that made it, so that the
/// error number is still the request's.
pub fn complete_request(status: i32, buf: &[u8]) -> (r: Result<String, OsError>)
    ensures
        status == 0 ==> (r matches Ok(name) && reads_as(name_bytes(buf@), name@)),
        status != 0 ==> r is Err,
{
    if status == 0 {
        interpret_reply(status, buf, 0)
    } else {
        let code = last_os_error();
        interpret_reply(status, buf, code)
    }
}

/// Reading one buffer twice gives the same text both times.
pub proof fn lemma_same_buffer_same_name(buf: Seq<u8>, first: Seq<char>, second: Seq<char>)
    requires
        reads_as(name_bytes(buf), first),
        reads_as(name_bytes(buf), second),
    ensures
        first == second,
{
}

/// A buffer that starts with a byte of a name gives a name that is not empty.
pub proof fn lemma_name_not_empty(buf: Seq<u8>, name: Seq<char>)
    requires
        reads_as(name_bytes(buf), name),
        buf.len() > 0,
        buf[0] != 0,
    ensures
        name.len() > 0,
{
    lemma_name_len(buf);
    if name_len(buf) == 0 {
        assert(buf[0] == 0);
    }
}

/// What the buffer holds after the terminator does not reach the name: a
/// buffer that agrees with `buf` up to and including the terminator reads as
/// the same text.
pub proof fn lemma_tail_ignored(buf: Seq<u8>, other: Seq<u8>, name: Seq<char>)
    requires
        reads_as(name_bytes(buf), name),
        name_len(buf) < buf.len(),
        name_len(buf) < other.len(),
        forall|i: int| 0 <= i <= name_len(buf) ==> buf[i] == other[i],
    ensures
        reads_as(name_bytes(other), name),
{
    lemma_name_ignores_tail(buf, other);
}

/// A name of well-formed UTF-8 comes out as the characters it encodes, and
/// without a NUL character among them.
pub proof fn lemma_wellformed_name_exact(buf: Seq<u8>, name: Seq<char>)
    requires
        reads_as(name_bytes(buf), name),
        valid_utf8(name_bytes(buf)),
    ensures
        name == decode_utf8(name_bytes(buf)),
        !name.contains('\0'),
{
    lemma_name_bytes(buf);
    lemma_utf8_keeps_nul_out(name_bytes(buf));
}

/// A name of ASCII bytes comes out byte for byte: one character for each
/// byte, and as many characters as the name had bytes in the buffer.
pub proof fn lemma_ascii_name_verbatim(buf: Seq<u8>, name: Seq<char>)
    requires
        reads_as(name_bytes(buf), name),
        is_ascii_bytes(name_bytes(buf)),
    ensures
        name == ascii_text(name_bytes(buf)),
        name.len() == name_len(buf),
{
    lemma_ascii_is_utf8(name_bytes(buf));
    lemma_name_bytes(buf);
}

} // verus!
