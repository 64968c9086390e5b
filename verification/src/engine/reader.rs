//! What the file reader decides about a file: whether its size is read at
//! all, whether it is mapped, and whether its bytes are text.
use vstd::prelude::*;

use crate::engine::scanner::first_of;
use crate::engine::scanner::index_view;
use crate::engine::scanner::lemma_first_of;
use crate::engine::scanner::memchr_first;

verus! {

/// Length of the window searched for a NUL byte.
pub const BINARY_CHECK_LEN: usize = 8192;

/// Files of at least this size are memory-mapped rather than read.
pub const MMAP_THRESHOLD: u64 = 65536;

/// Files larger than this are not read at all.
pub const MAX_FILE_SIZE: u64 = 536870912;

/// Whether a file of `size` bytes is read: it is neither empty nor too large.
pub fn size_accepted(size: u64) -> (r: bool)
    ensures
        r == (0 < size && size <= MAX_FILE_SIZE),
{
    0 < size && size <= MAX_FILE_SIZE
}

/// Whether a file of `size` bytes is memory-mapped.
pub fn use_mmap(size: u64) -> (r: bool)
    ensures
        r == (size >= MMAP_THRESHOLD),
{
    size >= MMAP_THRESHOLD
}

/// The bytes are binary: a NUL byte occurs among the first `BINARY_CHECK_LEN`.
pub open spec fn binary_spec(content: Seq<u8>) -> bool {
    let n = if content.len() < BINARY_CHECK_LEN {
        content.len() as int
    } else {
        BINARY_CHECK_LEN as int
    };
    first_of(content.take(n), seq![0u8]) is Some
}

/// Whether the bytes read from a file are binary, and so not counted.
pub fn looks_binary(content: &[u8]) -> (r: bool)
    ensures
        r == binary_spec(content@),
{
    let n = if content.len() < BINARY_CHECK_LEN {
        content.len()
    } else {
        BINARY_CHECK_LEN
    };
    let window = vstd::slice::slice_subrange(content, 0, n);
    assert(window@ =~= content@.take(n as int));
    let found = memchr_first(0u8, window);
    proof {
        lemma_first_of(window@, seq![0u8]);
    }
    found.is_some()
}

} // verus!
