use vstd::prelude::*;

use crate::header::{consumed_len, headers_result};

verus! {

/// Decoding only reads its input: decoding the same bytes twice gives the
/// same records, or the same error.
pub proof fn decode_is_deterministic(b: Seq<u8>, c: Seq<u8>)
    requires
        b == c,
    ensures
        headers_result(b) == headers_result(c),
{
}

/// A successful decode reads exactly the header bytes and no more: the 18
/// bytes of the file header and size field, then the `dib_size - 4` bytes of
/// the DIB block. The bytes up to that point alone decode to the same
/// records, and bytes after it do not change them.
pub proof fn decode_reads_exactly_the_headers(b: Seq<u8>, extra: Seq<u8>)
    requires
        headers_result(b) is Ok,
    ensures
        consumed_len(b) <= b.len(),
        headers_result(b.subrange(0, consumed_len(b))) == headers_result(b),
        headers_result(b + extra) == headers_result(b),
{
    let p = b.subrange(0, consumed_len(b));
    let e = b + extra;
    assert(forall|i: int| 0 <= i < 18 ==> #[trigger] p[i] == b[i]);
    assert(forall|i: int| 0 <= i < b.len() ==> #[trigger] e[i] == b[i]);
    assert(forall|i: int| 0 <= i < consumed_len(b) - 18 ==> #[trigger] p.skip(18)[i] == b.skip(18)[i]);
    assert(forall|i: int| 0 <= i < b.len() - 18 ==> #[trigger] e.skip(18)[i] == b.skip(18)[i]);
}

} // verus!
