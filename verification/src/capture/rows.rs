//! Pictures whose rows are padded.

use crate::bytes;
use vstd::prelude::*;

verus! {

/// The first `row_bytes` bytes of each of the first `rows` rows, where a row
/// begins every `stride` bytes.
pub open spec fn packed(frame: Seq<u8>, stride: nat, row_bytes: nat, rows: nat) -> Seq<u8>
    decreases rows,
{
    if rows == 0 {
        Seq::empty()
    } else {
        let at = (rows - 1) * stride;
        packed(frame, stride, row_bytes, (rows - 1) as nat) + frame.subrange(
            at as int,
            (at + row_bytes) as int,
        )
    }
}

/// The rows lie in the frame.
pub open spec fn rows_fit(len: nat, stride: nat, row_bytes: nat, rows: nat) -> bool {
    rows > 0 ==> (rows - 1) * stride + row_bytes <= len
}

/// A picture without padding has `rows` times `row_bytes` bytes, and its byte
/// `x` of row `y` is byte `x` of row `y` of the padded one.
pub proof fn law_packed_keeps_pixels(
    frame: Seq<u8>,
    stride: nat,
    row_bytes: nat,
    rows: nat,
    x: int,
    y: int,
)
    requires
        rows_fit(frame.len(), stride, row_bytes, rows),
    ensures
        packed(frame, stride, row_bytes, rows).len() == rows * row_bytes,
        0 <= x < row_bytes && 0 <= y < rows ==> {
            &&& 0 <= y * row_bytes + x < rows * row_bytes
            &&& packed(frame, stride, row_bytes, rows)[y * row_bytes + x] == frame[y * stride + x]
        },
    decreases rows,
{
    if rows == 0 {
        assert(rows * row_bytes == 0) by (nonlinear_arith)
            requires
                rows == 0,
        ;
    }
    if rows > 0 {
        let before = (rows - 1) as nat;
        if before > 0 {
            assert((before - 1) * stride + row_bytes <= frame.len()) by (nonlinear_arith)
                requires
                    before * stride + row_bytes <= frame.len(),
                    before > 0,
            ;
        }
        law_packed_keeps_pixels(frame, stride, row_bytes, before, x, y);
        assert(before * row_bytes + row_bytes == rows * row_bytes) by (nonlinear_arith)
            requires
                before == rows - 1,
        ;
        assert(before * stride >= 0) by (nonlinear_arith)
            requires
                before >= 0,
                stride >= 0,
        ;
        if 0 <= x < row_bytes && 0 <= y < rows {
            if y < before {
                assert(y * row_bytes + x < before * row_bytes) by (nonlinear_arith)
                    requires
                        0 <= y,
                        y <= before - 1,
                        0 <= x < row_bytes,
                ;
                assert(y * row_bytes >= 0) by (nonlinear_arith)
                    requires
                        0 <= y,
                        row_bytes >= 0,
                ;
            } else {
                assert(y == before);
                assert(before * row_bytes >= 0) by (nonlinear_arith)
                    requires
                        0 <= before,
                        row_bytes >= 0,
                ;
            }
        }
    }
}

/// The rows of a padded picture, one after the other.
pub fn pack_rows(frame: &[u8], stride: usize, row_bytes: usize, rows: usize) -> (out: Vec<u8>)
    requires
        rows_fit(frame@.len(), stride as nat, row_bytes as nat, rows as nat),
    ensures
        out@ == packed(frame@, stride as nat, row_bytes as nat, rows as nat),
{
    let mut out: Vec<u8> = Vec::new();
    let mut y: usize = 0;
    let mut at: usize = 0;
    let total: usize = frame.len();
    assert(0 * stride == 0);
    while y < rows
        invariant
            y <= rows,
            y < rows ==> at == y * stride,
            rows_fit(frame@.len(), stride as nat, row_bytes as nat, rows as nat),
            total == frame@.len(),
            out@ == packed(frame@, stride as nat, row_bytes as nat, y as nat),
        decreases rows - y,
    {
        proof {
            lemma_row_inside(frame@.len(), stride as nat, row_bytes as nat, rows as nat, y as nat);
        }
        bytes::append(&mut out, vstd::slice::slice_subrange(frame, at, at + row_bytes));
        y += 1;
        assert(out@ == packed(frame@, stride as nat, row_bytes as nat, y as nat));
        if y < rows {
            proof {
                lemma_row_inside(
                    frame@.len(),
                    stride as nat,
                    row_bytes as nat,
                    rows as nat,
                    y as nat,
                );
                assert((y - 1) * stride + stride == y * stride) by (nonlinear_arith);
            }
            at = at + stride;
        }
    }
    out
}

/// Each row lies in the frame when the last one does.
pub proof fn lemma_row_inside(len: nat, stride: nat, row_bytes: nat, rows: nat, y: nat)
    requires
        rows_fit(len, stride, row_bytes, rows),
        y < rows,
    ensures
        0 <= y * stride,
        y * stride + row_bytes <= len,
{
    assert(y * stride <= (rows - 1) * stride) by (nonlinear_arith)
        requires
            y <= rows - 1,
            stride >= 0,
    ;
    assert(0 <= y * stride) by (nonlinear_arith)
        requires
            y >= 0,
            stride >= 0,
    ;
}

/// Packing the rows of a picture keeps every byte of every row in its place and drops the
/// rest.
pub proof fn law_rows_are_packed(
    frame: &[u8],
    stride: usize,
    row_bytes: usize,
    rows: usize,
    out: Vec<u8>,
    x: int,
    y: int,
)
    requires
        rows_fit(frame@.len(), stride as nat, row_bytes as nat, rows as nat),
        call_ensures(pack_rows, (frame, stride, row_bytes, rows), out),
        0 <= x < row_bytes,
        0 <= y < rows,
    ensures
        out@.len() == rows * row_bytes,
        out@[y * row_bytes + x] == frame@[y * stride + x],
{
    law_packed_keeps_pixels(frame@, stride as nat, row_bytes as nat, rows as nat, x, y);
}

} // verus!
