//! Layout of GPU readback buffers: rows are padded to the device's copy
//! alignment, and the padding is stripped to give a tight RGBA raster.

use vstd::prelude::*;
use vstd::arithmetic::div_mod::lemma_fundamental_div_mod_converse;

verus! {

/// `n` rounded up to a multiple of `alignment`.
pub open spec fn round_up(n: int, alignment: int) -> int {
    ((n + alignment - 1) / alignment) * alignment
}

/// Bytes per padded row of a readback of a `width`-pixel RGBA row, or `None`
/// when that does not fit in `u32`.
pub fn padded_bytes_per_row(width: u32, alignment: u32) -> (r: Option<u32>)
    requires
        alignment > 0,
    ensures
        r is Some <==> round_up(4 * width as int, alignment as int) <= u32::MAX,
        r matches Some(p) ==> p as int == round_up(4 * width as int, alignment as int),
{
    let n: u64 = 4 * width as u64;
    let a: u64 = alignment as u64;
    let q: u64 = (n + a - 1) / a;
    proof {
        assert((q as int) * (a as int) <= (n as int) + (a as int)) by (nonlinear_arith)
            requires q as int == ((n as int) + (a as int) - 1) / (a as int), a > 0, n >= 0;
    }
    let p: u64 = q * a;
    if p <= u32::MAX as u64 {
        Some(p as u32)
    } else {
        None
    }
}

/// The tight bytes of `rows` rows of `row_bytes` bytes, read from a buffer
/// whose rows start every `padded` bytes.
pub open spec fn unpadded(mapped: Seq<u8>, row_bytes: int, padded: int, rows: int) -> Seq<u8> {
    Seq::new(
        (row_bytes * rows) as nat,
        |k: int| mapped[(k / row_bytes) * padded + k % row_bytes],
    )
}

proof fn lemma_row_index(row: int, col: int, row_bytes: int)
    requires
        0 <= row,
        0 <= col < row_bytes,
    ensures
        (row * row_bytes + col) / row_bytes == row,
        (row * row_bytes + col) % row_bytes == col,
{
    lemma_fundamental_div_mod_converse(row * row_bytes + col, row_bytes, row, col);
}

/// Strips the row padding of a readback buffer.
pub fn strip_row_padding(mapped: &[u8], row_bytes: usize, padded: usize, rows: usize) -> (r: Vec<u8>)
    requires
        row_bytes <= padded,
        padded * rows <= mapped@.len(),
    ensures
        r@ == unpadded(mapped@, row_bytes as int, padded as int, rows as int),
{
    let ghost expect = unpadded(mapped@, row_bytes as int, padded as int, rows as int);
    let len: usize = mapped.len();
    let mut out: Vec<u8> = Vec::new();
    let mut row: usize = 0;
    proof {
        assert(0 * (row_bytes as int) == 0) by (nonlinear_arith);
    }
    while row < rows
        invariant
            row_bytes <= padded,
            padded * rows <= mapped@.len(),
            len == mapped@.len(),
            expect == unpadded(mapped@, row_bytes as int, padded as int, rows as int),
            row <= rows,
            out@.len() == (row as int) * (row_bytes as int),
            forall|k: int| 0 <= k < out@.len() ==> out@[k] == #[trigger] expect[k],
        decreases rows - row,
    {
        proof {
            assert((row as int) * (padded as int) + (padded as int) <= (padded as int) * (rows as int)) by (nonlinear_arith)
                requires row < rows;
            assert((row as int) * (row_bytes as int) + (row_bytes as int) <= (row_bytes as int) * (rows as int)) by (nonlinear_arith)
                requires row < rows;
        }
        let start: usize = row * padded;
        let mut col: usize = 0;
        while col < row_bytes
            invariant
                row_bytes <= padded,
                padded * rows <= mapped@.len(),
                len == mapped@.len(),
                expect == unpadded(mapped@, row_bytes as int, padded as int, rows as int),
                row < rows,
                start == (row as int) * (padded as int),
                start + padded <= mapped@.len(),
                (row as int) * (row_bytes as int) + (row_bytes as int) <= (row_bytes as int) * (rows as int),
                col <= row_bytes,
                out@.len() == (row as int) * (row_bytes as int) + col,
                forall|k: int| 0 <= k < out@.len() ==> out@[k] == #[trigger] expect[k],
            decreases row_bytes - col,
        {
            proof {
                lemma_row_index(row as int, col as int, row_bytes as int);
                let k = (row as int) * (row_bytes as int) + col;
                assert(expect[k] == mapped@[start + col]);
            }
            out.push(mapped[start + col]);
            col = col + 1;
        }
        row = row + 1;
        proof {
            assert(((row - 1) as int) * (row_bytes as int) + (row_bytes as int) == (row as int) * (row_bytes as int)) by (nonlinear_arith);
        }
    }
    proof {
        assert(expect.len() == (rows as int) * (row_bytes as int)) by (nonlinear_arith)
            requires expect.len() == ((row_bytes as int) * (rows as int)) as nat, row_bytes >= 0, rows >= 0;
        assert(out@ =~= expect);
    }
    out
}

} // verus!
