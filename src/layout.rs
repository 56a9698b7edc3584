use vstd::prelude::*;

verus! {

/// Buffer-to-texture copies need every row to start on a multiple of this many bytes.
pub const ROW_ALIGNMENT: u32 = 256;

/// `n` rounded up to the next multiple of the row alignment.
pub open spec fn spec_round_up(n: int) -> int {
    ((n + 255) / 256) * 256
}

/// Row stride of the staging buffer, `(width * bytes_per_pixel + 255) & !255`;
/// `None` when that does not fit in 32 bits.
pub fn padded_row_bytes(width: u32, bytes_per_pixel: u32) -> (r: Option<u32>)
    ensures
        r.is_some() <==> width * bytes_per_pixel + 255 <= u32::MAX,
        r matches Some(p) ==> p == spec_round_up(width * bytes_per_pixel) && p % 256 == 0
            && width * bytes_per_pixel <= p < width * bytes_per_pixel + 256,
{
    let row = unpadded_row_bytes(width, bytes_per_pixel);
    match row {
        None => None,
        Some(n) => {
            if n > u32::MAX - 255 {
                None
            } else {
                let m: u32 = n + 255;
                let p: u32 = m & !255u32;
                assert(p == (m / 256) * 256) by (bit_vector)
                    requires
                        p == m & !255u32,
                ;
                Some(p)
            }
        },
    }
}

/// Bytes of one tightly packed row, `width * bytes_per_pixel`; `None` on overflow.
pub fn unpadded_row_bytes(width: u32, bytes_per_pixel: u32) -> (r: Option<u32>)
    ensures
        r.is_some() <==> width * bytes_per_pixel <= u32::MAX,
        r matches Some(n) ==> n == width * bytes_per_pixel,
{
    width.checked_mul(bytes_per_pixel)
}

/// Size in bytes of a staging buffer holding `height` rows of `padded` bytes.
pub fn staging_size(height: u32, padded: u32) -> (r: u64)
    ensures
        r == height * padded,
{
    assert(height * padded <= u32::MAX * u32::MAX) by (nonlinear_arith);
    (height as u64) * (padded as u64)
}

/// Copies the first `unpadded` bytes of each of `height` rows of `padded` bytes in
/// `mapped` into consecutive rows of `out`.
pub fn depad_rows(mapped: &[u8], out: &mut Vec<u8>, height: u32, unpadded: u32, padded: u32)
    requires
        unpadded <= padded,
        mapped@.len() == height * padded,
        old(out)@.len() == height * unpadded,
    ensures
        final(out)@.len() == old(out)@.len(),
        forall|r: int, c: int|
            0 <= r < height && 0 <= c < unpadded ==> #[trigger] final(out)@[r * unpadded + c]
                == mapped@[r * padded + c],
{
    let mapped_len: usize = mapped.len();
    let out_len: usize = out.len();
    let mut row: u32 = 0;
    let mut src: usize = 0;
    let mut dst: usize = 0;
    while row < height
        invariant
            unpadded <= padded,
            mapped@.len() == height * padded,
            out@.len() == height * unpadded,
            mapped@.len() == mapped_len,
            out@.len() == out_len,
            row <= height,
            src == row * padded,
            dst == row * unpadded,
            forall|r: int, c: int|
                0 <= r < row && 0 <= c < unpadded ==> #[trigger] out@[r * unpadded + c]
                    == mapped@[r * padded + c],
        decreases height - row,
    {
        proof {
            assert((row + 1) * padded <= height * padded) by (nonlinear_arith)
                requires
                    row < height,
            ;
            assert((row + 1) * unpadded <= height * unpadded) by (nonlinear_arith)
                requires
                    row < height,
            ;
            assert((row + 1) * padded == row * padded + padded) by (nonlinear_arith);
            assert((row + 1) * unpadded == row * unpadded + unpadded) by (nonlinear_arith);
        }
        let mut col: usize = 0;
        while col < unpadded as usize
            invariant
                unpadded <= padded,
                mapped@.len() == height * padded,
                out@.len() == height * unpadded,
                mapped@.len() == mapped_len,
                out@.len() == out_len,
                row < height,
                src == row * padded,
                dst == row * unpadded,
                src + padded <= mapped@.len(),
                dst + unpadded <= out@.len(),
                col <= unpadded,
                forall|r: int, c: int|
                    0 <= r < row && 0 <= c < unpadded ==> #[trigger] out@[r * unpadded + c]
                        == mapped@[r * padded + c],
                forall|c: int| 0 <= c < col ==> #[trigger] out@[dst + c] == mapped@[src + c],
            decreases unpadded - col,
        {
            let ghost before = out@;
            out.set(dst + col, mapped[src + col]);
            proof {
                assert forall|r: int, c: int|
                    0 <= r < row && 0 <= c < unpadded implies #[trigger] out@[r * unpadded + c]
                        == mapped@[r * padded + c] by {
                    assert(r * unpadded + c < dst) by (nonlinear_arith)
                        requires
                            0 <= r < row,
                            0 <= c < unpadded,
                            dst == row * unpadded,
                    ;
                    assert(out@[r * unpadded + c] == before[r * unpadded + c]);
                }
            }
            col = col + 1;
        }
        proof {
            assert forall|r: int, c: int|
                0 <= r < row + 1 && 0 <= c < unpadded implies #[trigger] out@[r * unpadded + c]
                    == mapped@[r * padded + c] by {
                if r == row {
                    assert(out@[dst + c] == mapped@[src + c]);
                }
            }
        }
        src = src + padded as usize;
        dst = dst + unpadded as usize;
        row = row + 1;
    }
}

} // verus!
