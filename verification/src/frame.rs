//! Host image frames: row geometry and the repacking of padded rows.

use vstd::arithmetic::div_mod::{
    lemma_fundamental_div_mod, lemma_fundamental_div_mod_converse, lemma_mod_bound,
};
use vstd::arithmetic::mul::{lemma_mul_inequality, lemma_mul_is_commutative};
use vstd::prelude::*;

verus! {

/// One image frame as a device hands it over.
#[derive(Debug, Clone, Copy)]
pub struct ImgFrame<'a> {
    /// Pixels per row.
    pub width: u32,
    /// Number of rows.
    pub height: u32,
    /// Bytes from the start of a row to the start of the next; 0 means that rows are tight.
    pub stride: u32,
    /// Capture time on the host's steady clock, in nanoseconds.
    pub timestamp_ns: i64,
    /// The pixel bytes.
    pub data: &'a [u8],
}

/// The distance between the starts of two rows: a stride of 0 stands for tight rows.
pub open spec fn pitch_of(row: int, stride: int) -> int {
    if stride == 0 {
        row
    } else {
        stride
    }
}

/// Whether `len` bytes hold `h` rows of `row` bytes that start `pitch` bytes apart. The
/// padding behind the last row need not be there.
pub open spec fn rows_fit(row: int, h: int, pitch: int, len: int) -> bool {
    &&& row > 0
    &&& h > 0
    &&& pitch >= row
    &&& (h - 1) * pitch + row <= len
}

/// The bytes of the rows without the padding between them.
pub open spec fn packed_rows(data: Seq<u8>, row: int, h: int, pitch: int) -> Seq<u8> {
    Seq::new((row * h) as nat, |i: int| data[(i / row) * pitch + i % row])
}

/// The little-endian number in two bytes.
pub open spec fn le16(lo: u8, hi: u8) -> u16 {
    (lo + 256 * hi) as u16
}

/// The little-endian 16-bit samples of rows of `dw` samples that start `pitch` bytes apart.
pub open spec fn packed_depth(data: Seq<u8>, dw: int, dh: int, pitch: int) -> Seq<u16> {
    Seq::new(
        (dw * dh) as nat,
        |i: int|
            le16(
                data[(i / dw) * pitch + 2 * (i % dw)],
                data[(i / dw) * pitch + 2 * (i % dw) + 1],
            ),
    )
}

/// The distance between row starts of a frame of `h` rows of `row` bytes, or `None` for a
/// malformed frame: one with no bytes, with rows that overlap, or with fewer than the bytes
/// of its rows.
pub fn row_pitch(row: usize, h: usize, stride: usize, len: usize) -> (r: Option<usize>)
    ensures
        r == (if rows_fit(row as int, h as int, pitch_of(row as int, stride as int), len as int) {
            Some(pitch_of(row as int, stride as int) as usize)
        } else {
            None
        }),
        r matches Some(pitch) ==> (stride == 0 ==> pitch == row) && (stride != 0 ==> pitch
            == stride),
        r is Some <==> row > 0 && h > 0 && (stride == 0 || stride >= row) && (if stride == 0 {
            (h - 1) * row + row <= len
        } else {
            (h - 1) * stride + row <= len
        }),
{
    let pitch: usize = if stride == 0 {
        row
    } else {
        stride
    };
    if row == 0 || h == 0 || pitch < row {
        return None;
    }
    match (h - 1).checked_mul(pitch) {
        Some(above) => if above <= len && row <= len - above {
            Some(pitch)
        } else {
            None
        },
        None => None,
    }
}

/// The number of pixels of an image fits 64 bits.
pub proof fn lemma_area(width: u32, height: u32)
    ensures
        0 <= width * height <= 0xffff_fffe_0000_0001,
{
    assert(0 <= width * height <= 0xffff_ffff * 0xffff_ffff) by (nonlinear_arith)
        requires
            0 <= width <= 0xffff_ffff,
            0 <= height <= 0xffff_ffff,
    ;
}

/// Every byte of a row that fits lies inside the data.
proof fn lemma_row_inside(row: int, h: int, pitch: int, len: int, y: int)
    requires
        rows_fit(row, h, pitch, len),
        0 <= y < h,
    ensures
        0 <= y * pitch,
        y * pitch + row <= (h - 1) * pitch + row,
        y * pitch + row <= len,
        0 < row * (y + 1) <= row * h,
{
    lemma_mul_inequality(y, h - 1, pitch);
    assert(0 <= y * pitch) by (nonlinear_arith)
        requires
            0 <= y,
            0 <= pitch,
    ;
    assert(0 < row * (y + 1) <= row * h) by (nonlinear_arith)
        requires
            0 < row,
            0 <= y < h,
    ;
}

/// The position `y * row + x` of a byte in packed rows tells its row and its column.
proof fn lemma_position(row: int, y: int, x: int)
    requires
        0 <= x < row,
        0 <= y,
    ensures
        (y * row + x) / row == y,
        (y * row + x) % row == x,
{
    lemma_fundamental_div_mod_converse(y * row + x, row, y, x);
}

/// The packed area of rows that fit is no larger than the data.
proof fn lemma_packed_fits(row: int, h: int, pitch: int, len: int)
    requires
        rows_fit(row, h, pitch, len),
    ensures
        0 < row * h <= len,
{
    assert(0 < row * h) by (nonlinear_arith)
        requires
            0 < row,
            0 < h,
    ;
    assert(row * h <= (h - 1) * pitch + row) by (nonlinear_arith)
        requires
            0 < row <= pitch,
            0 < h,
    ;
}

/// Tight rows are packed already.
pub proof fn law_tight_rows_are_packed(data: Seq<u8>, row: int, h: int)
    requires
        rows_fit(row, h, row, data.len() as int),
    ensures
        packed_rows(data, row, h, row) == data.take(row * h),
{
    lemma_packed_fits(row, h, row, data.len() as int);
    assert forall|i: int| 0 <= i < row * h implies #[trigger] packed_rows(data, row, h, row)[i]
        == data[i] by {
        lemma_fundamental_div_mod(i, row);
        lemma_mul_is_commutative(row, i / row);
    }
    assert(packed_rows(data, row, h, row) =~= data.take(row * h));
}

/// Copy `h` rows of `row` bytes out of a frame whose rows are `stride` bytes apart (0 means
/// tight) into one tightly packed buffer. `None` on a malformed frame.
pub fn repack_rows(data: &[u8], row: usize, h: usize, stride: usize) -> (r: Option<Vec<u8>>)
    ensures
        r is Some <==> rows_fit(
            row as int,
            h as int,
            pitch_of(row as int, stride as int),
            data@.len() as int,
        ),
        r matches Some(out) ==> out@ == packed_rows(
            data@,
            row as int,
            h as int,
            pitch_of(row as int, stride as int),
        ),
        r is Some <==> row > 0 && h > 0 && (stride == 0 || stride >= row) && (if stride == 0 {
            (h - 1) * row + row <= data@.len()
        } else {
            (h - 1) * stride + row <= data@.len()
        }),
        r matches Some(out) ==> out@.len() == row * h && forall|y: int, x: int|
            0 <= y < h && 0 <= x < row ==> #[trigger] out@[y * row + x] == (if stride == 0 {
                data@[y * row + x]
            } else {
                data@[y * stride + x]
            }),
{
    proof {
        law_rows_are_taken_by_their_stride(data@, row as int, h as int, stride as int);
    }
    let pitch: usize = match row_pitch(row, h, stride, data.len()) {
        Some(p) => p,
        None => return None,
    };
    proof {
        lemma_packed_fits(row as int, h as int, pitch as int, data@.len() as int);
    }
    let total: usize = row * h;
    let mut out: Vec<u8> = Vec::with_capacity(total);
    if pitch == row {
        out.extend_from_slice(vstd::slice::slice_subrange(data, 0, total));
        proof {
            law_tight_rows_are_packed(data@, row as int, h as int);
            assert(out@ =~= data@.take(total as int));
        }
        return Some(out);
    }
    let ghost packed = packed_rows(data@, row as int, h as int, pitch as int);
    let len: usize = data.len();
    let mut y: usize = 0;
    proof {
        assert(row * 0 == 0);
        assert(packed.take(0) =~= out@);
    }
    while y < h
        invariant
            y <= h,
            len == data@.len(),
            pitch >= row,
            rows_fit(row as int, h as int, pitch as int, data@.len() as int),
            packed == packed_rows(data@, row as int, h as int, pitch as int),
            0 <= row * y <= row * h,
            out@ == packed.take(row * y),
        decreases h - y,
    {
        proof {
            lemma_row_inside(row as int, h as int, pitch as int, data@.len() as int, y as int);
        }
        let begin: usize = y * pitch;
        let line: &[u8] = vstd::slice::slice_subrange(data, begin, begin + row);
        let ghost before = out@;
        out.extend_from_slice(line);
        proof {
            assert(row * (y + 1) == row * y + row) by (nonlinear_arith);
            assert(out@ =~= before + line@);
            assert forall|i: int| 0 <= i < row * (y + 1) implies #[trigger] out@[i] == packed[i] by {
                if i < row * y {
                    assert(before[i] == packed.take(row * y)[i]);
                } else {
                    let x = i - row * y;
                    lemma_mul_is_commutative(row as int, y as int);
                    lemma_position(row as int, y as int, x);
                    assert(out@[i] == line@[x]);
                }
            }
            assert(out@ =~= packed.take(row * (y + 1)));
        }
        y += 1;
    }
    proof {
        assert(packed.take(row * h) =~= packed);
    }
    Some(out)
}

/// Whether a depth frame holds all of its rows.
pub open spec fn depth_fits(dw: u32, dh: u32, stride: u32, len: int) -> bool {
    rows_fit(2 * dw, dh as int, pitch_of(2 * dw, stride as int), len)
}

/// Copy a frame of little-endian 16-bit depth samples into millimetres, row padding removed.
/// `None` on a malformed frame.
pub fn repack_depth(data: &[u8], dw: u32, dh: u32, stride: u32) -> (r: Option<Vec<u16>>)
    ensures
        r is Some <==> depth_fits(dw, dh, stride, data@.len() as int),
        r matches Some(out) ==> out@ == packed_depth(
            data@,
            dw as int,
            dh as int,
            pitch_of(2 * dw, stride as int),
        ),
        r is Some <==> dw > 0 && dh > 0 && (stride == 0 || stride >= 2 * dw) && (if stride == 0 {
            (dh - 1) * (2 * dw) + 2 * dw <= data@.len()
        } else {
            (dh - 1) * stride + 2 * dw <= data@.len()
        }),
        r matches Some(out) ==> out@.len() == dw * dh && forall|y: int, x: int|
            0 <= y < dh && 0 <= x < dw ==> #[trigger] out@[y * dw + x] == (if stride == 0 {
                data@[y * (2 * dw) + 2 * x] + 256 * data@[y * (2 * dw) + 2 * x + 1]
            } else {
                data@[y * stride + 2 * x] + 256 * data@[y * stride + 2 * x + 1]
            }),
{
    proof {
        law_samples_are_taken_by_their_stride(data@, dw as int, dh as int, stride as int);
    }
    let wide_row: u64 = dw as u64 * 2;
    if wide_row > data.len() as u64 {
        // Not even one row is there.
        proof {
            assert(dh > 0 ==> (dh - 1) * pitch_of(2 * dw, stride as int) >= 0) by (nonlinear_arith)
                requires
                    pitch_of(2 * dw, stride as int) >= 0,
            ;
        }
        return None;
    }
    let row: usize = wide_row as usize;
    let h: usize = dh as usize;
    let pitch: usize = match row_pitch(row, h, stride as usize, data.len()) {
        Some(p) => p,
        None => return None,
    };
    let ghost packed = packed_depth(data@, dw as int, dh as int, pitch as int);
    let mut out: Vec<u16> = Vec::new();
    let len: usize = data.len();
    let mut y: usize = 0;
    proof {
        assert(dw * 0 == 0);
        assert(packed.take(0) =~= out@);
    }
    while y < h
        invariant
            y <= h,
            len == data@.len(),
            h == dh,
            row == 2 * dw,
            rows_fit(row as int, h as int, pitch as int, data@.len() as int),
            packed == packed_depth(data@, dw as int, dh as int, pitch as int),
            0 <= dw * y <= dw * h,
            out@ == packed.take(dw * y),
        decreases h - y,
    {
        proof {
            lemma_row_inside(row as int, h as int, pitch as int, data@.len() as int, y as int);
        }
        let begin: usize = y * pitch;
        let mut x: usize = 0;
        proof {
            assert(0 <= dw * y && dw * y + dw <= dw * h) by (nonlinear_arith)
                requires
                    0 <= y < h,
            ;
        }
        while x < dw as usize
            invariant
                x <= dw,
                y < h,
                len == data@.len(),
                h == dh,
                row == 2 * dw,
                begin == y * pitch,
                begin + row <= data@.len(),
                packed == packed_depth(data@, dw as int, dh as int, pitch as int),
                0 <= dw * y,
                dw * y + dw <= dw * h,
                out@ == packed.take(dw * y + x),
            decreases dw - x,
        {
            let at: usize = begin + 2 * x;
            let value: u16 = data[at] as u16 + 256 * (data[at + 1] as u16);
            let ghost before = out@;
            out.push(value);
            proof {
                lemma_mul_is_commutative(dw as int, y as int);
                lemma_position(dw as int, y as int, x as int);
                assert(packed[dw * y + x] == value);
                assert(out@ =~= packed.take(dw * y + x + 1));
            }
            x += 1;
        }
        proof {
            assert(dw * (y + 1) == dw * y + dw) by (nonlinear_arith);
        }
        y += 1;
    }
    proof {
        assert(packed.take(dw * h) =~= packed);
    }
    Some(out)
}

/// The padding of a frame is never read: two frames that agree on every byte of every row
/// repack to the same bytes, however far apart the rows of each are.
pub proof fn law_padding_is_ignored(
    a: Seq<u8>,
    b: Seq<u8>,
    row: int,
    h: int,
    pitch_a: int,
    pitch_b: int,
)
    requires
        rows_fit(row, h, pitch_a, a.len() as int),
        rows_fit(row, h, pitch_b, b.len() as int),
        forall|y: int, x: int|
            0 <= y < h && 0 <= x < row ==> #[trigger] a[y * pitch_a + x] == b[y * pitch_b + x],
    ensures
        packed_rows(a, row, h, pitch_a) == packed_rows(b, row, h, pitch_b),
{
    let p = packed_rows(a, row, h, pitch_a);
    let q = packed_rows(b, row, h, pitch_b);
    assert forall|i: int| 0 <= i < row * h implies #[trigger] p[i] == q[i] by {
        lemma_row_of(i, row, h);
        assert(a[(i / row) * pitch_a + i % row] == b[(i / row) * pitch_b + i % row]);
    }
    assert(p =~= q);
}

/// Repacking is done once and for all: packed rows are a tight frame of the same size, and
/// repack to themselves.
pub proof fn law_packed_rows_stay_packed(data: Seq<u8>, row: int, h: int, pitch: int)
    requires
        rows_fit(row, h, pitch, data.len() as int),
    ensures
        ({
            let packed = packed_rows(data, row, h, pitch);
            &&& rows_fit(row, h, row, packed.len() as int)
            &&& packed_rows(packed, row, h, row) == packed
        }),
{
    let packed = packed_rows(data, row, h, pitch);
    lemma_packed_fits(row, h, pitch, data.len() as int);
    assert((h - 1) * row + row == row * h) by (nonlinear_arith);
    law_tight_rows_are_packed(packed, row, h);
    assert(packed.take(row * h) =~= packed);
}

/// A position below `row * h` lies in one of the `h` rows.
proof fn lemma_row_of(i: int, row: int, h: int)
    requires
        0 < row,
        0 <= i < row * h,
    ensures
        0 <= i / row < h,
        0 <= i % row < row,
        i == row * (i / row) + i % row,
{
    lemma_fundamental_div_mod(i, row);
    lemma_mod_bound(i, row);
    assert(0 <= i / row < h) by (nonlinear_arith)
        requires
            0 < row,
            0 <= i < row * h,
            i == row * (i / row) + i % row,
            0 <= i % row < row,
    ;
}

/// A depth frame is repacked as its rows of `2 * dw` bytes are, and each pair of bytes is
/// then one little-endian sample.
pub proof fn law_depth_is_repacked_rows(data: Seq<u8>, dw: int, dh: int, pitch: int)
    requires
        rows_fit(2 * dw, dh, pitch, data.len() as int),
    ensures
        packed_depth(data, dw, dh, pitch).len() * 2 == packed_rows(data, 2 * dw, dh, pitch).len(),
        forall|i: int|
            0 <= i < dw * dh ==> #[trigger] packed_depth(data, dw, dh, pitch)[i] == le16(
                packed_rows(data, 2 * dw, dh, pitch)[2 * i],
                packed_rows(data, 2 * dw, dh, pitch)[2 * i + 1],
            ),
{
    let bytes = packed_rows(data, 2 * dw, dh, pitch);
    assert(2 * dw * dh == 2 * (dw * dh)) by (nonlinear_arith);
    assert(0 < dw * dh) by (nonlinear_arith)
        requires
            0 < dw,
            0 < dh,
    ;
    assert forall|i: int| 0 <= i < dw * dh implies #[trigger] packed_depth(data, dw, dh, pitch)[i]
        == le16(bytes[2 * i], bytes[2 * i + 1]) by {
        lemma_row_of(i, dw, dh);
        let y = i / dw;
        let x = i % dw;
        assert(2 * i == y * (2 * dw) + 2 * x) by (nonlinear_arith)
            requires
                i == dw * y + x,
        ;
        lemma_position(2 * dw, y, 2 * x);
        lemma_position(2 * dw, y, 2 * x + 1);
    }
}

/// A frame is well-formed exactly if it has rows, its rows do not overlap, and its bytes reach
/// to the end of the last row; row `y` of what is taken out of it is then what lies `y` strides
/// behind its start, or `y` rows where it gives no stride.
pub proof fn law_rows_are_taken_by_their_stride(data: Seq<u8>, row: int, h: int, stride: int)
    requires
        row >= 0,
        h >= 0,
        stride >= 0,
    ensures
        rows_fit(row, h, pitch_of(row, stride), data.len() as int) <==> row > 0 && h > 0 && (stride
            == 0 || stride >= row) && (if stride == 0 {
            (h - 1) * row + row <= data.len()
        } else {
            (h - 1) * stride + row <= data.len()
        }),
        packed_rows(data, row, h, pitch_of(row, stride)).len() == row * h,
        forall|y: int, x: int|
            0 <= y < h && 0 <= x < row ==> #[trigger] packed_rows(
                data,
                row,
                h,
                pitch_of(row, stride),
            )[y * row + x] == (if stride == 0 {
                data[y * row + x]
            } else {
                data[y * stride + x]
            }),
{
    let pitch = pitch_of(row, stride);
    assert(0 <= row * h) by (nonlinear_arith)
        requires
            row >= 0,
            h >= 0,
    ;
    assert forall|y: int, x: int| 0 <= y < h && 0 <= x < row implies #[trigger] packed_rows(
        data,
        row,
        h,
        pitch,
    )[y * row + x] == (if stride == 0 {
        data[y * row + x]
    } else {
        data[y * stride + x]
    }) by {
        lemma_position(row, y, x);
        assert(0 <= y * row + x < row * h) by (nonlinear_arith)
            requires
                0 <= y < h,
                0 <= x < row,
        ;
    }
}

/// The samples of a depth frame, likewise: sample `x` of row `y` is the little-endian number in
/// the two bytes `2 * x` bytes behind the start of its row.
pub proof fn law_samples_are_taken_by_their_stride(data: Seq<u8>, dw: int, dh: int, stride: int)
    requires
        dw >= 0,
        dh >= 0,
        stride >= 0,
    ensures
        rows_fit(2 * dw, dh, pitch_of(2 * dw, stride), data.len() as int) <==> dw > 0 && dh > 0 && (
        stride == 0 || stride >= 2 * dw) && (if stride == 0 {
            (dh - 1) * (2 * dw) + 2 * dw <= data.len()
        } else {
            (dh - 1) * stride + 2 * dw <= data.len()
        }),
        packed_depth(data, dw, dh, pitch_of(2 * dw, stride)).len() == dw * dh,
        forall|y: int, x: int|
            0 <= y < dh && 0 <= x < dw ==> #[trigger] packed_depth(
                data,
                dw,
                dh,
                pitch_of(2 * dw, stride),
            )[y * dw + x] == (if stride == 0 {
                data[y * (2 * dw) + 2 * x] + 256 * data[y * (2 * dw) + 2 * x + 1]
            } else {
                data[y * stride + 2 * x] + 256 * data[y * stride + 2 * x + 1]
            }),
{
    let pitch = pitch_of(2 * dw, stride);
    assert(0 <= dw * dh) by (nonlinear_arith)
        requires
            dw >= 0,
            dh >= 0,
    ;
    assert forall|y: int, x: int| 0 <= y < dh && 0 <= x < dw implies #[trigger] packed_depth(
        data,
        dw,
        dh,
        pitch,
    )[y * dw + x] == (if stride == 0 {
        data[y * (2 * dw) + 2 * x] + 256 * data[y * (2 * dw) + 2 * x + 1]
    } else {
        data[y * stride + 2 * x] + 256 * data[y * stride + 2 * x + 1]
    }) by {
        lemma_position(dw, y, x);
        assert(0 <= y * dw + x < dw * dh) by (nonlinear_arith)
            requires
                0 <= y < dh,
                0 <= x < dw,
        ;
    }
}

} // verus!
