//! Depth maps in host memory.

use vstd::arithmetic::div_mod::{
    lemma_fundamental_div_mod, lemma_fundamental_div_mod_converse, lemma_mod_bound,
};
use vstd::arithmetic::mul::lemma_mul_is_commutative;
use vstd::prelude::*;

verus! {

/// A host depth map in millimetres (0 means that the pixel has no valid measurement).
///
/// Depth is pixel-aligned to the image that it is sampled against; where the map is a
/// smaller grid than the image, the consumer scales coordinates by
/// `image_width / depth_width`.
pub struct DepthMap<'a> {
    data: &'a [u16],
    width: u32,
    height: u32,
}

/// The samples that carry a measurement.
pub open spec fn valid_samples(samples: Seq<u16>) -> Seq<u16> {
    samples.filter(|mm: u16| mm != 0)
}

/// The reading of the pixel `(u, v)` of a map: nothing where that is out of bounds or the
/// pixel has no valid measurement.
pub open spec fn reading_at(
    samples: Seq<u16>,
    columns: nat,
    rows: nat,
    u: int,
    v: int,
) -> Option<u16> {
    if 0 <= u < columns && 0 <= v < rows && samples[v * columns + u] != 0 {
        Some(samples[v * columns + u])
    } else {
        None
    }
}

/// The pixels of a map that have a reading.
pub open spec fn measured_pixels(samples: Seq<u16>, columns: nat, rows: nat) -> Set<(int, int)> {
    Set::new(|p: (int, int)| reading_at(samples, columns, rows, p.0, p.1) is Some)
}

/// Those among the first `n` pixels, row after row.
spec fn measured_before(samples: Seq<u16>, columns: nat, rows: nat, n: int) -> Set<(int, int)> {
    Set::new(
        |p: (int, int)|
            reading_at(samples, columns, rows, p.0, p.1) is Some && p.1 * columns + p.0 < n,
    )
}

/// Each of the first `n` samples that carries a measurement belongs to one pixel, and no two
/// to the same.
proof fn lemma_measured_before(samples: Seq<u16>, columns: nat, rows: nat, n: int)
    requires
        samples.len() == columns * rows,
        0 <= n <= samples.len(),
    ensures
        measured_before(samples, columns, rows, n).finite(),
        measured_before(samples, columns, rows, n).len() == valid_samples(samples.take(n)).len(),
    decreases n,
{
    let now = measured_before(samples, columns, rows, n);
    reveal(Seq::filter);
    if n == 0 {
        assert forall|p: (int, int)| !(#[trigger] now.contains(p)) by {
            if 0 <= p.0 && 0 <= p.1 {
                assert(0 <= p.1 * columns) by (nonlinear_arith)
                    requires
                        0 <= p.1,
                ;
            }
        }
        assert(now =~= Set::empty());
    } else {
        let w = columns as int;
        let k = n - 1;
        assert(w > 0) by (nonlinear_arith)
            requires
                0 < columns * rows,
                w == columns,
        ;
        let before = measured_before(samples, columns, rows, k);
        lemma_measured_before(samples, columns, rows, k);
        assert(samples.take(n).drop_last() =~= samples.take(k));
        assert(samples.take(n).last() == samples[k]);
        lemma_fundamental_div_mod(k, w);
        lemma_mod_bound(k, w);
        let u = k % w;
        let v = k / w;
        assert(0 <= v < rows) by (nonlinear_arith)
            requires
                0 < w,
                w == columns,
                0 <= k < columns * rows,
                k == w * v + u,
                0 <= u < w,
        ;
        lemma_mul_is_commutative(w, v);
        let pixel = (u, v);
        assert forall|p: (int, int)| now.contains(p) && !before.contains(p) implies p == pixel
            && samples[k] != 0 by {
            assert(p.1 * columns + p.0 == k);
            lemma_fundamental_div_mod_converse(k, w, p.1, p.0);
        }
        if samples[k] != 0 {
            assert(now =~= before.insert(pixel));
        } else {
            assert(now =~= before);
        }
    }
}

/// The share of valid samples counts pixels: there are as many valid samples as pixels with a
/// reading. It is 0 of 0 for an empty map, none of all where every sample is 0, and all of all
/// where no sample is.
pub proof fn law_valid_samples_are_pixels_with_a_reading(
    samples: Seq<u16>,
    columns: nat,
    rows: nat,
)
    requires
        samples.len() == columns * rows,
    ensures
        measured_pixels(samples, columns, rows).finite(),
        measured_pixels(samples, columns, rows).len() == valid_samples(samples).len(),
        valid_samples(samples).len() <= columns * rows,
        valid_samples(samples).len() == 0 <==> forall|i: int|
            0 <= i < samples.len() ==> #[trigger] samples[i] == 0,
        valid_samples(samples).len() == columns * rows <==> forall|i: int|
            0 <= i < samples.len() ==> #[trigger] samples[i] != 0,
{
    let n = samples.len() as int;
    lemma_measured_before(samples, columns, rows, n);
    assert forall|p: (int, int)| measured_pixels(samples, columns, rows).contains(p) implies p.1
        * columns + p.0 < n by {
        assert(p.1 * columns + p.0 < columns * rows) by (nonlinear_arith)
            requires
                0 <= p.0 < columns,
                0 <= p.1 < rows,
        ;
    }
    assert(measured_pixels(samples, columns, rows) =~= measured_before(samples, columns, rows, n));
    assert(samples.take(n) =~= samples);
    lemma_valid_count(samples);
}

/// How many samples are valid at the two extremes.
proof fn lemma_valid_count(samples: Seq<u16>)
    ensures
        valid_samples(samples).len() <= samples.len(),
        valid_samples(samples).len() == 0 <==> forall|i: int|
            0 <= i < samples.len() ==> #[trigger] samples[i] == 0,
        valid_samples(samples).len() == samples.len() <==> forall|i: int|
            0 <= i < samples.len() ==> #[trigger] samples[i] != 0,
    decreases samples.len(),
{
    reveal(Seq::filter);
    if samples.len() > 0 {
        let front = samples.drop_last();
        lemma_valid_count(front);
        assert(forall|i: int| 0 <= i < front.len() ==> front[i] == #[trigger] samples[i]);
        assert(samples.last() == samples[samples.len() - 1]);
        if valid_samples(samples).len() == 0 || valid_samples(samples).len() == samples.len() {
            assert forall|i: int| 0 <= i < samples.len() implies (valid_samples(samples).len() == 0
                ==> #[trigger] samples[i] == 0) && (valid_samples(samples).len() == samples.len()
                ==> samples[i] != 0) by {
                if i < front.len() {
                    assert(front[i] == samples[i]);
                }
            }
        } else {
            if forall|i: int| 0 <= i < samples.len() ==> #[trigger] samples[i] == 0 {
                assert(forall|i: int| 0 <= i < front.len() ==> #[trigger] front[i] == 0);
            }
            if forall|i: int| 0 <= i < samples.len() ==> #[trigger] samples[i] != 0 {
                assert(forall|i: int| 0 <= i < front.len() ==> #[trigger] front[i] != 0);
            }
        }
    }
}

impl<'a> DepthMap<'a> {
    #[verifier::type_invariant]
    spec fn inv(self) -> bool {
        self.data@.len() >= self.width * self.height
    }

    /// Pixels per row.
    pub closed spec fn columns(self) -> nat {
        self.width as nat
    }

    /// Number of rows.
    pub closed spec fn rows(self) -> nat {
        self.height as nat
    }

    /// The samples in millimetres, row after row.
    pub closed spec fn samples(self) -> Seq<u16> {
        self.data@.take(self.width * self.height)
    }

    /// Borrow a producer's buffer of at least `width * height` samples, without a copy.
    pub fn borrowed(data: &'a [u16], width: u32, height: u32) -> (r: Self)
        requires
            data@.len() >= width * height,
        ensures
            r.columns() == width,
            r.rows() == height,
            r.samples() == data@.take(width * height),
            r.samples().len() == width * height,
    {
        proof {
            assert(0 <= width * height) by (nonlinear_arith);
        }
        DepthMap { data, width, height }
    }

    pub fn width(&self) -> (r: u32)
        ensures
            r == self.columns(),
    {
        self.width
    }

    pub fn height(&self) -> (r: u32)
        ensures
            r == self.rows(),
    {
        self.height
    }

    /// The raw millimetre samples.
    pub fn as_slice(&self) -> (r: &[u16])
        ensures
            r@ == self.samples(),
            r@.len() == self.columns() * self.rows(),
    {
        proof {
            use_type_invariant(self);
            crate::frame::lemma_area(self.width, self.height);
        }
        let len: usize = self.data.len();
        let total: u64 = self.width as u64 * self.height as u64;
        assert(total <= len);
        let samples: &[u16] = vstd::slice::slice_subrange(self.data, 0, total as usize);
        assert(samples@ =~= self.samples());
        samples
    }

    /// How many pixels carry a valid measurement, out of how many pixels there are.
    ///
    /// The most useful health check on a depth stream: a sensor that sees a textureless
    /// wall returns frames that look fine and are almost entirely zeros.
    pub fn valid_fraction(&self) -> (r: (usize, usize))
        ensures
            r.0 == valid_samples(self.samples()).len(),
            r.1 == self.columns() * self.rows(),
            r.0 == measured_pixels(self.samples(), self.columns(), self.rows()).len(),
            r.0 <= r.1,
    {
        let samples: &[u16] = self.as_slice();
        let ghost p = |mm: u16| mm != 0;
        let mut valid: usize = 0;
        let mut i: usize = 0;
        proof {
            reveal(Seq::filter);
            assert(samples@.take(0).filter(p).len() == 0);
        }
        while i < samples.len()
            invariant
                i <= samples@.len(),
                valid <= i,
                p == (|mm: u16| mm != 0),
                valid == samples@.take(i as int).filter(p).len(),
            decreases samples@.len() - i,
        {
            proof {
                reveal(Seq::filter);
                assert(samples@.take(i + 1).drop_last() =~= samples@.take(i as int));
            }
            if samples[i] != 0 {
                valid += 1;
            }
            i += 1;
        }
        proof {
            assert(samples@.take(i as int) =~= samples@);
            law_valid_samples_are_pixels_with_a_reading(samples@, self.columns(), self.rows());
        }
        (valid, samples.len())
    }

    /// Millimetre reading at `(u, v)`, or `None` when that is out of bounds or the pixel has
    /// no valid measurement.
    pub fn mm_at(&self, u: u32, v: u32) -> (r: Option<u16>)
        ensures
            r == reading_at(
                self.samples(),
                self.columns(),
                self.rows(),
                u as int,
                v as int,
            ),
            u < self.columns() && v < self.rows() ==> {
                let mm = self.samples()[v * self.columns() + u];
                &&& mm > 0 ==> r == Some(mm)
                &&& mm == 0 ==> r is None
            },
            u >= self.columns() || v >= self.rows() ==> r is None,
    {
        if u >= self.width || v >= self.height {
            return None;
        }
        let samples: &[u16] = self.as_slice();
        let len: usize = samples.len();
        proof {
            crate::frame::lemma_area(self.width, self.height);
            assert(0 <= v * self.width) by (nonlinear_arith);
            assert(0 <= v * self.width + u < self.width * self.height) by (nonlinear_arith)
                requires
                    0 <= u < self.width,
                    0 <= v < self.height,
            ;
        }
        let at: u64 = v as u64 * self.width as u64 + u as u64;
        let mm: u16 = samples[at as usize];
        if mm != 0 {
            Some(mm)
        } else {
            None
        }
    }
}

/// A pixel in bounds reads its own sample, whatever its value, if that is not zero; and nothing
/// is read out of bounds.
pub proof fn law_a_pixel_reads_its_sample(
    samples: Seq<u16>,
    columns: nat,
    rows: nat,
    u: int,
    v: int,
)
    ensures
        0 <= u < columns && 0 <= v < rows && samples[v * columns + u] > 0 ==> reading_at(
            samples,
            columns,
            rows,
            u,
            v,
        ) == Some(samples[v * columns + u]),
        0 <= u < columns && 0 <= v < rows && samples[v * columns + u] == 0 ==> reading_at(
            samples,
            columns,
            rows,
            u,
            v,
        ) is None,
        u < 0 || u >= columns || v < 0 || v >= rows ==> reading_at(
            samples,
            columns,
            rows,
            u,
            v,
        ) is None,
{
}

/// A sample counts as valid exactly if it is not zero: one more sample adds one to the count if
/// it is above zero, and leaves it otherwise.
pub proof fn law_every_sample_above_zero_counts(samples: Seq<u16>, mm: u16)
    ensures
        valid_samples(Seq::empty()).len() == 0,
        mm > 0 ==> valid_samples(samples.push(mm)).len() == valid_samples(samples).len() + 1,
        mm == 0 ==> valid_samples(samples.push(mm)).len() == valid_samples(samples).len(),
{
    reveal(Seq::filter);
    assert(samples.push(mm).drop_last() =~= samples);
}

} // verus!
