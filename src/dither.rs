//! Ordered (pattern) dithering of RGBA8 pixel buffers.
//!
//! Every quantity is kept exact: the luminance of a pixel is
//! `luma(r, g, b) / LUMA_SCALE` and the threshold of a pixel is
//! `pattern_index(n, x, y) / (n * n)`, so the decision "gray > threshold"
//! is a comparison of two integer products.
use vstd::arithmetic::div_mod::lemma_fundamental_div_mod;
use vstd::prelude::*;

verus! {

/// The denominator of `luma`: 1000 for the three-digit weights times 255
/// for the channel range.
pub const LUMA_SCALE: u64 = 255000;

/// Position of `(x, y)` inside its `n` by `n` tile, enumerated row-major.
pub open spec fn pattern_index(n: int, x: int, y: int) -> int {
    (y % n) * n + x % n
}

/// BT.601 luminance of a pixel, scaled by `LUMA_SCALE`.
pub open spec fn luma(r: u8, g: u8, b: u8) -> int {
    299 * r + 587 * g + 114 * b
}

/// Whether a pixel of scaled luminance `l` lies strictly above the threshold
/// `index / (n * n)`.
pub open spec fn is_lit(l: int, index: int, n: int) -> bool {
    l * (n * n) > index * LUMA_SCALE
}

/// The R, G and B value that the pixel at flat pixel position `p` of an image
/// of the given width dithers to.
pub open spec fn pixel_level(data: Seq<u8>, width: int, n: int, p: int) -> u8 {
    let l = luma(data[4 * p], data[4 * p + 1], data[4 * p + 2]);
    if is_lit(l, pattern_index(n, p % width, p / width), n) {
        255
    } else {
        0
    }
}

/// The dithered image: alpha bytes are copied, colour bytes take the level
/// of their pixel.
pub open spec fn dithered(data: Seq<u8>, width: int, n: int) -> Seq<u8> {
    Seq::new(
        data.len(),
        |i: int|
            if i % 4 == 3 {
                data[i]
            } else {
                pixel_level(data, width, n, i / 4)
            },
    )
}

/// What processing `data` as a `width` by `height` image with tile size `n`
/// gives: a size error, or the dithered image.
pub open spec fn process_result(data: Seq<u8>, width: int, height: int, n: int) -> Result<
    Seq<u8>,
    DitherError,
> {
    if width * height * 4 > usize::MAX {
        Err(DitherError::DimensionOverflow)
    } else if data.len() != width * height * 4 {
        Err(
            DitherError::BufferSizeMismatch {
                expected: (width * height * 4) as usize,
                actual: data.len() as usize,
            },
        )
    } else {
        Ok(dithered(data, width, n))
    }
}

/// The bytes of a processing result.
pub open spec fn outcome(r: Result<Vec<u8>, DitherError>) -> Result<Seq<u8>, DitherError> {
    match r {
        Ok(out) => Ok(out@),
        Err(e) => Err(e),
    }
}

/// The settings of a processor.
///
/// `threshold_bits` holds the IEEE-754 bits of the configured bias. The
/// decision rule does not read it: it is carried as an explicit no-op.
#[derive(Clone, Copy, Debug, PartialEq, Eq)]
pub struct DitherConfig {
    pub threshold_bits: u32,
    pub pattern_size: u32,
}

/// Why a processor could not be built or an image could not be processed.
#[derive(Clone, Copy, Debug, PartialEq, Eq)]
pub enum DitherError {
    /// The tile size is zero.
    InvalidConfiguration,
    /// The buffer does not hold `width * height * 4` bytes.
    BufferSizeMismatch { expected: usize, actual: usize },
    /// `width * height * 4` does not fit in `usize`.
    DimensionOverflow,
}

/// Scaled BT.601 luminance of one pixel.
fn luma_of(r: u8, g: u8, b: u8) -> (l: u64)
    ensures
        l == luma(r, g, b),
        l <= LUMA_SCALE,
{
    299 * (r as u64) + 587 * (g as u64) + 114 * (b as u64)
}

/// A dithering engine with a fixed, valid configuration.
pub struct DitherProcessor {
    config: DitherConfig,
}

impl DitherProcessor {
    #[verifier::type_invariant]
    spec fn tile_is_nonempty(self) -> bool {
        self.config.pattern_size > 0
    }

    /// The tile edge length.
    pub closed spec fn tile(self) -> int {
        self.config.pattern_size as int
    }

    /// The configuration the processor was built from.
    pub closed spec fn configuration(self) -> DitherConfig {
        self.config
    }

    /// Builds a processor; a tile size of zero is refused.
    pub fn new(config: DitherConfig) -> (r: Result<DitherProcessor, DitherError>)
        ensures
            config.pattern_size == 0 ==> r == Err::<DitherProcessor, DitherError>(
                DitherError::InvalidConfiguration,
            ),
            config.pattern_size > 0 ==> r is Ok && r->Ok_0.configuration() == config
                && r->Ok_0.tile() == config.pattern_size,
    {
        if config.pattern_size == 0 {
            Err(DitherError::InvalidConfiguration)
        } else {
            Ok(DitherProcessor { config })
        }
    }

    /// The configuration the processor was built from.
    pub fn config(&self) -> (r: DitherConfig)
        ensures
            r == self.configuration(),
            r.pattern_size == self.tile(),
    {
        self.config
    }

    /// Numerator of the threshold at `(x, y)`; the threshold itself is
    /// `r / (n * n)` for the tile size `n`, which lies in `[0, 1)`.
    pub fn get_pattern_value(&self, x: u32, y: u32) -> (r: u64)
        ensures
            r == pattern_index(self.tile(), x as int, y as int),
            r < self.tile() * self.tile(),
    {
        proof {
            use_type_invariant(self);
        }
        let n = self.config.pattern_size as u64;
        let px = x as u64 % n;
        let py = y as u64 % n;
        proof {
            assert(py * n + px < n * n && n * n <= 0xffff_fffe_0000_0001) by (nonlinear_arith)
                requires
                    py < n,
                    px < n,
                    n <= 0xffff_ffff,
            ;
        }
        py * n + px
    }

    /// The R, G and B level of a pixel of scaled luminance `l` at `(x, y)`:
    /// 255 where the luminance lies strictly above the threshold, else 0.
    pub fn dither_level(&self, l: u64, x: u32, y: u32) -> (v: u8)
        requires
            l <= LUMA_SCALE,
        ensures
            v == (if is_lit(l as int, pattern_index(self.tile(), x as int, y as int), self.tile()) {
                255u8
            } else {
                0u8
            }),
    {
        proof {
            use_type_invariant(self);
        }
        let idx = self.get_pattern_value(x, y);
        let n = self.config.pattern_size as u128;
        let lw = l as u128;
        let iw = idx as u128;
        proof {
            assert(n * n <= 0xffff_fffe_0000_0001 && lw * (n * n) <= 255000 * 0xffff_fffe_0000_0001
                && iw * 255000 <= 255000 * 0xffff_fffe_0000_0001) by (nonlinear_arith)
                requires
                    n <= 0xffff_ffff,
                    lw <= 255000,
                    iw < n * n,
            ;
        }
        if lw * (n * n) > iw * (LUMA_SCALE as u128) {
            255
        } else {
            0
        }
    }

    /// Dithers an RGBA8 image of `width` by `height` pixels, stored row-major.
    ///
    /// Fails before any work when `width * height * 4` does not fit in
    /// `usize`, or when `data` does not hold exactly that many bytes.
    /// Otherwise every colour byte of the result is the level of its pixel
    /// and every alpha byte is copied from `data`.
    pub fn process_image_data(&self, data: &[u8], width: u32, height: u32) -> (r: Result<
        Vec<u8>,
        DitherError,
    >)
        ensures
            outcome(r) == process_result(data@, width as int, height as int, self.tile()),
    {
        proof {
            use_type_invariant(self);
        }
        proof {
            assert((width as u128) * (height as u128) * 4 <= 0x4_0000_0000_0000_0000) by (
            nonlinear_arith);
        }
        let wide = (width as u128) * (height as u128) * 4;
        if wide > usize::MAX as u128 {
            return Err(DitherError::DimensionOverflow);
        }
        let total = wide as usize;
        if data.len() != total {
            return Err(DitherError::BufferSizeMismatch { expected: total, actual: data.len() });
        }
        let w = width as usize;
        let count = total / 4;
        let ghost n = self.tile();
        let mut out: Vec<u8> = Vec::with_capacity(total);
        let mut p: usize = 0;
        while p < count
            invariant
                data@.len() == total,
                total == 4 * count,
                count == width * height,
                w == width,
                n == self.tile(),
                n > 0,
                p <= count,
                out@.len() == 4 * p,
                forall|i: int| 0 <= i < 4 * p ==> out@[i] == dithered(data@, w as int, n)[i],
            decreases count - p,
        {
            let base = 4 * p;
            proof {
                lemma_fundamental_div_mod(p as int, w as int);
                assert(p / w < height) by (nonlinear_arith)
                    requires
                        p == w * (p / w) + p % w,
                        p % w >= 0,
                        p < w * height,
                        w > 0,
                ;
            }
            let x = (p % w) as u32;
            let y = (p / w) as u32;
            let l = luma_of(data[base], data[base + 1], data[base + 2]);
            let v = self.dither_level(l, x, y);
            out.push(v);
            out.push(v);
            out.push(v);
            out.push(data[base + 3]);
            proof {
                assert forall|i: int| 4 * p <= i < 4 * p + 4 implies out@[i] == dithered(
                    data@,
                    w as int,
                    n,
                )[i] by {
                    assert(i / 4 == p);
                    assert(i % 4 == i - 4 * p);
                }
            }
            p += 1;
        }
        assert(out@ =~= dithered(data@, w as int, n));
        Ok(out)
    }
}

/// Processing is a function of its arguments: two calls with the same
/// processor, buffer and dimensions give the same bytes, or the same error.
pub proof fn lemma_process_deterministic(
    p: DitherProcessor,
    data: Seq<u8>,
    width: u32,
    height: u32,
    r1: Result<Vec<u8>, DitherError>,
    r2: Result<Vec<u8>, DitherError>,
)
    requires
        outcome(r1) == process_result(data, width as int, height as int, p.tile()),
        outcome(r2) == process_result(data, width as int, height as int, p.tile()),
    ensures
        outcome(r1) == outcome(r2),
        r1 is Ok ==> r1->Ok_0@ == r2->Ok_0@,
{
}

/// A processed image has `width * height * 4` bytes, as many as its input.
pub proof fn lemma_process_preserves_shape(
    data: Seq<u8>,
    width: int,
    height: int,
    n: int,
    out: Seq<u8>,
)
    requires
        process_result(data, width, height, n) == Ok::<Seq<u8>, DitherError>(out),
    ensures
        out.len() == width * height * 4,
        out.len() == data.len(),
{
}

/// In a processed image every colour byte is 0 or 255, the three colour
/// bytes of a pixel agree, and every alpha byte equals the input's.
pub proof fn lemma_process_binary_output(
    data: Seq<u8>,
    width: int,
    height: int,
    n: int,
    out: Seq<u8>,
)
    requires
        process_result(data, width, height, n) == Ok::<Seq<u8>, DitherError>(out),
    ensures
        forall|i: int|
            0 <= i < out.len() && i % 4 != 3 ==> (#[trigger] out[i] == 0u8 || out[i] == 255u8),
        forall|i: int| 0 <= i < out.len() && i % 4 == 3 ==> #[trigger] out[i] == data[i],
        forall|p: int|
            0 <= p < width * height ==> #[trigger] out[4 * p] == out[4 * p + 1] && out[4 * p]
                == out[4 * p + 2],
{
    assert forall|p: int| 0 <= p < width * height implies #[trigger] out[4 * p] == out[4 * p + 1]
        && out[4 * p] == out[4 * p + 2] by {
        assert((4 * p) / 4 == p && (4 * p + 1) / 4 == p && (4 * p + 2) / 4 == p);
        assert((4 * p) % 4 == 0 && (4 * p + 1) % 4 == 1 && (4 * p + 2) % 4 == 2);
    }
}

/// The threshold pattern repeats with period `n` along both axes.
pub proof fn lemma_pattern_periodic(n: int, x: int, y: int)
    requires
        n > 0,
        x >= 0,
        y >= 0,
    ensures
        pattern_index(n, x + n, y) == pattern_index(n, x, y),
        pattern_index(n, x, y + n) == pattern_index(n, x, y),
{
    vstd::arithmetic::div_mod::lemma_mod_add_multiples_vanish(x, n);
    vstd::arithmetic::div_mod::lemma_mod_add_multiples_vanish(y, n);
}

/// With a tile of size one every threshold is 0: a pixel turns white exactly
/// when its luminance is above zero.
pub proof fn lemma_unit_tile(data: Seq<u8>, width: int, x: int, y: int, p: int)
    requires
        width > 0,
        0 <= p,
        4 * p + 2 < data.len(),
    ensures
        pattern_index(1, x, y) == 0,
        pixel_level(data, width, 1, p) == (if luma(data[4 * p], data[4 * p + 1], data[4 * p + 2])
            > 0 {
            255u8
        } else {
            0u8
        }),
{
    assert forall|a: int, b: int| #[trigger] pattern_index(1, a, b) == 0 by {
        assert(a % 1 == 0 && b % 1 == 0);
    }
    assert(pattern_index(1, p % width, p / width) == 0);
    let l = luma(data[4 * p], data[4 * p + 1], data[4 * p + 2]);
    assert(l * (1 * 1) == l) by (nonlinear_arith);
    assert(is_lit(l, 0, 1) == (l > 0));
}

/// A buffer whose length is not `width * height * 4` is refused with both
/// lengths, whenever that product fits in `usize`.
pub proof fn lemma_size_mismatch_rejected(data: Seq<u8>, width: int, height: int, n: int)
    requires
        width * height * 4 <= usize::MAX,
        data.len() != width * height * 4,
    ensures
        process_result(data, width, height, n) == Err::<Seq<u8>, DitherError>(
            DitherError::BufferSizeMismatch {
                expected: (width * height * 4) as usize,
                actual: data.len() as usize,
            },
        ),
{
}

} // verus!
