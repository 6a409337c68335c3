use vstd::prelude::*;
use vstd::arithmetic::div_mod::lemma_fundamental_div_mod_converse;

verus! {

/// Why an image configuration was refused.
#[derive(Debug, Clone, Copy, PartialEq, Eq, Structural)]
pub enum ConfigError {
    NonPositiveWidth,
    NonPositiveHeight,
    NonPositiveAspect,
    HeightOutOfRange,
}

/// Dimensions of the rendered image, in pixels; both are positive.
#[derive(Debug, Clone, Copy, PartialEq, Eq, Structural)]
pub struct ImageSize {
    pub width: u32,
    pub height: u32,
}

/// The height that an aspect ratio of `aspect_w : aspect_h` gives to an image
/// `width` pixels wide, truncated.
pub open spec fn derived_height(width: int, aspect_w: int, aspect_h: int) -> int {
    width * aspect_h / aspect_w
}

/// The pixel emitted at position `k` of the output: rows run from the top one
/// (`j == height - 1`) down to `j == 0`, and each row from `i == 0` rightwards.
pub open spec fn scan_pixel(width: int, height: int, k: int) -> (int, int) {
    (k % width, height - 1 - k / width)
}

impl ImageSize {
    pub open spec fn wf(&self) -> bool {
        0 < self.width <= i32::MAX && 0 < self.height <= i32::MAX
    }

    /// An image of `width` by `height` pixels; non-positive dimensions are refused.
    pub fn new(width: i32, height: i32) -> (r: Result<ImageSize, ConfigError>)
        ensures
            width <= 0 ==> r == Err::<ImageSize, ConfigError>(ConfigError::NonPositiveWidth),
            width > 0 && height <= 0 ==> r == Err::<ImageSize, ConfigError>(
                ConfigError::NonPositiveHeight,
            ),
            width > 0 && height > 0 ==> (r matches Ok(s) && s.wf() && s.width == width
                && s.height == height),
    {
        if width <= 0 {
            Err(ConfigError::NonPositiveWidth)
        } else if height <= 0 {
            Err(ConfigError::NonPositiveHeight)
        } else {
            Ok(ImageSize { width: width as u32, height: height as u32 })
        }
    }

    /// An image `width` pixels wide whose height follows from the aspect ratio
    /// `aspect_w : aspect_h` (width to height), truncated.
    pub fn with_aspect(width: i32, aspect_w: i32, aspect_h: i32) -> (r: Result<ImageSize, ConfigError>)
        ensures
            width <= 0 ==> r == Err::<ImageSize, ConfigError>(ConfigError::NonPositiveWidth),
            width > 0 && (aspect_w <= 0 || aspect_h <= 0) ==> r == Err::<ImageSize, ConfigError>(
                ConfigError::NonPositiveAspect,
            ),
            width > 0 && aspect_w > 0 && aspect_h > 0 && derived_height(
                width as int,
                aspect_w as int,
                aspect_h as int,
            ) == 0 ==> r == Err::<ImageSize, ConfigError>(ConfigError::NonPositiveHeight),
            width > 0 && aspect_w > 0 && aspect_h > 0 && derived_height(
                width as int,
                aspect_w as int,
                aspect_h as int,
            ) > i32::MAX ==> r == Err::<ImageSize, ConfigError>(ConfigError::HeightOutOfRange),
            width > 0 && aspect_w > 0 && aspect_h > 0 && 0 < derived_height(
                width as int,
                aspect_w as int,
                aspect_h as int,
            ) <= i32::MAX ==> (r matches Ok(s) && s.wf() && s.width == width && s.height
                == derived_height(width as int, aspect_w as int, aspect_h as int)),
    {
        if width <= 0 {
            return Err(ConfigError::NonPositiveWidth);
        }
        if aspect_w <= 0 || aspect_h <= 0 {
            return Err(ConfigError::NonPositiveAspect);
        }
        proof {
            let (w, a) = (width as int, aspect_h as int);
            assert(0 <= w * a <= i32::MAX * i32::MAX) by (nonlinear_arith)
                requires
                    0 < w <= i32::MAX,
                    0 < a <= i32::MAX,
            ;
        }
        let height: i64 = (width as i64 * aspect_h as i64) / aspect_w as i64;
        if height == 0 {
            Err(ConfigError::NonPositiveHeight)
        } else if height > i32::MAX as i64 {
            Err(ConfigError::HeightOutOfRange)
        } else {
            Ok(ImageSize { width: width as u32, height: height as u32 })
        }
    }

    /// The number of pixels, `width * height`.
    pub fn pixel_count(&self) -> (n: u64)
        ensures
            n == self.width * self.height,
    {
        proof {
            let (w, h) = (self.width as int, self.height as int);
            assert(w * h <= u32::MAX * u32::MAX) by (nonlinear_arith)
                requires
                    0 <= w <= u32::MAX,
                    0 <= h <= u32::MAX,
            ;
        }
        self.width as u64 * self.height as u64
    }

    /// The pixel `(i, j)` written at position `k` of the output; `j` counts rows
    /// from the bottom of the image.
    pub fn pixel_at(&self, k: u64) -> (r: (u32, u32))
        requires
            self.wf(),
            k < self.width * self.height,
        ensures
            (r.0 as int, r.1 as int) == scan_pixel(self.width as int, self.height as int, k as int),
            r.0 < self.width,
            r.1 < self.height,
    {
        let w = self.width as u64;
        let h = self.height as u64;
        proof {
            vstd::arithmetic::div_mod::lemma_div_pos_is_pos(k as int, w as int);
            vstd::arithmetic::div_mod::lemma_fundamental_div_mod(k as int, w as int);
            let q = k as int / w as int;
            if q >= h {
                assert(w * q >= w * h) by (nonlinear_arith)
                    requires
                        q >= h,
                        w > 0,
                ;
            }
        }
        let i = (k % w) as u32;
        let j = (h - 1 - k / w) as u32;
        (i, j)
    }
}

/// Every pixel of the image is written exactly once: pixel `(i, j)` stands at
/// position `(height - 1 - j) * width + i` of the output, and no other.
pub proof fn lemma_scan_order(size: ImageSize, i: int, j: int, k: int)
    requires
        size.wf(),
        0 <= i < size.width,
        0 <= j < size.height,
        0 <= k < size.width * size.height,
    ensures
        scan_pixel(size.width as int, size.height as int, k) == (i, j) <==> k == (size.height
            - 1 - j) * size.width + i,
{
    let (w, h) = (size.width as int, size.height as int);
    let p = (h - 1 - j) * w + i;
    lemma_fundamental_div_mod_converse(p, w, h - 1 - j, i);
    if scan_pixel(w, h, k) == (i, j) {
        vstd::arithmetic::div_mod::lemma_fundamental_div_mod(k, w);
        assert(k == w * (k / w) + k % w);
        assert(k / w == h - 1 - j);
        assert(w * (h - 1 - j) == (h - 1 - j) * w) by (nonlinear_arith);
    }
}

} // verus!
