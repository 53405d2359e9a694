use vstd::prelude::*;
use vstd::arithmetic::div_mod::{
    lemma_div_multiples_vanish, lemma_div_pos_is_pos, lemma_multiply_divide_le,
};
use vstd::arithmetic::mul::{
    lemma_mul_inequality, lemma_mul_is_commutative, lemma_mul_left_inequality,
    lemma_mul_strictly_positive, lemma_mul_upper_bound,
};

verus! {

/// What the library keeps of a decoded raster image: its pixel
/// dimensions.  The pixel buffer itself stays with the host shell's
/// image-decoding facility and never enters the library.
#[derive(Clone, Copy, Debug, PartialEq, Eq, Structural)]
pub struct ImageInfo {
    pub width: i32,
    pub height: i32,
}

/// The larger of the two sides of an image.
pub open spec fn longest_side(w: int, h: int) -> int {
    if w >= h {
        w
    } else {
        h
    }
}

/// One side of an image after uniform scaling by `max / longest`,
/// rounded toward zero.
pub open spec fn fit_side(d: int, longest: int, max: int) -> int {
    (d * max) / longest
}

impl ImageInfo {
    /// A decoded image has strictly positive dimensions.
    pub open spec fn wf(self) -> bool {
        0 < self.width && 0 < self.height
    }

    /// Scales the dimensions down uniformly so that the larger side
    /// equals `max_dimension`, preserving the aspect ratio; an image
    /// that already fits is returned unchanged (never upscaled).
    pub fn resize_to_fit(&self, max_dimension: i32) -> (r: ImageInfo)
        requires
            self.wf(),
            0 < max_dimension,
        ensures
            self.width <= max_dimension && self.height <= max_dimension ==> r == *self,
            !(self.width <= max_dimension && self.height <= max_dimension) ==> {
                let longest = longest_side(self.width as int, self.height as int);
                &&& r.width == fit_side(self.width as int, longest, max_dimension as int)
                &&& r.height == fit_side(self.height as int, longest, max_dimension as int)
                &&& if self.width >= self.height {
                    r.width == max_dimension
                } else {
                    r.height == max_dimension
                }
            },
            0 <= r.width <= self.width,
            0 <= r.height <= self.height,
            r.width <= max_dimension,
            r.height <= max_dimension,
    {
        if self.width <= max_dimension && self.height <= max_dimension {
            *self
        } else {
            let longest: u64 = if self.width >= self.height {
                self.width as u64
            } else {
                self.height as u64
            };
            proof {
                lemma_mul_upper_bound(
                    self.width as int,
                    0x7fff_ffff,
                    max_dimension as int,
                    0x7fff_ffff,
                );
                lemma_mul_upper_bound(
                    self.height as int,
                    0x7fff_ffff,
                    max_dimension as int,
                    0x7fff_ffff,
                );
            }
            let scaled_w: u64 = (self.width as u64) * (max_dimension as u64) / longest;
            let scaled_h: u64 = (self.height as u64) * (max_dimension as u64) / longest;
            proof {
                let w = self.width as int;
                let h = self.height as int;
                let m = max_dimension as int;
                let l = longest_side(w, h);
                lemma_fit_side_bounds(w, l, m);
                lemma_fit_side_bounds(h, l, m);
                lemma_div_multiples_vanish(m, l);
                lemma_mul_is_commutative(l, m);
            }
            ImageInfo { width: scaled_w as i32, height: scaled_h as i32 }
        }
    }
}

/// For a side `d` of an image whose longest side is `l`, the scaled
/// side `(d * m) / l` lies between 0 and both `d` and `m`.
proof fn lemma_fit_side_bounds(d: int, l: int, m: int)
    requires
        0 < d <= l,
        0 < m <= l,
    ensures
        0 <= fit_side(d, l, m) <= m,
        fit_side(d, l, m) <= d,
{
    lemma_mul_strictly_positive(d, m);
    lemma_div_pos_is_pos(d * m, l);
    lemma_mul_inequality(d, l, m);
    lemma_multiply_divide_le(d * m, l, m);
    lemma_mul_left_inequality(d, m, l);
    lemma_mul_is_commutative(l, d);
    lemma_multiply_divide_le(d * m, l, d);
}

} // verus!
