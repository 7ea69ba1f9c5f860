//! The order in which the driver visits the pixels of the image.
//!
//! Rendering row by row fills the image from the top; stepping through the
//! index space by a stride that divides the image dimensions spreads early
//! pixels across the whole image instead, so a consumer watching the stream
//! sees useful coverage quickly. Step `i` of the traversal visits pixel
//! index `(i·stride) mod area + (i·stride) / area`, which columns of
//! `height` pixels then split into a position. The lemmas below prove that
//! this really is a traversal: every step lands inside the image, no two
//! steps land on the same pixel, and every pixel is reached.

use vstd::arithmetic::div_mod::{
    lemma_fundamental_div_mod, lemma_fundamental_div_mod_converse, lemma_div_pos_is_pos,
    lemma_mod_bound, lemma_multiply_divide_lt,
};
use vstd::arithmetic::mul::{lemma_mul_is_commutative, lemma_mul_upper_bound};
use vstd::prelude::*;

verus! {

/// Number of pixels in a `width` × `height` image.
pub open spec fn image_area(width: int, height: int) -> int {
    width * height
}

/// What the traversal asks of its inputs: a non-empty image and a stride of
/// at least one that divides the width, so that it also divides the area.
pub open spec fn valid_traversal(stride: int, width: int, height: int) -> bool {
    &&& 1 <= width
    &&& 1 <= height
    &&& 1 <= stride
    &&& width % stride == 0
}

/// The pixel index that traversal step `step` visits: stepping by `stride`
/// through `0 .. area`, wrapping around modulo the area and shifting by one
/// pixel on each wrap.
pub open spec fn traversal_index(step: int, stride: int, area: int) -> int {
    (step * stride) % area + (step * stride) / area
}

/// Column of the pixel that traversal step `step` visits.
pub open spec fn traversal_x(step: int, stride: int, width: int, height: int) -> int {
    traversal_index(step, stride, image_area(width, height)) / height
}

/// Row of the pixel that traversal step `step` visits.
pub open spec fn traversal_y(step: int, stride: int, width: int, height: int) -> int {
    traversal_index(step, stride, image_area(width, height)) % height
}

/// The number of wraps the traversal makes: the area splits into `stride`
/// rounds of `(width / stride) * height` steps each.
proof fn lemma_area_factors(stride: int, width: int, height: int)
    requires
        valid_traversal(stride, width, height),
    ensures
        1 <= (width / stride) * height,
        stride * ((width / stride) * height) == image_area(width, height),
{
    let k = width / stride;
    lemma_fundamental_div_mod(width, stride);
    assert(width == stride * k);
    assert(1 <= k) by (nonlinear_arith)
        requires
            1 <= stride,
            1 <= stride * k,
    ;
    assert(1 <= k * height) by (nonlinear_arith)
        requires
            1 <= k,
            1 <= height,
    ;
    assert(stride * (k * height) == (stride * k) * height) by (nonlinear_arith);
}

/// Splitting step `s` as `q·m + r` with `r = s mod m`, the scaled step
/// `s·stride` has remainder `r·stride` and quotient `q` modulo the area
/// `stride·m`; the visited index `r·stride + q` stays inside the area.
proof fn lemma_scaled_decompose(step: int, stride: int, m: int)
    requires
        1 <= stride,
        1 <= m,
        0 <= step < stride * m,
    ensures
        (step * stride) % (stride * m) == (step % m) * stride,
        (step * stride) / (stride * m) == step / m,
        0 <= step / m < stride,
        0 <= (step % m) * stride,
        traversal_index(step, stride, stride * m) < stride * m,
{
    let q = step / m;
    let r = step % m;
    let area = stride * m;
    lemma_mod_bound(step, m);
    lemma_div_pos_is_pos(step, m);
    lemma_fundamental_div_mod(step, m);
    lemma_mul_is_commutative(stride, m);
    lemma_multiply_divide_lt(step, m, stride);
    assert(step * stride == q * area + r * stride) by (nonlinear_arith)
        requires
            step == m * q + r,
            area == stride * m,
    ;
    assert(0 <= r * stride && r * stride < area) by (nonlinear_arith)
        requires
            0 <= r < m,
            1 <= stride,
            area == stride * m,
    ;
    lemma_fundamental_div_mod_converse(step * stride, area, q, r * stride);
    assert(r * stride + q < area) by (nonlinear_arith)
        requires
            0 <= r <= m - 1,
            0 <= q <= stride - 1,
            1 <= stride,
            1 <= m,
            area == stride * m,
    ;
}

/// Stepping with stride `stride` through an area of `stride·m` and stepping
/// back with stride `m` are inverse to one another.
proof fn lemma_traversal_roundtrip(step: int, stride: int, m: int)
    requires
        1 <= stride,
        1 <= m,
        0 <= step < stride * m,
    ensures
        ({
            let j = (step % m) * stride + step / m;
            &&& 0 <= j < stride * m
            &&& (j % stride) * m + j / stride == step
        }),
{
    let q = step / m;
    let r = step % m;
    lemma_mod_bound(step, m);
    lemma_div_pos_is_pos(step, m);
    lemma_fundamental_div_mod(step, m);
    lemma_mul_is_commutative(stride, m);
    lemma_multiply_divide_lt(step, m, stride);
    let j = r * stride + q;
    assert(0 <= j < stride * m) by (nonlinear_arith)
        requires
            0 <= r <= m - 1,
            0 <= q <= stride - 1,
            1 <= stride,
            1 <= m,
            j == r * stride + q,
    ;
    lemma_fundamental_div_mod_converse(j, stride, r, q);
    assert((j % stride) * m + j / stride == step) by (nonlinear_arith)
        requires
            j % stride == q,
            j / stride == r,
            step == m * q + r,
    ;
}

/// Every traversal step visits a pixel inside the image.
pub proof fn lemma_traversal_in_bounds(step: int, stride: int, width: int, height: int)
    requires
        valid_traversal(stride, width, height),
        0 <= step < image_area(width, height),
    ensures
        0 <= traversal_index(step, stride, image_area(width, height)) < image_area(
            width,
            height,
        ),
        0 <= traversal_x(step, stride, width, height) < width,
        0 <= traversal_y(step, stride, width, height) < height,
{
    let area = image_area(width, height);
    let m = (width / stride) * height;
    lemma_area_factors(stride, width, height);
    lemma_scaled_decompose(step, stride, m);
    let j = traversal_index(step, stride, area);
    lemma_mod_bound(j, height);
    lemma_div_pos_is_pos(j, height);
    lemma_mul_is_commutative(width, height);
    lemma_multiply_divide_lt(j, height, width);
}

/// No two traversal steps visit the same pixel. Together with
/// [`lemma_traversal_covers`] this says the traversal over
/// `0 .. width·height` emits every pixel of the image exactly once.
pub proof fn lemma_traversal_injective(
    step1: int,
    step2: int,
    stride: int,
    width: int,
    height: int,
)
    requires
        valid_traversal(stride, width, height),
        0 <= step1 < image_area(width, height),
        0 <= step2 < image_area(width, height),
        step1 != step2,
    ensures
        traversal_x(step1, stride, width, height) != traversal_x(step2, stride, width, height)
            || traversal_y(step1, stride, width, height) != traversal_y(
            step2,
            stride,
            width,
            height,
        ),
{
    let area = image_area(width, height);
    let m = (width / stride) * height;
    lemma_area_factors(stride, width, height);
    lemma_scaled_decompose(step1, stride, m);
    lemma_scaled_decompose(step2, stride, m);
    lemma_traversal_roundtrip(step1, stride, m);
    lemma_traversal_roundtrip(step2, stride, m);
    let j1 = traversal_index(step1, stride, area);
    let j2 = traversal_index(step2, stride, area);
    if traversal_x(step1, stride, width, height) == traversal_x(step2, stride, width, height)
        && traversal_y(step1, stride, width, height) == traversal_y(
        step2,
        stride,
        width,
        height,
    ) {
        lemma_fundamental_div_mod(j1, height);
        lemma_fundamental_div_mod(j2, height);
        assert(j1 == j2);
        assert(false);
    }
}

/// Every pixel of the image is visited by some traversal step.
pub proof fn lemma_traversal_covers(x: int, y: int, stride: int, width: int, height: int)
    requires
        valid_traversal(stride, width, height),
        0 <= x < width,
        0 <= y < height,
    ensures
        exists|step: int|
            0 <= step < image_area(width, height) && traversal_x(step, stride, width, height)
                == x && traversal_y(step, stride, width, height) == y,
{
    let area = image_area(width, height);
    let m = (width / stride) * height;
    lemma_area_factors(stride, width, height);
    let j = x * height + y;
    assert(0 <= x * height && j < area) by (nonlinear_arith)
        requires
            0 <= x < width,
            0 <= y < height,
            j == x * height + y,
            area == width * height,
    ;
    lemma_mul_is_commutative(stride, m);
    lemma_traversal_roundtrip(j, m, stride);
    let step = (j % stride) * m + j / stride;
    lemma_scaled_decompose(step, stride, m);
    assert(traversal_index(step, stride, area) == j);
    lemma_fundamental_div_mod_converse(j, height, x, y);
    assert(traversal_x(step, stride, width, height) == x);
    assert(traversal_y(step, stride, width, height) == y);
}

/// The stride the traversal steps by: the largest divisor both dimensions
/// share that is at most a third of the width, or one where there is none.
pub fn pixel_stride(width: u32, height: u32) -> (stride: u32)
    requires
        1 <= width,
        1 <= height,
    ensures
        valid_traversal(stride as int, width as int, height as int),
        height % stride == 0,
        stride == 1 || (2 <= stride && stride <= width / 3),
        forall|d: int|
            2 <= d <= width / 3 && #[trigger] (width as int % d) == 0 && height as int % d == 0
                ==> d <= stride,
{
    let upper = width / 3;
    let mut stride: u32 = 1;
    let mut d: u32 = 2;
    while d <= upper
        invariant
            1 <= width,
            1 <= height,
            upper == width / 3,
            2 <= d,
            d <= upper + 1 || d == 2,
            1 <= stride,
            width % stride == 0,
            height % stride == 0,
            stride == 1 || (2 <= stride && stride < d && stride <= upper),
            forall|e: int|
                2 <= e < d && #[trigger] (width as int % e) == 0 && height as int % e == 0
                    ==> e <= stride,
        decreases upper + 1 - d,
    {
        if width % d == 0 && height % d == 0 {
            stride = d;
        }
        d = d + 1;
    }
    stride
}

/// The position of the pixel that traversal step `step` visits.
pub fn pixel_position(step: u64, stride: u32, width: u32, height: u32) -> (position: [u32; 2])
    requires
        valid_traversal(stride as int, width as int, height as int),
        step < image_area(width as int, height as int),
    ensures
        position[0] == traversal_x(step as int, stride as int, width as int, height as int),
        position[1] == traversal_y(step as int, stride as int, width as int, height as int),
        position[0] < width,
        position[1] < height,
{
    proof {
        lemma_traversal_in_bounds(step as int, stride as int, width as int, height as int);
        lemma_mul_upper_bound(width as int, u32::MAX as int, height as int, u32::MAX as int);
        lemma_mul_upper_bound(step as int, u64::MAX as int, stride as int, u32::MAX as int);
    }
    let area: u64 = (width as u64) * (height as u64);
    let scaled: u128 = (step as u128) * (stride as u128);
    let j: u64 = ((scaled % (area as u128)) + (scaled / (area as u128))) as u64;
    let x: u32 = (j / (height as u64)) as u32;
    let y: u32 = (j % (height as u64)) as u32;
    [x, y]
}

} // verus!
