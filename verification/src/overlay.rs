//! Size bookkeeping of the ESP overlay surface: the compositor reports a
//! logical size and an integer output scale, and the overlay renders at the
//! physical size.
use vstd::prelude::*;

verus! {

/// The output scale in force for a reported scale factor: at least 1.
pub open spec fn effective_scale(scale: i32) -> int {
    if scale < 1 { 1 } else { scale as int }
}

/// The output scale kept for a reported scale factor (`max(factor, 1)`).
pub fn output_scale(factor: i32) -> (scale: i32)
    ensures
        scale == effective_scale(factor),
{
    if factor < 1 { 1 } else { factor }
}

/// The logical size after a configure event: each new dimension that is
/// positive replaces the old one, a zero one keeps it.
pub fn configured_size(width: u32, height: u32, new_width: u32, new_height: u32) -> (size: (u32, u32))
    ensures
        size.0 == (if new_width > 0 { new_width } else { width }),
        size.1 == (if new_height > 0 { new_height } else { height }),
{
    let w = if new_width > 0 { new_width } else { width };
    let h = if new_height > 0 { new_height } else { height };
    (w, h)
}

/// The physical pixel size of a logical size at an output scale (clamped to
/// at least 1), or `None` when a dimension does not fit in a `u32`.
pub fn physical_size(width: u32, height: u32, scale: i32) -> (size: Option<(u32, u32)>)
    ensures
        ({
            let s = effective_scale(scale);
            if width * s <= u32::MAX && height * s <= u32::MAX {
                size == Some(((width * s) as u32, (height * s) as u32))
            } else {
                size is None
            }
        }),
{
    let s = output_scale(scale);
    let s64: u64 = s as u64;
    let w: u64 = width as u64;
    let h: u64 = height as u64;
    assert(w * s64 <= 0xffff_ffff * 0x7fff_ffff) by (nonlinear_arith)
        requires
            w <= 0xffff_ffff,
            s64 <= 0x7fff_ffff,
    ;
    assert(h * s64 <= 0xffff_ffff * 0x7fff_ffff) by (nonlinear_arith)
        requires
            h <= 0xffff_ffff,
            s64 <= 0x7fff_ffff,
    ;
    let pw = w * s64;
    let ph = h * s64;
    if pw <= 0xffff_ffff && ph <= 0xffff_ffff {
        Some((pw as u32, ph as u32))
    } else {
        None
    }
}

} // verus!
