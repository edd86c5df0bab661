use vstd::prelude::*;

verus! {

/// What a derivative request asks of a decoded image of a given size.
#[derive(Clone, Copy, Debug, PartialEq, Eq, Structural)]
pub enum ResizePlan {
    /// The long axis already fits the ceiling: the source is used as it is.
    KeepOriginal,
    /// Resize to these pixel dimensions.
    Resize { width: u32, height: u32 },
}

/// `ceiling * num / den`, truncated and saturated to the `u32` range. A zero
/// denominator gives the largest value, or zero when the numerator is zero too.
pub open spec fn scaled_side(ceiling: int, num: int, den: int) -> int {
    if den == 0 {
        if num == 0 { 0 } else { u32::MAX as int }
    } else if ceiling * num / den > u32::MAX {
        u32::MAX as int
    } else {
        ceiling * num / den
    }
}

pub open spec fn spec_plan(native_w: int, native_h: int, req_w: int, req_h: int, ceiling: int) -> ResizePlan {
    if native_w > native_h {
        if native_w <= ceiling {
            ResizePlan::KeepOriginal
        } else {
            ResizePlan::Resize { width: ceiling as u32, height: scaled_side(ceiling, req_h, req_w) as u32 }
        }
    } else {
        if native_h <= ceiling {
            ResizePlan::KeepOriginal
        } else {
            ResizePlan::Resize { width: scaled_side(ceiling, req_w, req_h) as u32, height: ceiling as u32 }
        }
    }
}

/// The companion side of a resize: the ceiling scaled by the requested ratio.
pub fn scale_side(ceiling: u32, num: u32, den: u32) -> (r: u32)
    ensures
        r == scaled_side(ceiling as int, num as int, den as int),
{
    if den == 0 {
        if num == 0 { 0 } else { u32::MAX }
    } else {
        proof {
            assert(ceiling as int * num as int <= u32::MAX as int * u32::MAX as int) by (nonlinear_arith);
        }
        let prod: u64 = ceiling as u64 * num as u64;
        let q: u64 = prod / den as u64;
        if q > u32::MAX as u64 {
            u32::MAX
        } else {
            q as u32
        }
    }
}

/// Decides whether an image of `native_w` x `native_h` pixels needs resizing
/// for a request of `req_w` x `req_h` under the bucket `ceiling`. The long axis
/// (the height when the sides are equal) is capped at the ceiling and the other
/// side follows the requested aspect ratio.
pub fn plan_resize(native_w: u32, native_h: u32, req_w: u32, req_h: u32, ceiling: u32) -> (r: ResizePlan)
    ensures
        r == spec_plan(native_w as int, native_h as int, req_w as int, req_h as int, ceiling as int),
        (r == ResizePlan::KeepOriginal) == (native_w <= ceiling && native_h <= ceiling),
{
    if native_w > native_h {
        if native_w <= ceiling {
            ResizePlan::KeepOriginal
        } else {
            ResizePlan::Resize { width: ceiling, height: scale_side(ceiling, req_h, req_w) }
        }
    } else {
        if native_h <= ceiling {
            ResizePlan::KeepOriginal
        } else {
            ResizePlan::Resize { width: scale_side(ceiling, req_w, req_h), height: ceiling }
        }
    }
}

/// For a source wider than tall that exceeds the ceiling, the width becomes the
/// ceiling and the height is `ceiling * req_h / req_w`, truncated.
pub proof fn lemma_wide_keeps_requested_ratio(native_w: u32, native_h: u32, req_w: u32, req_h: u32, ceiling: u32)
    requires
        native_w > native_h,
        native_w > ceiling,
        req_w > 0,
        ceiling as int * req_h as int / req_w as int <= u32::MAX,
    ensures
        spec_plan(native_w as int, native_h as int, req_w as int, req_h as int, ceiling as int)
            == (ResizePlan::Resize { width: ceiling, height: (ceiling as int * req_h as int / req_w as int) as u32 }),
{
}

} // verus!
