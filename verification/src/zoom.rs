//! The zoom computations behind the stateless zoom commands.
//!
//! Scales are kept as exact ratios so the arithmetic can be verified;
//! the host turns a ratio into whatever number its renderer wants.
//! `zoom-reset` returns the fixed default scale, `zoom-fit-width`
//! derives the scale from the viewport and page widths accounting for
//! the fixed shadow margin on both sides, and `zoom-in` / `zoom-out`
//! step the current scale (multiplied by any active transient
//! pinch-zoom factor) by the fixed step.

use vstd::prelude::*;

verus! {

/// The fixed default scale, as a ratio.
pub const SCALE_DEFAULT_NUM: u64 = 1;

pub const SCALE_DEFAULT_DEN: u64 = 1;

/// The fixed step of `zoom-in` and `zoom-out`: one tenth.
pub const ZOOM_STEP_NUM: u64 = 1;

pub const ZOOM_STEP_DEN: u64 = 10;

/// An exact zoom scale: the factor `num / den`.
#[derive(Clone, Copy, PartialEq, Eq, Structural, Debug)]
pub struct Scale {
    pub num: u64,
    pub den: u64,
}

impl Scale {
    /// A scale is well formed when its denominator is positive.
    pub open spec fn wf(self) -> bool {
        self.den > 0
    }
}

/// The fixed default scale that `zoom-reset` restores.
pub fn scale_reset() -> (r: Scale)
    ensures
        r.num == SCALE_DEFAULT_NUM,
        r.den == SCALE_DEFAULT_DEN,
        r.wf(),
{
    Scale { num: SCALE_DEFAULT_NUM, den: SCALE_DEFAULT_DEN }
}

/// The scale that fits one page across the viewport: the viewport
/// width minus the shadow margin on both sides, divided by the page
/// width. Fails exactly when the page width is zero or the two shadow
/// margins do not fit in the viewport.
pub fn scale_fit_width(viewport_width: u64, shadow_width: u64, page_width: u64) -> (r: Option<
    Scale,
>)
    ensures
        (page_width > 0 && 2 * shadow_width <= viewport_width) <==> r is Some,
        r matches Some(s) ==> s == (Scale {
            num: (viewport_width - 2 * shadow_width) as u64,
            den: page_width,
        }) && s.wf(),
{
    if page_width == 0 {
        return None;
    }
    match shadow_width.checked_mul(2) {
        None => None,
        Some(margin) => {
            if margin <= viewport_width {
                Some(Scale { num: viewport_width - margin, den: page_width })
            } else {
                None
            }
        },
    }
}

/// The numerator of `scale * pinch + step` over the common denominator
/// `scale.den * pinch.den * ZOOM_STEP_DEN`.
pub open spec fn zoom_in_num(scale: Scale, pinch: Scale) -> int {
    scale.num * pinch.num * ZOOM_STEP_DEN + ZOOM_STEP_NUM * scale.den * pinch.den
}

/// The numerator of `scale * pinch - step` over the same common
/// denominator; negative when the step undercuts the product.
pub open spec fn zoom_out_num(scale: Scale, pinch: Scale) -> int {
    scale.num * pinch.num * ZOOM_STEP_DEN - ZOOM_STEP_NUM * scale.den * pinch.den
}

/// The common denominator of the stepped scale.
pub open spec fn zoom_step_den(scale: Scale, pinch: Scale) -> int {
    scale.den * pinch.den * ZOOM_STEP_DEN
}

/// One `zoom-in` step: the current scale times the transient
/// pinch-zoom factor, plus the fixed step. Fails exactly when the
/// exact result does not fit the ratio's machine words.
pub fn scale_zoom_in(scale: Scale, pinch: Scale) -> (r: Option<Scale>)
    requires
        scale.wf(),
        pinch.wf(),
    ensures
        (zoom_in_num(scale, pinch) <= u64::MAX && zoom_step_den(scale, pinch) <= u64::MAX) <==> r
            is Some,
        r matches Some(s) ==> s.num == zoom_in_num(scale, pinch) && s.den == zoom_step_den(
            scale,
            pinch,
        ) && s.wf(),
{
    let prod = match scale.num.checked_mul(pinch.num) {
        None => {
            return None;
        },
        Some(p) => p,
    };
    let prod_stepped = match prod.checked_mul(ZOOM_STEP_DEN) {
        None => {
            return None;
        },
        Some(p) => p,
    };
    let den_prod = match scale.den.checked_mul(pinch.den) {
        None => {
            return None;
        },
        Some(d) => d,
    };
    let step_part = den_prod;  // ZOOM_STEP_NUM is one
    let num = match prod_stepped.checked_add(step_part) {
        None => {
            return None;
        },
        Some(n) => n,
    };
    let den = match den_prod.checked_mul(ZOOM_STEP_DEN) {
        None => {
            return None;
        },
        Some(d) => d,
    };
    proof {
        assert(scale.den * pinch.den >= 1) by (nonlinear_arith)
            requires
                scale.den >= 1,
                pinch.den >= 1,
        ;
    }
    Some(Scale { num, den })
}

/// One `zoom-out` step: the current scale times the transient
/// pinch-zoom factor, minus the fixed step. Fails exactly when the
/// step undercuts the product or the exact result does not fit the
/// ratio's machine words.
pub fn scale_zoom_out(scale: Scale, pinch: Scale) -> (r: Option<Scale>)
    requires
        scale.wf(),
        pinch.wf(),
    ensures
        (0 <= zoom_out_num(scale, pinch) && zoom_in_num(scale, pinch) <= u64::MAX + ZOOM_STEP_NUM
            * scale.den * pinch.den && zoom_step_den(scale, pinch) <= u64::MAX) <==> r is Some,
        r matches Some(s) ==> s.num == zoom_out_num(scale, pinch) && s.den == zoom_step_den(
            scale,
            pinch,
        ) && s.wf(),
{
    let prod = match scale.num.checked_mul(pinch.num) {
        None => {
            return None;
        },
        Some(p) => p,
    };
    let prod_stepped = match prod.checked_mul(ZOOM_STEP_DEN) {
        None => {
            return None;
        },
        Some(p) => p,
    };
    let den_prod = match scale.den.checked_mul(pinch.den) {
        None => {
            return None;
        },
        Some(d) => d,
    };
    let num = match prod_stepped.checked_sub(den_prod) {
        None => {
            return None;
        },
        Some(n) => n,
    };
    let den = match den_prod.checked_mul(ZOOM_STEP_DEN) {
        None => {
            return None;
        },
        Some(d) => d,
    };
    proof {
        assert(scale.den * pinch.den >= 1) by (nonlinear_arith)
            requires
                scale.den >= 1,
                pinch.den >= 1,
        ;
    }
    Some(Scale { num, den })
}

} // verus!
