use vstd::prelude::*;

verus! {

/// Space kept free beside a layer that is narrowed to fit the output, and
/// taken off the canvas size when a layer's image cannot be decoded.
pub const MARGIN: u32 = 20;

/// A width and a height in canvas units.
#[derive(Clone, Copy, Debug, PartialEq, Eq, Structural)]
pub struct Size {
    pub width: u32,
    pub height: u32,
}

/// An axis-aligned rectangle: its top-left corner and its extent.
#[derive(Clone, Copy, Debug, PartialEq, Eq, Structural)]
pub struct Rect {
    pub x: i32,
    pub y: i32,
    pub width: u32,
    pub height: u32,
}

/// The drawn width of content `width` units wide in an output `bounds_width`
/// units wide: narrowed to the bounds less the margin (never below zero) when
/// it does not fit, else kept.
pub open spec fn fit_width(width: nat, bounds_width: nat) -> nat {
    if width > bounds_width {
        if bounds_width > MARGIN {
            (bounds_width - MARGIN) as nat
        } else {
            0
        }
    } else {
        width
    }
}

/// The drawn height that goes with `fit_width`: scaled by the same factor as
/// the width (rounded down) when the width was narrowed, else kept.
pub open spec fn fit_height(width: nat, height: nat, bounds_width: nat) -> nat {
    if width > bounds_width {
        fit_width(width, bounds_width) * height / width
    } else {
        height
    }
}

/// The size at which content of size `content` is drawn into an output
/// `bounds_width` units wide.
pub open spec fn fit_spec(content: Size, bounds_width: u32) -> Size {
    Size {
        width: fit_width(content.width as nat, bounds_width as nat) as u32,
        height: fit_height(content.width as nat, content.height as nat, bounds_width as nat) as u32,
    }
}

/// Fits content to the width of the output while keeping its aspect ratio.
pub fn fit_to_bounds(content: Size, bounds_width: u32) -> (r: Size)
    requires
        content.width > 0,
    ensures
        r == fit_spec(content, bounds_width),
        r.width <= content.width,
        r.height <= content.height,
{
    if content.width > bounds_width {
        let w: u32 = if bounds_width > MARGIN {
            bounds_width - MARGIN
        } else {
            0
        };
        proof {
            assert((w as u64) * (content.height as u64) <= 0xffff_ffffu64 * 0xffff_ffffu64)
                by (nonlinear_arith)
                requires w <= 0xffff_ffffu64, content.height <= 0xffff_ffffu64;
        }
        let prod: u64 = (w as u64) * (content.height as u64);
        let h: u64 = prod / (content.width as u64);
        proof {
            assert(w < content.width);
            assert(prod <= (content.width as u64) * (content.height as u64)) by (nonlinear_arith)
                requires w < content.width, prod == (w as u64) * (content.height as u64);
            assert(h <= content.height) by (nonlinear_arith)
                requires
                    prod <= (content.width as int) * (content.height as int),
                    h as int == prod as int / (content.width as int),
                    content.width > 0;
        }
        Size { width: w, height: h as u32 }
    } else {
        content
    }
}

} // verus!

verus! {

/// The size at which a canvas of size `canvas` is shown in a space
/// `available_width` wide: narrowed to that width, with its height scaled
/// alike (rounded down), where it is wider; `None` where it fits, and then
/// fills the space.
pub fn display_size(canvas: Size, available_width: u32) -> (r: Option<Size>)
    requires
        canvas.width > 0,
    ensures
        canvas.width > available_width ==> r == Some(
            Size {
                width: available_width,
                height: ((available_width as nat) * (canvas.height as nat) / (canvas.width as nat)) as u32,
            },
        ),
        canvas.width <= available_width ==> r is None,
{
    if canvas.width > available_width {
        proof {
            assert((available_width as u64) * (canvas.height as u64) <= 0xffff_ffffu64 * 0xffff_ffffu64)
                by (nonlinear_arith)
                requires available_width <= 0xffff_ffffu64, canvas.height <= 0xffff_ffffu64;
        }
        let prod: u64 = (available_width as u64) * (canvas.height as u64);
        let h: u64 = prod / (canvas.width as u64);
        proof {
            assert(h <= canvas.height) by (nonlinear_arith)
                requires
                    available_width < canvas.width,
                    prod == (available_width as int) * (canvas.height as int),
                    h as int == prod as int / (canvas.width as int),
                    canvas.width > 0;
        }
        Some(Size { width: available_width, height: h as u32 })
    } else {
        None
    }
}

} // verus!
