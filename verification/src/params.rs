//! The style that all debug lines share.

use vstd::prelude::*;

verus! {

/// The bit pattern of the single-precision number 1.0: the width of a line,
/// in pixels, when nobody asked for another.
pub const DEFAULT_LINE_WIDTH: u32 = 0x3F80_0000;

/// Parameters of the line renderer. They affect all lines.
#[derive(Clone, Copy, Debug, PartialEq, Eq, Structural)]
pub struct DebugLinesParams {
    /// Width of the lines in screen-space pixels: a single-precision number,
    /// kept as its IEEE-754 bit pattern.
    pub line_width: u32,
}

impl Default for DebugLinesParams {
    fn default() -> (params: DebugLinesParams)
        ensures
            params.line_width == DEFAULT_LINE_WIDTH,
    {
        DebugLinesParams { line_width: DEFAULT_LINE_WIDTH }
    }
}

/// The line width in force: that of `params` where there are any, else the
/// default.
pub open spec fn resolved_line_width(params: Option<&DebugLinesParams>) -> u32 {
    match params {
        Some(p) => p.line_width,
        None => DEFAULT_LINE_WIDTH,
    }
}

/// The line width to draw with, as a bit pattern.
pub fn resolve_line_width(params: Option<&DebugLinesParams>) -> (width: u32)
    ensures
        width == resolved_line_width(params),
        params.is_none() ==> width == DEFAULT_LINE_WIDTH,
{
    match params {
        Some(p) => p.line_width,
        None => DebugLinesParams::default().line_width,
    }
}

} // verus!
