//! The resize a request asks for, and its canonical text (part of the cache keys).

use vstd::prelude::*;
use vstd::string::*;
use crate::text::{decimal_string, decimal_text, read_digits, unsigned_value};

verus! {

/// Skip the resize, fit within a box keeping the aspect ratio, or stretch to exact dimensions.
#[derive(Debug, Clone, Copy, PartialEq, Eq, Structural)]
pub enum OutputDimensions {
    Original,
    ScaledWithRatio(usize, usize),
    ScaledExact(usize, usize),
}

/// The dimensions that path segments ask for: both must read as unsigned
/// integers, else the image keeps its size.
pub open spec fn dimensions_from_text(
    width: Seq<char>,
    height: Seq<char>,
    keep_ratio: bool,
) -> OutputDimensions {
    match (unsigned_value(width), unsigned_value(height)) {
        (Some(x), Some(y)) => if x <= usize::MAX && y <= usize::MAX {
            if keep_ratio {
                OutputDimensions::ScaledWithRatio(x as usize, y as usize)
            } else {
                OutputDimensions::ScaledExact(x as usize, y as usize)
            }
        } else {
            OutputDimensions::Original
        },
        _ => OutputDimensions::Original,
    }
}

/// The canonical text of a resize.
pub open spec fn dimensions_text(d: OutputDimensions) -> Seq<char> {
    match d {
        OutputDimensions::Original => "original"@,
        OutputDimensions::ScaledExact(x, y) => decimal_text(x as nat) + "x"@ + decimal_text(
            y as nat,
        ) + " exact"@,
        OutputDimensions::ScaledWithRatio(x, y) => decimal_text(x as nat) + "x"@ + decimal_text(
            y as nat,
        ) + " keep ratio"@,
    }
}

/// Reads an unsigned integer that fits a `usize`.
fn parse_usize(s: &str) -> (r: Option<usize>)
    ensures
        match r {
            Some(v) => unsigned_value(s@) == Some(v as nat),
            None => unsigned_value(s@) is None || unsigned_value(s@)->Some_0 > usize::MAX,
        },
{
    let n = s.unicode_len();
    let start: usize = if n > 0 && s.get_char(0) == '+' {
        1
    } else {
        0
    };
    assert(s@.skip(start as int) =~= if s@.len() > 0 && s@[0] == '+' {
        s@.drop_first()
    } else {
        s@
    });
    match read_digits(s, start, usize::MAX as u64) {
        Ok(Some(v)) => Some(v as usize),
        _ => None,
    }
}

impl OutputDimensions {
    /// The dimensions that the width and height segments ask for.
    pub fn from_parts(width: &str, height: &str, keep_ratio: bool) -> (r: OutputDimensions)
        ensures
            r == dimensions_from_text(width@, height@, keep_ratio),
    {
        if let Some(x) = parse_usize(width) {
            if let Some(y) = parse_usize(height) {
                if keep_ratio {
                    return OutputDimensions::ScaledWithRatio(x, y);
                }
                return OutputDimensions::ScaledExact(x, y);
            }
        }
        OutputDimensions::Original
    }

    /// The canonical text: `original`, `{x}x{y} exact` or `{x}x{y} keep ratio`.
    pub fn to_display_string(&self) -> (r: String)
        ensures
            r@ == dimensions_text(*self),
    {
        match self {
            OutputDimensions::Original => String::from_str("original"),
            OutputDimensions::ScaledExact(x, y) => {
                let mut r = decimal_string(*x as u64);
                r.append("x");
                r.append(decimal_string(*y as u64).as_str());
                r.append(" exact");
                r
            },
            OutputDimensions::ScaledWithRatio(x, y) => {
                let mut r = decimal_string(*x as u64);
                r.append("x");
                r.append(decimal_string(*y as u64).as_str());
                r.append(" keep ratio");
                r
            },
        }
    }
}

} // verus!
