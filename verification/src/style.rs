use vstd::prelude::*;

verus! {

/// An opaque RGB colour, the unit in which the stroke palette is written.
#[derive(Clone, Copy, PartialEq, Eq, Structural, Debug)]
pub struct Color {
    pub r: u8,
    pub g: u8,
    pub b: u8,
}

/// How a drawn primitive is outlined: a line width (in plot pixels) and a
/// colour.
#[derive(Clone, Copy, PartialEq, Eq, Structural, Debug)]
pub struct Stroke {
    pub width: u32,
    pub color: Color,
}

/// The fixed four-colour palette that submitted queries cycle through:
/// red, blue, green, yellow, in that order.
pub open spec fn palette_spec(i: int) -> Color {
    if i == 0 {
        Color { r: 255, g: 0, b: 0 }
    } else if i == 1 {
        Color { r: 0, g: 0, b: 255 }
    } else if i == 2 {
        Color { r: 0, g: 255, b: 0 }
    } else {
        Color { r: 255, g: 255, b: 0 }
    }
}

/// The stroke a query receives when it is inserted as the `count`-th one:
/// width 1, colour cycled deterministically through the palette.
pub open spec fn stroke_spec(count: int) -> Stroke {
    Stroke { width: 1, color: palette_spec(count % 4) }
}

/// Picks the stroke for a query inserted when `count` queries already exist.
pub fn stroke_for_count(count: usize) -> (s: Stroke)
    ensures
        s == stroke_spec(count as int),
{
    let color = match count % 4 {
        0 => Color { r: 255, g: 0, b: 0 },
        1 => Color { r: 0, g: 0, b: 255 },
        2 => Color { r: 0, g: 255, b: 0 },
        _ => Color { r: 255, g: 255, b: 0 },
    };
    Stroke { width: 1, color }
}

} // verus!
