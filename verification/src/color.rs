use vstd::prelude::*;

verus! {

/// An 8-bit RGBA color.
#[derive(Debug, Clone, Copy, PartialEq, Eq, Hash, Structural)]
pub struct Rgba {
    pub r: u8,
    pub g: u8,
    pub b: u8,
    pub a: u8,
}

impl Rgba {
    /// An opaque color.
    pub fn rgb(r: u8, g: u8, b: u8) -> (c: Rgba)
        ensures
            c == (Rgba { r, g, b, a: 255 }),
    {
        Rgba { r, g, b, a: 255 }
    }

    /// The same color with another alpha.
    pub fn with_alpha(self, alpha: u8) -> (c: Rgba)
        ensures
            c == (Rgba { a: alpha, ..self }),
    {
        Rgba { a: alpha, ..self }
    }

    pub fn black() -> (c: Rgba)
        ensures
            c == (Rgba { r: 0, g: 0, b: 0, a: 255 }),
    {
        Rgba::rgb(0, 0, 0)
    }

    pub fn white() -> (c: Rgba)
        ensures
            c == (Rgba { r: 255, g: 255, b: 255, a: 255 }),
    {
        Rgba::rgb(255, 255, 255)
    }
}

/// The palette that annotations are drawn in.
pub open spec fn spec_annotation_colors() -> Seq<Rgba> {
    seq![
        Rgba { r: 0xe8, g: 0x11, b: 0x23, a: 255 },
        Rgba { r: 0xff, g: 0x8c, b: 0x00, a: 255 },
        Rgba { r: 0xff, g: 0xd7, b: 0x00, a: 255 },
        Rgba { r: 0x10, g: 0x89, b: 0x3e, a: 255 },
        Rgba { r: 0x00, g: 0x78, b: 0xd4, a: 255 },
        Rgba { r: 0x88, g: 0x17, b: 0x98, a: 255 },
        Rgba { r: 255, g: 255, b: 255, a: 255 },
        Rgba { r: 0, g: 0, b: 0, a: 255 },
    ]
}

pub fn annotation_colors() -> (colors: [Rgba; 8])
    ensures
        colors@ == spec_annotation_colors(),
{
    let colors = [
        Rgba::rgb(0xe8, 0x11, 0x23),
        Rgba::rgb(0xff, 0x8c, 0x00),
        Rgba::rgb(0xff, 0xd7, 0x00),
        Rgba::rgb(0x10, 0x89, 0x3e),
        Rgba::rgb(0x00, 0x78, 0xd4),
        Rgba::rgb(0x88, 0x17, 0x98),
        Rgba::white(),
        Rgba::black(),
    ];
    assert(colors@ =~= spec_annotation_colors());
    colors
}

/// The colors offered in the overlay's option bar.
pub open spec fn spec_toolbar_colors() -> Seq<Rgba> {
    seq![
        Rgba { r: 0x00, g: 0x78, b: 0xd4, a: 255 },
        Rgba { r: 0x10, g: 0x89, b: 0x3e, a: 255 },
        Rgba { r: 0xff, g: 0xd7, b: 0x00, a: 255 },
        Rgba { r: 0x50, g: 0x50, b: 0x50, a: 255 },
        Rgba { r: 255, g: 255, b: 255, a: 255 },
        Rgba { r: 0xe8, g: 0x11, b: 0x23, a: 255 },
        Rgba { r: 0, g: 0, b: 0, a: 255 },
    ]
}

pub fn toolbar_colors() -> (colors: [Rgba; 7])
    ensures
        colors@ == spec_toolbar_colors(),
{
    let colors = [
        Rgba::rgb(0x00, 0x78, 0xd4),
        Rgba::rgb(0x10, 0x89, 0x3e),
        Rgba::rgb(0xff, 0xd7, 0x00),
        Rgba::rgb(0x50, 0x50, 0x50),
        Rgba::white(),
        Rgba::rgb(0xe8, 0x11, 0x23),
        Rgba::black(),
    ];
    assert(colors@ =~= spec_toolbar_colors());
    colors
}

} // verus!
