use vstd::prelude::*;

verus! {

/// One color of the fixed palette the theme channels cycle through.
#[derive(Clone, Copy, Debug, PartialEq, Eq, Structural)]
pub enum ColorPreset {
    Red,
    Crimson,
    Orange,
    Gold,
    Green,
    Teal,
    Blue,
    Indigo,
    Violet,
}

/// A color as the red, green and blue parts of its screen value.
#[derive(Clone, Copy, Debug, PartialEq, Eq, Structural)]
pub struct Rgb {
    pub r: u8,
    pub g: u8,
    pub b: u8,
}

impl ColorPreset {
    /// The preset after this one; the palette wraps around.
    pub open spec fn next_spec(self) -> ColorPreset {
        match self {
            ColorPreset::Red => ColorPreset::Crimson,
            ColorPreset::Crimson => ColorPreset::Orange,
            ColorPreset::Orange => ColorPreset::Gold,
            ColorPreset::Gold => ColorPreset::Green,
            ColorPreset::Green => ColorPreset::Teal,
            ColorPreset::Teal => ColorPreset::Blue,
            ColorPreset::Blue => ColorPreset::Indigo,
            ColorPreset::Indigo => ColorPreset::Violet,
            ColorPreset::Violet => ColorPreset::Red,
        }
    }

    pub fn next(&self) -> (r: ColorPreset)
        ensures
            r == self.next_spec(),
    {
        match self {
            ColorPreset::Red => ColorPreset::Crimson,
            ColorPreset::Crimson => ColorPreset::Orange,
            ColorPreset::Orange => ColorPreset::Gold,
            ColorPreset::Gold => ColorPreset::Green,
            ColorPreset::Green => ColorPreset::Teal,
            ColorPreset::Teal => ColorPreset::Blue,
            ColorPreset::Blue => ColorPreset::Indigo,
            ColorPreset::Indigo => ColorPreset::Violet,
            ColorPreset::Violet => ColorPreset::Red,
        }
    }

    /// The preset's screen value.
    pub open spec fn rgb_spec(self) -> Rgb {
        match self {
            ColorPreset::Red => Rgb { r: 215, g: 0, b: 0 },
            ColorPreset::Crimson => Rgb { r: 175, g: 0, b: 95 },
            ColorPreset::Orange => Rgb { r: 255, g: 135, b: 0 },
            ColorPreset::Gold => Rgb { r: 255, g: 215, b: 0 },
            ColorPreset::Green => Rgb { r: 0, g: 175, b: 0 },
            ColorPreset::Teal => Rgb { r: 0, g: 175, b: 175 },
            ColorPreset::Blue => Rgb { r: 0, g: 95, b: 215 },
            ColorPreset::Indigo => Rgb { r: 95, g: 0, b: 215 },
            ColorPreset::Violet => Rgb { r: 175, g: 95, b: 255 },
        }
    }

    pub fn to_rgb(&self) -> (r: Rgb)
        ensures
            r == self.rgb_spec(),
    {
        match self {
            ColorPreset::Red => Rgb { r: 215, g: 0, b: 0 },
            ColorPreset::Crimson => Rgb { r: 175, g: 0, b: 95 },
            ColorPreset::Orange => Rgb { r: 255, g: 135, b: 0 },
            ColorPreset::Gold => Rgb { r: 255, g: 215, b: 0 },
            ColorPreset::Green => Rgb { r: 0, g: 175, b: 0 },
            ColorPreset::Teal => Rgb { r: 0, g: 175, b: 175 },
            ColorPreset::Blue => Rgb { r: 0, g: 95, b: 215 },
            ColorPreset::Indigo => Rgb { r: 95, g: 0, b: 215 },
            ColorPreset::Violet => Rgb { r: 175, g: 95, b: 255 },
        }
    }

    /// The whole palette, in cycling order.
    pub open spec fn palette_spec() -> Seq<ColorPreset> {
        seq![
            ColorPreset::Red,
            ColorPreset::Crimson,
            ColorPreset::Orange,
            ColorPreset::Gold,
            ColorPreset::Green,
            ColorPreset::Teal,
            ColorPreset::Blue,
            ColorPreset::Indigo,
            ColorPreset::Violet,
        ]
    }

    pub fn palette() -> (r: Vec<ColorPreset>)
        ensures
            r@ == ColorPreset::palette_spec(),
    {
        let r: Vec<ColorPreset> = vec![
            ColorPreset::Red,
            ColorPreset::Crimson,
            ColorPreset::Orange,
            ColorPreset::Gold,
            ColorPreset::Green,
            ColorPreset::Teal,
            ColorPreset::Blue,
            ColorPreset::Indigo,
            ColorPreset::Violet,
        ];
        proof {
            assert(r@ =~= ColorPreset::palette_spec());
        }
        r
    }
}

/// The three theme channels of a team, each resolved to a color.
#[derive(Clone, Copy, Debug, PartialEq, Eq, Structural)]
pub struct ColorMap {
    pub red: Rgb,
    pub green: Rgb,
    pub blue: Rgb,
}

} // verus!
