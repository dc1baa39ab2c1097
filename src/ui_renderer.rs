//! Sizes and font files of the display.

use vstd::prelude::*;

verus! {

/// A width and a height, in pixels.
#[derive(Debug, Clone, Copy)]
pub struct USize(pub (u32, u32));

impl USize {
    /// The width.
    pub fn one(&self) -> (r: u32)
        ensures
            r == self.0.0,
    {
        self.0.0
    }

    /// The height.
    pub fn two(&self) -> (r: u32)
        ensures
            r == self.0.1,
    {
        self.0.1
    }
}

impl From<(u32, u32)> for USize {
    fn from(value: (u32, u32)) -> (r: USize) {
        USize(value)
    }
}

impl vstd::std_specs::convert::FromSpecImpl<(u32, u32)> for USize {
    open spec fn obeys_from_spec() -> bool {
        true
    }

    open spec fn from_spec(v: (u32, u32)) -> USize {
        USize(v)
    }
}

/// The text sizes of the display, each with its base size in tenths of a
/// scale unit.
#[derive(Debug, Clone, Copy, PartialEq, Eq, Structural)]
pub enum FontSize {
    SuperLarge,
    LargeL,
    LargeS,
    MediumL,
    MediumM,
    MediumS,
    Small,
}

impl FontSize {
    pub open spec fn base_of(self) -> u32 {
        match self {
            FontSize::SuperLarge => 160,
            FontSize::LargeL => 150,
            FontSize::LargeS => 90,
            FontSize::MediumL => 50,
            FontSize::MediumM => 40,
            FontSize::MediumS => 30,
            FontSize::Small => 20,
        }
    }

    /// The base size of this text size, before scaling to the screen.
    pub fn base_size(self) -> (r: u32)
        ensures
            r == self.base_of(),
    {
        match self {
            FontSize::SuperLarge => 160,
            FontSize::LargeL => 150,
            FontSize::LargeS => 90,
            FontSize::MediumL => 50,
            FontSize::MediumM => 40,
            FontSize::MediumS => 30,
            FontSize::Small => 20,
        }
    }
}

/// The fonts that the display ships with.
#[derive(Debug, Clone, Copy, PartialEq, Eq, Structural)]
pub enum AvailableFonts {
    Roboto,
    JetbrainsMono,
}

impl AvailableFonts {
    pub open spec fn path_of(self) -> Seq<char> {
        match self {
            AvailableFonts::Roboto => "/home/jasper/res/Roboto-Medium.ttf"@,
            AvailableFonts::JetbrainsMono => "/home/jasper/res/JetBrainsMono-Medium.ttf"@,
        }
    }

    /// The file of this font.
    pub fn to_path(&self) -> (r: &'static str)
        ensures
            r@ == self.path_of(),
    {
        match self {
            AvailableFonts::Roboto => "/home/jasper/res/Roboto-Medium.ttf",
            AvailableFonts::JetbrainsMono => "/home/jasper/res/JetBrainsMono-Medium.ttf",
        }
    }
}

} // verus!
