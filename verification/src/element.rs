//! Monster elements and the symbols and colours the screens show for them.

use vstd::prelude::*;

verus! {

/// Elemental affinity of a monster or skill.
#[derive(Clone, Copy, Debug, PartialEq, Eq, Structural)]
pub enum Element {
    Fire,
    Water,
    Earth,
    Wind,
    Thunder,
    Shadow,
    Holy,
    Spirit,
    Neutral,
}

/// An RGB colour with 8 bits per channel.
#[derive(Clone, Copy, Debug, PartialEq, Eq, Structural)]
pub struct Rgb {
    pub r: u8,
    pub g: u8,
    pub b: u8,
}

/// Builds a colour value in spec code.
pub open spec fn rgb(r: u8, g: u8, b: u8) -> Rgb {
    Rgb { r, g, b }
}

/// Letter shown for an element where Wind is written `N`.
pub open spec fn letter_n(e: Element) -> char {
    match e {
        Element::Fire => 'F',
        Element::Water => 'W',
        Element::Earth => 'E',
        Element::Wind => 'N',
        Element::Thunder => 'T',
        Element::Shadow => 'S',
        Element::Holy => 'H',
        Element::Spirit => 'G',
        Element::Neutral => 'N',
    }
}

/// Letter shown for an element where Wind is written `A` (air).
pub open spec fn letter_a(e: Element) -> char {
    if e == Element::Wind { 'A' } else { letter_n(e) }
}

/// Letter of an element, Wind written `N`.
pub fn element_char(e: Element) -> (c: char)
    ensures
        c == letter_n(e),
{
    match e {
        Element::Fire => 'F',
        Element::Water => 'W',
        Element::Earth => 'E',
        Element::Wind => 'N',
        Element::Thunder => 'T',
        Element::Shadow => 'S',
        Element::Holy => 'H',
        Element::Spirit => 'G',
        Element::Neutral => 'N',
    }
}

/// Letter of an element, Wind written `A`.
pub fn element_char_air(e: Element) -> (c: char)
    ensures
        c == letter_a(e),
{
    match e {
        Element::Wind => 'A',
        _ => element_char(e),
    }
}

/// Display name of an element.
pub fn element_name(e: Element) -> (s: &'static str)
    ensures
        s@ == name_of(e)@,
{
    match e {
        Element::Fire => "Fire",
        Element::Water => "Water",
        Element::Earth => "Earth",
        Element::Wind => "Wind",
        Element::Thunder => "Thunder",
        Element::Shadow => "Shadow",
        Element::Holy => "Holy",
        Element::Spirit => "Ghost",
        Element::Neutral => "Neutral",
    }
}

/// The name of each element.
pub open spec fn name_of(e: Element) -> &'static str {
    match e {
        Element::Fire => "Fire",
        Element::Water => "Water",
        Element::Earth => "Earth",
        Element::Wind => "Wind",
        Element::Thunder => "Thunder",
        Element::Shadow => "Shadow",
        Element::Holy => "Holy",
        Element::Spirit => "Ghost",
        Element::Neutral => "Neutral",
    }
}

/// Palette of the resource and roster screens.
pub open spec fn palette_bright(e: Element) -> Rgb {
    match e {
        Element::Fire => rgb(255, 100, 50),
        Element::Water => rgb(50, 150, 255),
        Element::Earth => rgb(150, 120, 50),
        Element::Wind => rgb(100, 220, 150),
        Element::Thunder => rgb(255, 255, 100),
        Element::Shadow => rgb(150, 50, 200),
        Element::Holy => rgb(255, 255, 200),
        Element::Spirit => rgb(180, 180, 220),
        Element::Neutral => rgb(180, 180, 180),
    }
}

/// Palette of the expedition screens.
pub open spec fn palette_expedition(e: Element) -> Rgb {
    match e {
        Element::Fire => rgb(255, 100, 50),
        Element::Water => rgb(50, 150, 255),
        Element::Earth => rgb(150, 100, 50),
        Element::Wind => rgb(100, 200, 100),
        Element::Thunder => rgb(255, 255, 50),
        Element::Shadow => rgb(100, 50, 150),
        Element::Holy => rgb(255, 255, 200),
        Element::Spirit => rgb(150, 150, 200),
        Element::Neutral => rgb(180, 180, 180),
    }
}

/// Palette of the home and world map screens.
pub open spec fn palette_map(e: Element) -> Rgb {
    match e {
        Element::Fire => rgb(255, 100, 50),
        Element::Water => rgb(50, 150, 255),
        Element::Earth => rgb(100, 180, 80),
        Element::Wind => rgb(100, 200, 150),
        Element::Thunder => rgb(255, 255, 50),
        Element::Shadow => rgb(150, 100, 200),
        Element::Holy => rgb(255, 255, 200),
        Element::Spirit => rgb(180, 180, 220),
        Element::Neutral => rgb(180, 180, 180),
    }
}

/// Colour of an element on the resource and roster screens.
pub fn element_color(e: Element) -> (c: Rgb)
    ensures
        c == palette_bright(e),
{
    match e {
        Element::Fire => Rgb { r: 255, g: 100, b: 50 },
        Element::Water => Rgb { r: 50, g: 150, b: 255 },
        Element::Earth => Rgb { r: 150, g: 120, b: 50 },
        Element::Wind => Rgb { r: 100, g: 220, b: 150 },
        Element::Thunder => Rgb { r: 255, g: 255, b: 100 },
        Element::Shadow => Rgb { r: 150, g: 50, b: 200 },
        Element::Holy => Rgb { r: 255, g: 255, b: 200 },
        Element::Spirit => Rgb { r: 180, g: 180, b: 220 },
        Element::Neutral => Rgb { r: 180, g: 180, b: 180 },
    }
}

/// Colour of an element on the expedition screens.
pub fn element_color_expedition(e: Element) -> (c: Rgb)
    ensures
        c == palette_expedition(e),
{
    match e {
        Element::Earth => Rgb { r: 150, g: 100, b: 50 },
        Element::Wind => Rgb { r: 100, g: 200, b: 100 },
        Element::Thunder => Rgb { r: 255, g: 255, b: 50 },
        Element::Shadow => Rgb { r: 100, g: 50, b: 150 },
        Element::Spirit => Rgb { r: 150, g: 150, b: 200 },
        _ => element_color(e),
    }
}

/// Colour of an element on the home and world map screens.
pub fn element_color_map(e: Element) -> (c: Rgb)
    ensures
        c == palette_map(e),
{
    match e {
        Element::Earth => Rgb { r: 100, g: 180, b: 80 },
        Element::Wind => Rgb { r: 100, g: 200, b: 150 },
        Element::Thunder => Rgb { r: 255, g: 255, b: 50 },
        Element::Shadow => Rgb { r: 150, g: 100, b: 200 },
        _ => element_color(e),
    }
}

} // verus!
