//! Border styles and the characters that draw them.

use vstd::prelude::*;

verus! {

/// Box border styles.
#[derive(Debug, Clone, Copy, PartialEq, Eq, Structural)]
pub enum BorderStyle {
    NoBorder,
    Single,
    Double,
    Rounded,
    Heavy,
    Ascii,
}

/// Border characters for drawing boxes.
#[derive(Debug, Clone, Copy, PartialEq, Eq, Structural)]
pub struct BorderChars {
    pub horizontal: char,
    pub vertical: char,
    pub top_left: char,
    pub top_right: char,
    pub bottom_left: char,
    pub bottom_right: char,
}

impl BorderChars {
    /// Blank borders.
    pub fn none() -> (r: Self)
        ensures
            r == (BorderChars { horizontal: ' ', vertical: ' ', top_left: ' ', top_right: ' ', bottom_left: ' ', bottom_right: ' ' }),
    {
        BorderChars { horizontal: ' ', vertical: ' ', top_left: ' ', top_right: ' ', bottom_left: ' ', bottom_right: ' ' }
    }

    /// Single light lines.
    pub fn single() -> (r: Self)
        ensures
            r == (BorderChars { horizontal: '\u{2500}', vertical: '\u{2502}', top_left: '\u{250C}', top_right: '\u{2510}', bottom_left: '\u{2514}', bottom_right: '\u{2518}' }),
    {
        BorderChars { horizontal: '\u{2500}', vertical: '\u{2502}', top_left: '\u{250C}', top_right: '\u{2510}', bottom_left: '\u{2514}', bottom_right: '\u{2518}' }
    }

    /// Double lines.
    pub fn double() -> (r: Self)
        ensures
            r == (BorderChars { horizontal: '\u{2550}', vertical: '\u{2551}', top_left: '\u{2554}', top_right: '\u{2557}', bottom_left: '\u{255A}', bottom_right: '\u{255D}' }),
    {
        BorderChars { horizontal: '\u{2550}', vertical: '\u{2551}', top_left: '\u{2554}', top_right: '\u{2557}', bottom_left: '\u{255A}', bottom_right: '\u{255D}' }
    }

    /// Light lines with rounded corners.
    pub fn rounded() -> (r: Self)
        ensures
            r == (BorderChars { horizontal: '\u{2500}', vertical: '\u{2502}', top_left: '\u{256D}', top_right: '\u{256E}', bottom_left: '\u{2570}', bottom_right: '\u{256F}' }),
    {
        BorderChars { horizontal: '\u{2500}', vertical: '\u{2502}', top_left: '\u{256D}', top_right: '\u{256E}', bottom_left: '\u{2570}', bottom_right: '\u{256F}' }
    }

    /// Heavy lines.
    pub fn heavy() -> (r: Self)
        ensures
            r == (BorderChars { horizontal: '\u{2501}', vertical: '\u{2503}', top_left: '\u{250F}', top_right: '\u{2513}', bottom_left: '\u{2517}', bottom_right: '\u{251B}' }),
    {
        BorderChars { horizontal: '\u{2501}', vertical: '\u{2503}', top_left: '\u{250F}', top_right: '\u{2513}', bottom_left: '\u{2517}', bottom_right: '\u{251B}' }
    }

    /// Plain ASCII.
    pub fn ascii() -> (r: Self)
        ensures
            r == (BorderChars { horizontal: '-', vertical: '|', top_left: '+', top_right: '+', bottom_left: '+', bottom_right: '+' }),
    {
        BorderChars { horizontal: '-', vertical: '|', top_left: '+', top_right: '+', bottom_left: '+', bottom_right: '+' }
    }
}

} // verus!
