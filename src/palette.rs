//! The fixed palette of thirty-six colors.
use vstd::prelude::*;

verus! {

/// The palette entry at index `i` (for `i` below 36).
pub open spec fn palette(i: nat) -> Seq<char> {
    if i == 0 {
        "#FF0000"@
    } else if i == 1 {
        "#FF2B00"@
    } else if i == 2 {
        "#FF5500"@
    } else if i == 3 {
        "#FF8000"@
    } else if i == 4 {
        "#FFAA00"@
    } else if i == 5 {
        "#FFD500"@
    } else if i == 6 {
        "#FFFF00"@
    } else if i == 7 {
        "#D4FF00"@
    } else if i == 8 {
        "#AAFF00"@
    } else if i == 9 {
        "#80FF00"@
    } else if i == 10 {
        "#55FF00"@
    } else if i == 11 {
        "#2BFF00"@
    } else if i == 12 {
        "#00FF00"@
    } else if i == 13 {
        "#00FF2A"@
    } else if i == 14 {
        "#00FF2A"@
    } else if i == 15 {
        "#00FF80"@
    } else if i == 16 {
        "#00FFAA"@
    } else if i == 17 {
        "#00FFD4"@
    } else if i == 18 {
        "#00FFFF"@
    } else if i == 19 {
        "#00D4FF"@
    } else if i == 20 {
        "#00AAFF"@
    } else if i == 21 {
        "#0080FF"@
    } else if i == 22 {
        "#0055FF"@
    } else if i == 23 {
        "#002AFF"@
    } else if i == 24 {
        "#0000FF"@
    } else if i == 25 {
        "#2A00FF"@
    } else if i == 26 {
        "#0000FF"@
    } else if i == 27 {
        "#5500FF"@
    } else if i == 28 {
        "#8000FF"@
    } else if i == 29 {
        "#AA00FF"@
    } else if i == 30 {
        "#D500FF"@
    } else if i == 31 {
        "#FF00FF"@
    } else if i == 32 {
        "#FF00D5"@
    } else if i == 33 {
        "#FF00AA"@
    } else if i == 34 {
        "#FF0080"@
    } else {
        "#FF0055"@
    }
}

/// Number of palette entries.
pub const PALETTE_LEN: usize = 36;

/// The palette entry at index `i`.
pub fn palette_color(i: usize) -> (r: &'static str)
    requires
        i < PALETTE_LEN,
    ensures
        r@ == palette(i as nat),
{
    if i == 0 {
        "#FF0000"
    } else if i == 1 {
        "#FF2B00"
    } else if i == 2 {
        "#FF5500"
    } else if i == 3 {
        "#FF8000"
    } else if i == 4 {
        "#FFAA00"
    } else if i == 5 {
        "#FFD500"
    } else if i == 6 {
        "#FFFF00"
    } else if i == 7 {
        "#D4FF00"
    } else if i == 8 {
        "#AAFF00"
    } else if i == 9 {
        "#80FF00"
    } else if i == 10 {
        "#55FF00"
    } else if i == 11 {
        "#2BFF00"
    } else if i == 12 {
        "#00FF00"
    } else if i == 13 {
        "#00FF2A"
    } else if i == 14 {
        "#00FF2A"
    } else if i == 15 {
        "#00FF80"
    } else if i == 16 {
        "#00FFAA"
    } else if i == 17 {
        "#00FFD4"
    } else if i == 18 {
        "#00FFFF"
    } else if i == 19 {
        "#00D4FF"
    } else if i == 20 {
        "#00AAFF"
    } else if i == 21 {
        "#0080FF"
    } else if i == 22 {
        "#0055FF"
    } else if i == 23 {
        "#002AFF"
    } else if i == 24 {
        "#0000FF"
    } else if i == 25 {
        "#2A00FF"
    } else if i == 26 {
        "#0000FF"
    } else if i == 27 {
        "#5500FF"
    } else if i == 28 {
        "#8000FF"
    } else if i == 29 {
        "#AA00FF"
    } else if i == 30 {
        "#D500FF"
    } else if i == 31 {
        "#FF00FF"
    } else if i == 32 {
        "#FF00D5"
    } else if i == 33 {
        "#FF00AA"
    } else if i == 34 {
        "#FF0080"
    } else {
        "#FF0055"
    }
}

} // verus!
