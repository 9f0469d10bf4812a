//! Character maps: runs of characters from light to dense, by which the
//! brightness of a picture cell picks its character.

use vstd::prelude::*;
use vstd::string::*;

verus! {

/// Basic ASCII character set (10 characters)
pub const CHARS_BASIC: &'static str = " .:-=+*#%@";

/// Extended ASCII character set (67 characters)
pub const CHARS_EXTENDED: &'static str =
    " .'`^\",:;Il!i~+_-?][}{1)(|/tfjrxnuvczXYUJCLQ0OZmwqpdbkhao*#MW&8%B@$";

/// Full ASCII character set (92 characters)
pub const CHARS_FULL: &'static str =
    " `.-':_,^=;><+!rc*/z?sLTv)J7(|Fi{C}fI31tlu[neoZ5Yxjya]2ESwqkP6h9d4VpOGbUAKXHm8RD#$Bg0MNWQ%&@";

/// Block characters (Unicode)
pub const CHARS_BLOCKS: &'static str = " ░▒▓█";

/// Braille
pub const CHARS_BRAILLE: &'static str = " ⠁⠃⠇⠏⠟⠿⣿";

/// Dot
pub const CHARS_DOTS: &'static str = " ·∶⁚⁛⁜⁝⁞ ⣿";

/// Gradient
pub const CHARS_GRADIENT: &'static str = " ▁▂▃▄▅▆▇█";

/// Binary character (B/W)
pub const CHARS_BINARY: &'static str = " █";

/// Binary dot character
pub const CHARS_BINARY_DOTS: &'static str = " ⣿";

/// Pictograph-style character
pub const CHARS_EMOJI: &'static str = " ·•○●";

/// All available character maps
pub const CHAR_MAPS: [&'static str; 10] = [
    CHARS_BASIC,
    CHARS_EXTENDED,
    CHARS_FULL,
    CHARS_BLOCKS,
    CHARS_BRAILLE,
    CHARS_DOTS,
    CHARS_GRADIENT,
    CHARS_BINARY,
    CHARS_BINARY_DOTS,
    CHARS_EMOJI,
];

/// Character map description
pub const CHAR_MAP_NAMES: [&'static str; 10] = [
    "Basic ASCII (10 chars)",
    "Extended ASCII (67 chars)",
    "Full ASCII (92 chars)",
    "Unicode Blocks",
    "Braille Characters",
    "Dot Characters",
    "Gradient Blocks",
    "Binary (Black/White)",
    "Binary Dots",
    "Emoji Style",
];

/// The place in a map of `len` characters that a brightness picks: the
/// brightness scaled from 0..256 to 0..len.
pub open spec fn luminance_index(luminance: u8, len: nat) -> int {
    let scaled = (luminance as int) * (len as int) / 256;
    if scaled < len - 1 {
        scaled
    } else {
        len - 1
    }
}

/// The character that a brightness picks from a map; a blank from an empty
/// map.
pub open spec fn luminance_char(luminance: u8, char_map: Seq<char>) -> char {
    if char_map.len() == 0 {
        ' '
    } else {
        char_map[luminance_index(luminance, char_map.len())]
    }
}

/// Obtains a character map for a given index; indices past the last map
/// wrap around.
pub fn get_char_map(index: u8) -> (map: &'static str)
    ensures
        map@ == CHAR_MAPS[index as int % 10]@,
{
    let index: usize = (index as usize) % 10;
    CHAR_MAPS[index]
}

/// Obtains the character map name at the specified index; indices past the
/// last map wrap around.
pub fn get_char_map_name(index: u8) -> (name: &'static str)
    ensures
        name@ == CHAR_MAP_NAMES[index as int % 10]@,
{
    let index: usize = (index as usize) % 10;
    CHAR_MAP_NAMES[index]
}

/// Get the total number of character maps
pub fn char_map_count() -> (count: usize)
    ensures
        count == 10,
        count == CHAR_MAPS@.len(),
        count == CHAR_MAP_NAMES@.len(),
{
    10
}

/// Mapping lightness values (0-255) to characters
pub fn luminance_to_char(luminance: u8, char_map: &str) -> (c: char)
    ensures
        c == luminance_char(luminance, char_map@),
{
    let len: usize = char_map.unicode_len();
    if len == 0 {
        return ' ';
    }
    assert((luminance as int) * (len as int) <= 255 * 0xFFFF_FFFF_FFFF_FFFF) by (nonlinear_arith)
        requires
            luminance <= 255,
            len <= 0xFFFF_FFFF_FFFF_FFFF,
    ;
    let scaled: u128 = (luminance as u128) * (len as u128) / 256;
    let index: usize = if scaled < (len - 1) as u128 {
        scaled as usize
    } else {
        len - 1
    };
    char_map.get_char(index)
}

/// The darkest brightness picks the first character of a map, and the
/// brightest picks the last of a map of no more than 256 characters; a
/// brighter cell never picks an earlier character.
pub proof fn lemma_luminance_index(a: u8, b: u8, len: nat)
    requires
        len > 0,
        a <= b,
    ensures
        luminance_index(0, len) == 0,
        len <= 256 ==> luminance_index(255, len) == len - 1,
        0 <= luminance_index(a, len) <= luminance_index(b, len) < len,
{
    assert((a as int) * (len as int) <= (b as int) * (len as int)) by (nonlinear_arith)
        requires
            a <= b,
            len > 0,
    ;
    assert((b as int) * (len as int) < 256 * (len as int)) by (nonlinear_arith)
        requires
            b < 256,
            len > 0,
    ;
    assert(0 <= (a as int) * (len as int)) by (nonlinear_arith)
        requires
            a >= 0,
            len > 0,
    ;
}

} // verus!
