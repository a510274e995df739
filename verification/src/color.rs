use vstd::prelude::*;

verus! {

/// Red, green, blue and alpha, each from 0 to 255.
pub type RGBA = (u8, u8, u8, u8);

/// The number that the platform takes for a colour: alpha in the top byte, then
/// red, green and blue (`0xAARRGGBB`).
pub open spec fn argb(color: RGBA) -> int {
    color.3 * 0x100_0000 + color.0 * 0x1_0000 + color.1 * 0x100 + color.2
}

/// Packs `color` into the platform's `0xAARRGGBB` number.
pub fn argb_number(color: RGBA) -> (number: u32)
    ensures
        number == argb(color),
{
    let red: u32 = color.0 as u32;
    let green: u32 = color.1 as u32;
    let blue: u32 = color.2 as u32;
    let alpha: u32 = color.3 as u32;
    let number: u32 = (alpha << 24) | (red << 16) | (green << 8) | blue;
    assert(number == alpha * 0x100_0000 + red * 0x1_0000 + green * 0x100 + blue) by (bit_vector)
        requires
            number == (alpha << 24) | (red << 16) | (green << 8) | blue,
            red < 0x100,
            green < 0x100,
            blue < 0x100,
            alpha < 0x100,
    ;
    number
}

/// Every channel can be read back from the number: no two colours share one.
pub proof fn law_argb_keeps_every_channel(color: RGBA)
    ensures
        0 <= argb(color) < 0x1_0000_0000,
        argb(color) / 0x100_0000 == color.3,
        argb(color) / 0x1_0000 % 0x100 == color.0,
        argb(color) / 0x100 % 0x100 == color.1,
        argb(color) % 0x100 == color.2,
{
}

/// Two colours with one number are one colour.
pub proof fn law_argb_injective(a: RGBA, b: RGBA)
    requires
        argb(a) == argb(b),
    ensures
        a == b,
{
    law_argb_keeps_every_channel(a);
    law_argb_keeps_every_channel(b);
}

} // verus!
