use vstd::prelude::*;

verus! {

/// The `COLORREF` value 0x00BBGGRR that holds the three channels.
pub open spec fn colorref(r: u8, g: u8, b: u8) -> int {
    r + g * 0x100 + b * 0x1_0000
}

/// Packs red, green and blue channels into a Win32 `COLORREF` (the `RGB`
/// macro of wingdi.h). Each channel can be read back from its byte.
pub fn rgb(r: u8, g: u8, b: u8) -> (c: u32)
    ensures
        c == colorref(r, g, b),
        c & 0xff == r,
        (c >> 8u32) & 0xff == g,
        c >> 16u32 == b,
{
    let c: u32 = (r as u32) | ((g as u32) << 8u32) | ((b as u32) << 16u32);
    assert(c == r + g * 0x100 + b * 0x1_0000 && c & 0xff == r && (c >> 8u32) & 0xff == g
        && c >> 16u32 == b) by (bit_vector)
        requires
            c == (r as u32) | ((g as u32) << 8u32) | ((b as u32) << 16u32),
    ;
    c
}

} // verus!
