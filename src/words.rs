//! Reading 16-bit words out of the integers that come with a host message.
//!
//! The host packs two coordinates, or a code and a flag, into one integer of a message. These
//! functions take such an integer apart, as the `LOWORD`, `HIWORD`, `GET_X_LPARAM` and
//! `GET_Y_LPARAM` helpers of the host's headers do.
use vstd::prelude::*;

verus! {

/// The number written by the lower 16 bits of `x`.
pub open spec fn low_word_of(x: int) -> int {
    x % 0x1_0000
}

/// The number written by bits 16 to 31 of `x`.
pub open spec fn high_word_of(x: int) -> int {
    (x / 0x1_0000) % 0x1_0000
}

/// A 16-bit pattern read as a two's complement number.
pub open spec fn signed16(w: int) -> int {
    if w >= 0x8000 {
        w - 0x1_0000
    } else {
        w
    }
}

/// The lower 32 bits of a message parameter, as the host's 32-bit view of it.
pub open spec fn bits32(x: int) -> int {
    x % 0x1_0000_0000
}

/// The lower word of `x`.
pub fn low_word(x: u32) -> (r: u16)
    ensures
        r == low_word_of(x as int),
{
    (x % 0x1_0000) as u16
}

/// The higher word of `x`.
pub fn high_word(x: u32) -> (r: u16)
    ensures
        r == high_word_of(x as int),
{
    (x / 0x1_0000) as u16
}

/// Reads a 16-bit pattern as a signed number.
fn to_signed(w: u16) -> (r: i16)
    ensures
        r == signed16(w as int),
{
    if w >= 0x8000 {
        (w as i32 - 0x1_0000) as i16
    } else {
        w as i16
    }
}

/// The lower word of `x`, with its sign kept.
pub fn low_word_signed(x: u32) -> (r: i16)
    ensures
        r == signed16(low_word_of(x as int)),
{
    to_signed(low_word(x))
}

/// The higher word of `x`, with its sign kept.
pub fn high_word_signed(x: u32) -> (r: i16)
    ensures
        r == signed16(high_word_of(x as int)),
{
    to_signed(high_word(x))
}

/// The lower 32 bits of an unsigned message parameter.
pub fn wparam_bits(w: usize) -> (r: u32)
    ensures
        r == bits32(w as int),
{
    ((w as u64) % 0x1_0000_0000) as u32
}

/// The lower 32 bits of a signed message parameter, in two's complement.
pub fn lparam_bits(l: isize) -> (r: u32)
    ensures
        r == bits32(l as int),
{
    let v: i128 = l as i128;
    if v >= 0 {
        ((v as u128) % 0x1_0000_0000) as u32
    } else {
        let m: u128 = ((-v) as u128) % 0x1_0000_0000;
        if m == 0 {
            0
        } else {
            (0x1_0000_0000 - m) as u32
        }
    }
}

/// The horizontal screen coordinate packed into a message parameter.
pub open spec fn x_of_param(w: usize) -> i16 {
    signed16(low_word_of(bits32(w as int))) as i16
}

/// The vertical screen coordinate packed into a message parameter.
pub open spec fn y_of_param(w: usize) -> i16 {
    signed16(high_word_of(bits32(w as int))) as i16
}

/// The horizontal coordinate of the point packed into `w`.
pub fn x_param(w: usize) -> (r: i16)
    ensures
        r == x_of_param(w),
        r as int == signed16(low_word_of(bits32(w as int))),
{
    low_word_signed(wparam_bits(w))
}

/// The vertical coordinate of the point packed into `w`.
pub fn y_param(w: usize) -> (r: i16)
    ensures
        r == y_of_param(w),
        r as int == signed16(high_word_of(bits32(w as int))),
{
    high_word_signed(wparam_bits(w))
}

} // verus!
