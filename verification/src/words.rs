//! Wrapping arithmetic on 8- and 16-bit machine words.
//!
//! Every arithmetic step of the core wraps modulo 2^8 or 2^16; overflow
//! never aborts.  These helpers state that behaviour exactly, so the rest
//! of the crate can speak of `% 0x100` and `% 0x10000` in its contracts.

use vstd::prelude::*;

verus! {

/// Sign extension of a displacement byte, as the 16-bit two's-complement
/// addend it stands for (`0x80..=0xFF` count as negative).
pub open spec fn spec_sign_extend(d: u8) -> int {
    if d < 128 {
        d as int
    } else {
        d as int - 256
    }
}

/// The 16-bit word reached from `base` by the signed displacement `d`,
/// wrapping modulo 2^16 at both ends of the address space.
pub open spec fn spec_add_signed16(base: u16, d: u8) -> u16 {
    (((base as int + spec_sign_extend(d)) % 0x10000 + 0x10000) % 0x10000) as u16
}

pub fn wrap_inc16(x: u16) -> (r: u16)
    ensures
        r == (x as int + 1) % 0x10000,
{
    if x == 0xFFFF {
        0
    } else {
        x + 1
    }
}

pub fn wrap_dec16(x: u16) -> (r: u16)
    ensures
        r == (x as int - 1 + 0x10000) % 0x10000,
{
    if x == 0 {
        0xFFFF
    } else {
        x - 1
    }
}

pub fn wrap_add16(x: u16, y: u16) -> (r: u16)
    ensures
        r == (x as int + y as int) % 0x10000,
{
    let wide: u32 = (x as u32) + (y as u32);
    (wide % 0x10000) as u16
}

pub fn wrap_add8(x: u8, y: u8) -> (r: u8)
    ensures
        r == (x as int + y as int) % 0x100,
{
    let wide: u16 = (x as u16) + (y as u16);
    (wide % 0x100) as u8
}

pub fn wrap_sub8(x: u8, y: u8) -> (r: u8)
    ensures
        r == (x as int - y as int + 0x100) % 0x100,
{
    if x >= y {
        x - y
    } else {
        let wide: u16 = (x as u16) + 0x100 - (y as u16);
        wide as u8
    }
}

/// Moves `base` by the signed displacement `d`, wrapping modulo 2^16.
pub fn add_signed16(base: u16, d: u8) -> (r: u16)
    ensures
        r == spec_add_signed16(base, d),
{
    if d < 128 {
        wrap_add16(base, d as u16)
    } else {
        // A negative displacement: the two's-complement sign extension of
        // `d` differs from `d` by exactly -256.
        let r = wrap_add16(base, (d as u16) + 0xFF00);
        proof {
            assert((base as int + (d as int + 0xFF00)) % 0x10000 == (((base as int + (
            d as int - 256)) % 0x10000 + 0x10000) % 0x10000)) by {
                assert(d as int + 0xFF00 == d as int - 256 + 0x10000);
            };
        }
        r
    }
}

} // verus!
