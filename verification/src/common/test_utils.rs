use vstd::prelude::*;

verus! {

/// The uppercase hexadecimal digit of a number below 16.
pub open spec fn hex_digit(n: u8) -> char {
    if n < 10 {
        ('0' as u8 + n) as char
    } else {
        ('A' as u8 + (n - 10)) as char
    }
}

/// The single uppercase hexadecimal digit of `n`, or `?` if `n` needs more
/// than one digit.
pub fn as_single_hex_digit(n: u8) -> (r: char)
    ensures
        r == if n <= 0x0f {
            hex_digit(n)
        } else {
            '?'
        },
{
    if n <= 0x0f {
        if n < 10 {
            ((48u8 + n) as char)
        } else {
            ((65u8 + (n - 10)) as char)
        }
    } else {
        '?'
    }
}

} // verus!
