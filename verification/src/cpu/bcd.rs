use vstd::prelude::*;

verus! {

/// Whether both nibbles of `x` are decimal digits.
pub open spec fn is_bcd(x: u8) -> bool {
    x % 16 <= 9 && x / 16 <= 9
}

/// The number that a BCD byte stands for.
pub open spec fn bcd_value(x: u8) -> int {
    10 * (x / 16) + x % 16
}

/// The BCD byte that stands for `n`, for `0 <= n < 100`.
pub open spec fn to_bcd(n: int) -> u8 {
    (16 * (n / 10) + n % 10) as u8
}

/// The 6502 decimal-mode addition, digit by digit: the low digit is corrected
/// by 6 when it exceeds 9, the whole byte by 0x60 when it exceeds 0x99.
pub open spec fn bcd_add_spec(a: u8, b: u8, carry: bool) -> (u8, bool) {
    let low = a % 16 + b % 16 + if carry { 1int } else { 0int };
    let low = if low > 9 { low + 6 } else { low };
    let result = low + 16 * (a / 16) + 16 * (b / 16);
    if result > 0x99 {
        (((result + 0x60) % 256) as u8, true)
    } else {
        ((result % 256) as u8, false)
    }
}

/// The 6502 decimal-mode subtraction, digit by digit: the low digit is
/// corrected by 6 when it borrows, the whole byte by 0x60 when it borrows.
pub open spec fn bcd_sub_spec(a: u8, b: u8, borrow: bool) -> (u8, bool) {
    let low = a % 16 - b % 16 - if borrow { 1int } else { 0int };
    let low = if low < 0 { low - 6 } else { low };
    let result = low + 16 * (a / 16) - 16 * (b / 16);
    if result < 0 {
        (((result - 0x60) % 256) as u8, true)
    } else {
        ((result % 256) as u8, false)
    }
}

proof fn lemma_low_nibble(x: u8)
    by (bit_vector)
    ensures
        x & 0x0F == x % 16,
        x & 0xF0 == 16 * (x / 16),
        (x as u16) & 0x0F == (x & 0x0F) as u16,
        (x as u16) & 0xF0 == (x & 0xF0) as u16,
        (x as u16 as i16) & 0x0F == (x & 0x0F) as i16,
        (x as u16 as i16) & 0xF0 == (x & 0xF0) as i16,
{
}

/// Performs a BCD addition with carry, returning result and carry.
pub fn bcd_add(a: u8, b: u8, carry: bool) -> (r: (u8, bool))
    ensures
        r == bcd_add_spec(a, b, carry),
{
    proof {
        lemma_low_nibble(a);
        lemma_low_nibble(b);
    }
    // Less significant digit
    let mut result: u16 = ((a as u16) & 0x0F) + ((b as u16) & 0x0F) + if carry {
        1
    } else {
        0
    };
    if result > 0x09 {
        result += 0x06;
    }
    // More significant digit
    result += ((a as u16) & 0xF0) + ((b as u16) & 0xF0);
    if result > 0x99 {
        assert(result + 0x60 <= 0xFFFF);
        let r = result + 0x60;
        proof {
            crate::bits::lemma_word_truncation(r);
        }
        (r as u8, true)
    } else {
        proof {
            crate::bits::lemma_word_truncation(result);
        }
        (result as u8, false)
    }
}

/// Performs a BCD subtraction with borrow, returning result and borrow.
pub fn bcd_sub(a: u8, b: u8, borrow: bool) -> (r: (u8, bool))
    ensures
        r == bcd_sub_spec(a, b, borrow),
{
    proof {
        lemma_low_nibble(a);
        lemma_low_nibble(b);
    }
    // Less significant digit
    let mut result: i16 = ((a as u16 as i16) & 0x0F) - ((b as u16 as i16) & 0x0F) - if borrow {
        1
    } else {
        0
    };
    if result < 0 {
        result -= 0x06;
    }
    // More significant digit
    result += ((a as u16 as i16) & 0xF0) - ((b as u16 as i16) & 0xF0);
    if result < 0 {
        let r = result - 0x60;
        proof {
            crate::bits::lemma_signed_word_truncation(r);
        }
        (r as u8, true)
    } else {
        proof {
            crate::bits::lemma_signed_word_truncation(result);
        }
        (result as u8, false)
    }
}

/// A byte built from a low digit and a high digit gives them back.
proof fn lemma_digits(lo: int, hi: int)
    requires
        0 <= lo <= 9,
        0 <= hi <= 9,
    ensures
        ({
            let x = (lo + 16 * hi) as u8;
            &&& x as int == lo + 16 * hi
            &&& x % 16 == lo
            &&& x / 16 == hi
        }),
{
    let x = (lo + 16 * hi) as u8;
    assert(x as int == lo + 16 * hi);
    assert((lo + 16 * hi) % 16 == lo) by (nonlinear_arith)
        requires
            0 <= lo <= 9,
            0 <= hi <= 9,
    ;
    assert((lo + 16 * hi) / 16 == hi) by (nonlinear_arith)
        requires
            0 <= lo <= 9,
            0 <= hi <= 9,
    ;
}

/// Decimal addition: on BCD operands, `bcd_add` gives the BCD form of the
/// decimal sum modulo 100, with a carry exactly when the sum reaches 100.
pub proof fn lemma_bcd_add_is_decimal_addition(a: u8, b: u8, carry: bool)
    requires
        is_bcd(a),
        is_bcd(b),
    ensures
        ({
            let sum = bcd_value(a) + bcd_value(b) + if carry { 1int } else { 0int };
            let (r, c) = bcd_add_spec(a, b, carry);
            &&& is_bcd(r)
            &&& bcd_value(r) == sum % 100
            &&& c == (sum >= 100)
        }),
{
    let c: int = if carry { 1 } else { 0 };
    let al = a % 16;
    let ah = a / 16;
    let bl = b % 16;
    let bh = b / 16;
    let lo = al + bl + c;
    let big_l: int = if lo > 9 { lo - 10 } else { lo };
    let big_h: int = if lo > 9 { ah + bh + 1 } else { ah + bh };
    let low2 = if lo > 9 { lo + 6 } else { lo };
    let result = low2 + 16 * ah + 16 * bh;
    assert(result == big_l + 16 * big_h);
    let sum = bcd_value(a) + bcd_value(b) + c;
    assert(sum == 10 * big_h + big_l);
    if big_h >= 10 {
        assert(result > 0x99);
        assert((result + 0x60) % 256 == big_l + 16 * (big_h - 10));
        lemma_digits(big_l, big_h - 10);
        assert(sum % 100 == big_l + 10 * (big_h - 10));
    } else {
        assert(result <= 0x99);
        assert(result % 256 == result);
        lemma_digits(big_l, big_h);
        assert(sum % 100 == sum);
    }
}

/// Decimal subtraction: on BCD operands, `bcd_sub` gives the BCD form of the
/// decimal difference modulo 100, with a borrow exactly when it is negative.
pub proof fn lemma_bcd_sub_is_decimal_subtraction(a: u8, b: u8, borrow: bool)
    requires
        is_bcd(a),
        is_bcd(b),
    ensures
        ({
            let diff = bcd_value(a) - bcd_value(b) - if borrow { 1int } else { 0int };
            let (r, c) = bcd_sub_spec(a, b, borrow);
            &&& is_bcd(r)
            &&& bcd_value(r) == diff % 100
            &&& c == (diff < 0)
        }),
{
    let c: int = if borrow { 1 } else { 0 };
    let al = a % 16;
    let ah = a / 16;
    let bl = b % 16;
    let bh = b / 16;
    let lo = al - bl - c;
    let big_l: int = if lo < 0 { lo + 10 } else { lo };
    let big_h: int = if lo < 0 { ah - bh - 1 } else { ah - bh };
    let low2 = if lo < 0 { lo - 6 } else { lo };
    let result = low2 + 16 * ah - 16 * bh;
    assert(result == big_l + 16 * big_h);
    let diff = bcd_value(a) - bcd_value(b) - c;
    assert(diff == 10 * big_h + big_l);
    if big_h < 0 {
        assert(result < 0);
        assert((result - 0x60) % 256 == big_l + 16 * (big_h + 10));
        lemma_digits(big_l, big_h + 10);
        assert(diff % 100 == big_l + 10 * (big_h + 10));
    } else {
        assert(result >= 0);
        assert(result % 256 == result);
        lemma_digits(big_l, big_h);
        assert(diff % 100 == diff);
    }
}

} // verus!
