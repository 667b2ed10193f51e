//! Binary to binary-coded decimal, by the double dabble algorithm.

use vstd::prelude::*;

verus! {

/// Where the ones digit sits in the scratch word.
pub const ONES_MASK: u32 = 0x0000_0F00;

/// Where the tens digit sits in the scratch word.
pub const TENS_MASK: u32 = 0x0000_F000;

/// Where the hundreds digit sits in the scratch word.
pub const HUND_MASK: u32 = 0x000F_0000;

/// The decimal digits of a byte.
pub struct Bcd {
    /// The hundreds digit.
    pub hundreds: u8,
    /// The tens digit.
    pub tens: u8,
    /// The ones digit.
    pub ones: u8,
}

/// The decimal digits of `value`.
pub open spec fn spec_bcd(value: u8) -> Bcd {
    Bcd { hundreds: (value / 100) as u8, tens: ((value / 10) % 10) as u8, ones: (value % 10) as u8 }
}

/// The digit of the scratch word `bcd` that sits under `mask`, `shift` bits up.
spec fn digit(bcd: u32, mask: u32, shift: u32) -> u32 {
    (bcd & mask) >> shift
}

/// A digit made ready for the next doubling: one of five or more gets three
/// added, so that doubling it carries into the next digit.
spec fn carried(digit: u32) -> u32 {
    if digit >= 5 {
        (digit + 3) as u32
    } else {
        digit
    }
}

/// The scratch word `bcd` with its three digits made ready for the next doubling.
spec fn correct(bcd: u32) -> u32 {
    let ones = carried(digit(bcd, ONES_MASK, 8)) << 8;
    let tens = carried(digit(bcd, TENS_MASK, 12)) << 12;
    let hund = carried(digit(bcd, HUND_MASK, 16)) << 16;
    (bcd & !(HUND_MASK | TENS_MASK | ONES_MASK)) | (hund | tens | ones)
}

/// One round of the algorithm: double the scratch word, then make its digits
/// ready for the next doubling.
spec fn round(bcd: u32) -> u32 {
    correct(bcd << 1)
}

/// The scratch word after `k` rounds on the byte `value`: the `k` high bits
/// of the byte have been shifted out of the low byte, and the three digits hold
/// the decimal digits of the number those bits spell, ready for the next doubling.
spec fn scratch(value: u8, k: u32) -> u32 {
    let top = (value as u32) >> ((8 - k) as u32);
    let rest = ((value as u32) << k) & 0xFF;
    (carried(top / 100) << 16) | (carried((top / 10) % 10) << 12) | (carried(top % 10) << 8) | rest
}

/// Before the first round the scratch word is the byte itself.
proof fn lemma_scratch_start(value: u8)
    by (bit_vector)
    ensures
        scratch(value, 0) == value as u32,
{
}

/// A round takes the scratch word for `k` bits to the one for `k + 1` bits.
proof fn lemma_scratch_round(value: u8, k: u32, bcd: u32)
    by (bit_vector)
    requires
        k < 7,
        bcd == scratch(value, k),
    ensures
        round(bcd) == scratch(value, (k + 1) as u32),
{
}

/// Doubling the scratch word for seven bits leaves the decimal digits of the
/// byte in its three digits.
proof fn lemma_scratch_end(value: u8, bcd: u32)
    by (bit_vector)
    requires
        bcd == scratch(value, 7),
    ensures
        digit(bcd << 1, HUND_MASK, 16) == value / 100,
        digit(bcd << 1, TENS_MASK, 12) == (value / 10) % 10,
        digit(bcd << 1, ONES_MASK, 8) == value % 10,
{
}

/// A digit of the scratch word is a nibble.
proof fn lemma_digit_is_nibble(bcd: u32)
    by (bit_vector)
    ensures
        (bcd & ONES_MASK) >> 8 <= 15,
        (bcd & TENS_MASK) >> 12 <= 15,
        (bcd & HUND_MASK) >> 16 <= 15,
{
}

/// Splits `value` into its decimal digits.
///
/// The byte is shifted bit by bit, eight times, into three binary-coded digits
/// that sit above it in a scratch word. Before each shift but the first, a digit
/// of five or more has three added, which makes the shift carry a ten into the
/// next digit.
pub fn double_dabble(value: u8) -> (digits: Bcd)
    ensures
        digits == spec_bcd(value),
{
    let mut ones: u32 = 0;
    let mut tens: u32 = 0;
    let mut hund: u32 = 0;

    let mut bcd: u32 = value as u32;
    let mut i: u8 = 0;
    proof {
        lemma_scratch_start(value);
    }
    while i < 8
        invariant
            i <= 8,
            i < 8 ==> bcd == scratch(value, i as u32),
            i == 8 ==> {
                &&& hund == digit(scratch(value, 7) << 1, HUND_MASK, 16)
                &&& tens == digit(scratch(value, 7) << 1, TENS_MASK, 12)
                &&& ones == digit(scratch(value, 7) << 1, ONES_MASK, 8)
            },
        decreases 8 - i,
    {
        proof {
            if i < 7 {
                lemma_scratch_round(value, i as u32, bcd);
            }
        }
        bcd = bcd << 1;
        proof {
            lemma_digit_is_nibble(bcd);
        }
        ones = (bcd & ONES_MASK) >> 8;
        tens = (bcd & TENS_MASK) >> 12;
        hund = (bcd & HUND_MASK) >> 16;

        // After the last shift there is nothing left to carry.
        if i < 7 {
            if ones >= 5 {
                ones += 3;
            }
            if tens >= 5 {
                tens = tens + 3;
            }
            if hund >= 5 {
                hund = hund + 3;
            }
            // Put the digits back in their places.
            ones = ones << 8;
            tens = tens << 12;
            hund = hund << 16;
            bcd = (bcd & !(HUND_MASK | TENS_MASK | ONES_MASK)) | (hund | tens | ones);
        }
        i += 1;
    }
    proof {
        lemma_scratch_end(value, scratch(value, 7));
    }
    Bcd { hundreds: hund as u8, tens: tens as u8, ones: ones as u8 }
}

} // verus!
