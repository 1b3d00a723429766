//! Text for the diagnostic line: which bytes each message puts on it.
//!
//! The functions here only compute the bytes. Waiting for the transmitter
//! and writing each byte to it is left to the platform layer.
use vstd::prelude::*;
use vstd::string::*;

verus! {

/// The byte that goes on the line for `c`: its code point cut to eight bits.
pub open spec fn char_byte(c: char) -> u8 {
    (c as u32 & 0xff) as u8
}

/// The bytes that go on the line for `c`: a line feed is followed by a
/// carriage return, every other character is one byte.
pub open spec fn char_bytes(c: char) -> Seq<u8> {
    if c == '\n' {
        seq![0x0au8, 0x0du8]
    } else {
        seq![char_byte(c)]
    }
}

/// The bytes that go on the line for a text, character by character.
pub open spec fn text_bytes(text: Seq<char>) -> Seq<u8>
    decreases text.len(),
{
    if text.len() == 0 {
        Seq::empty()
    } else {
        text_bytes(text.drop_last()) + char_bytes(text.last())
    }
}

/// The character for one hexadecimal digit: `0` to `9` for a value up to 9,
/// and from 10 on the letters from `A`, which for a value above 15 run on
/// past `F`.
pub open spec fn hex_digit(d: u8) -> u8 {
    if d > 9 {
        (d - 10 + 0x41) as u8
    } else {
        (d + 0x30) as u8
    }
}

/// The four bits of `n` that make its hexadecimal digit number `i`, counted
/// from the top of a number of `count` digits.
pub open spec fn nibble(n: u64, count: int, i: int) -> u8 {
    ((n >> ((4 * (count - 1 - i)) as u64)) & 0xf) as u8
}

/// `0x` and then the `count` hexadecimal digits of `n`, highest first.
pub open spec fn hex_text(n: u64, count: int) -> Seq<u8> {
    seq![0x30u8, 0x78u8] + Seq::new(count as nat, |i: int| hex_digit(nibble(n, count, i)))
}

/// The decimal digits of `n`, highest first, without leading zeros; `0` for
/// zero.
pub open spec fn decimal_text(n: nat) -> Seq<u8>
    decreases n,
{
    if n < 10 {
        seq![(n + 0x30) as u8]
    } else {
        decimal_text(n / 10) + seq![(n % 10 + 0x30) as u8]
    }
}

/// The decimal digits of the size of `n`, after a minus sign where `n` is
/// negative.
pub open spec fn signed_decimal_text(n: int) -> Seq<u8> {
    if n < 0 {
        seq![0x2du8] + decimal_text((-n) as nat)
    } else {
        decimal_text(n as nat)
    }
}

/// The formatter of the diagnostic line.
pub struct UART;

impl UART {
    /// The byte to transmit for `c`.
    pub fn putc(&self, c: char) -> (byte: u8)
        ensures
            byte == char_byte(c),
    {
        let code: u32 = c as u32;
        (code & 0xff) as u8
    }

    /// The bytes to transmit for `s`.
    pub fn puts(&self, s: &str) -> (out: Vec<u8>)
        ensures
            out@ == text_bytes(s@),
    {
        let mut out: Vec<u8> = Vec::new();
        let n: usize = s.unicode_len();
        let mut i: usize = 0;
        while i < n
            invariant
                n == s@.len(),
                i <= n,
                out@ == text_bytes(s@.subrange(0, i as int)),
            decreases n - i,
        {
            let c: char = s.get_char(i);
            proof {
                let next = s@.subrange(0, i + 1);
                assert(next.drop_last() =~= s@.subrange(0, i as int));
                assert(next.last() == c);
            }
            if c == '\n' {
                out.push(0x0a);
                out.push(0x0d);
                assert(out@ =~= text_bytes(s@.subrange(0, i as int)) + seq![0x0au8, 0x0du8]);
            } else {
                let byte: u8 = self.putc(c);
                out.push(byte);
                assert(out@ =~= text_bytes(s@.subrange(0, i as int)) + seq![char_byte(c)]);
            }
            i = i + 1;
        }
        assert(s@.subrange(0, n as int) =~= s@);
        out
    }

    /// The hexadecimal digit to transmit for `d`. The character of a value
    /// above 200 would not fit a byte.
    pub fn putxb(&self, d: u8) -> (byte: u8)
        requires
            d <= 200,
        ensures
            byte == hex_digit(d),
    {
        if d > 9 {
            d - 10 + 0x41
        } else {
            d + 0x30
        }
    }

    /// `0x` and the eight hexadecimal digits of `n`.
    pub fn putx32(&self, n: u32) -> (out: Vec<u8>)
        ensures
            out@ == hex_text(n as u64, 8),
    {
        let mut out: Vec<u8> = Vec::new();
        out.push(0x30);
        out.push(0x78);
        let wide: u64 = n as u64;
        let mut i: u32 = 0;
        while i < 8
            invariant
                i <= 8,
                wide == n,
                out@.len() == 2 + i,
                out@[0] == 0x30u8,
                out@[1] == 0x78u8,
                forall|k: int| 0 <= k < i ==> out@[2 + k] == hex_digit(nibble(wide, 8, k)),
            decreases 8 - i,
        {
            let shift: u32 = 28 - 4 * i;
            let d: u64 = (wide >> shift) & 0xf;
            assert(d < 16) by (bit_vector)
                requires
                    d == (wide >> shift) & 0xf,
            ;
            let byte: u8 = self.putxb(d as u8);
            out.push(byte);
            i = i + 1;
        }
        assert(out@ =~= hex_text(n as u64, 8));
        out
    }

    /// `0x` and the sixteen hexadecimal digits of `n`.
    pub fn putx64(&self, n: u64) -> (out: Vec<u8>)
        ensures
            out@ == hex_text(n, 16),
    {
        let mut out: Vec<u8> = Vec::new();
        out.push(0x30);
        out.push(0x78);
        let mut i: u32 = 0;
        while i < 16
            invariant
                i <= 16,
                out@.len() == 2 + i,
                out@[0] == 0x30u8,
                out@[1] == 0x78u8,
                forall|k: int| 0 <= k < i ==> out@[2 + k] == hex_digit(nibble(n, 16, k)),
            decreases 16 - i,
        {
            let shift: u32 = 60 - 4 * i;
            let d: u64 = (n >> shift) & 0xf;
            assert(d < 16) by (bit_vector)
                requires
                    d == (n >> shift) & 0xf,
            ;
            let byte: u8 = self.putxb(d as u8);
            out.push(byte);
            i = i + 1;
        }
        assert(out@ =~= hex_text(n, 16));
        out
    }

    /// The decimal digits of `n`.
    pub fn putu32(&self, n: u32) -> (out: Vec<u8>)
        ensures
            out@ == decimal_text(n as nat),
    {
        // Filled from the right: a u32 has at most ten digits.
        let mut digits: Vec<u8> = Vec::new();
        let mut k: usize = 0;
        while k < 10
            invariant
                k <= 10,
                digits@.len() == k,
            decreases 10 - k,
        {
            digits.push(0);
            k = k + 1;
        }
        let mut rest: u32 = n;
        let mut start: usize = 10;
        let ghost mut scale: int = 1;
        proof {
            reveal_with_fuel(pow10, 2);
            assert(digits@.subrange(10, 10) =~= Seq::<u8>::empty());
            assert(decimal_text(n as nat) + Seq::<u8>::empty() =~= decimal_text(n as nat));
        }
        while rest >= 10
            invariant
                digits@.len() == 10,
                1 <= start <= 10,
                scale == pow10((10 - start) as nat),
                scale >= 1,
                rest * scale <= n,
                decimal_text(n as nat) == decimal_text(rest as nat) + digits@.subrange(
                    start as int,
                    10,
                ),
            decreases rest,
        {
            proof {
                if start == 1 {
                    lemma_pow10_nine();
                    assert(rest * scale >= 10 * scale) by (nonlinear_arith)
                        requires
                            rest >= 10,
                            scale >= 0,
                    ;
                }
                reveal_with_fuel(pow10, 2);
                assert(pow10((10 - start + 1) as nat) == 10 * pow10((10 - start) as nat));
                assert((rest / 10) * (scale * 10) <= rest * scale) by (nonlinear_arith)
                    requires
                        scale >= 0,
                        rest >= 0,
                ;
            }
            let ghost before = digits@;
            let digit: u8 = (rest % 10) as u8 + 0x30;
            start = start - 1;
            digits.set(start, digit);
            proof {
                assert(digits@.subrange(start as int, 10) =~= seq![digit] + before.subrange(
                    start + 1,
                    10,
                ));
                assert(decimal_text(rest as nat) == decimal_text((rest / 10) as nat)
                    + seq![digit]);
                assert(decimal_text(n as nat) =~= decimal_text((rest / 10) as nat)
                    + digits@.subrange(start as int, 10));
                scale = scale * 10;
            }
            rest = rest / 10;
        }
        let ghost before = digits@;
        let digit: u8 = rest as u8 + 0x30;
        start = start - 1;
        digits.set(start, digit);
        proof {
            assert(digits@.subrange(start as int, 10) =~= seq![digit] + before.subrange(
                start + 1,
                10,
            ));
        }
        let mut out: Vec<u8> = Vec::new();
        let mut j: usize = start;
        while j < 10
            invariant
                digits@.len() == 10,
                start <= j <= 10,
                out@ == digits@.subrange(start as int, j as int),
            decreases 10 - j,
        {
            out.push(digits[j]);
            j = j + 1;
            assert(out@ =~= digits@.subrange(start as int, j as int));
        }
        out
    }

    /// The decimal digits of the size of `n`, after `-` where `n` is
    /// negative.
    pub fn puti32(&self, n: i32) -> (out: Vec<u8>)
        ensures
            out@ == signed_decimal_text(n as int),
    {
        if n < 0 {
            let size: u32 = (-(n as i64)) as u32;
            let mut digits = self.putu32(size);
            let mut out: Vec<u8> = Vec::new();
            out.push(0x2d);
            out.append(&mut digits);
            out
        } else {
            self.putu32(n as u32)
        }
    }
}

/// Ten to the power `k`.
spec fn pow10(k: nat) -> int
    decreases k,
{
    if k == 0 {
        1
    } else {
        10 * pow10((k - 1) as nat)
    }
}

proof fn lemma_pow10_nine()
    ensures
        pow10(9) == 1_000_000_000,
{
    reveal_with_fuel(pow10, 10);
}

} // verus!
