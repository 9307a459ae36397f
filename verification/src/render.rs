//! Rendering a fixed-point balance at the output boundary: a decimal
//! numeral with exactly four fractional digits, as ASCII bytes.

use vstd::prelude::*;

use crate::{Balance, AMOUNT_SCALE};

verus! {

/// The ASCII digit for one decimal digit value.
pub open spec fn spec_digit(d: int) -> u8 {
    (0x30 + d) as u8
}

/// The decimal numeral of a non-negative number, most significant digit
/// first, without leading zeros (a single zero for zero).
pub open spec fn spec_digits(n: nat) -> Seq<u8>
    decreases n,
{
    if n < 10 {
        seq![spec_digit(n as int)]
    } else {
        spec_digits(n / 10).push(spec_digit((n % 10) as int))
    }
}

/// A balance rendered with four fractional digits: an optional minus sign,
/// the whole currency units, a point, and the four digits of the
/// fractional part, zero-padded.
pub open spec fn spec_render_fixed(b: int) -> Seq<u8> {
    let magnitude = if b < 0 {
        -b
    } else {
        b
    };
    let sign: Seq<u8> = if b < 0 {
        seq![0x2du8]
    } else {
        Seq::empty()
    };
    sign + spec_digits((magnitude / (AMOUNT_SCALE as int)) as nat) + seq![
        0x2eu8,
        spec_digit(magnitude % 10000 / 1000),
        spec_digit(magnitude % 1000 / 100),
        spec_digit(magnitude % 100 / 10),
        spec_digit(magnitude % 10),
    ]
}

/// Append the decimal numeral of `n`, most significant digit first.
fn push_digits(n: u64, out: &mut Vec<u8>)
    ensures
        final(out)@ == old(out)@ + spec_digits(n as nat),
    decreases n,
{
    if n < 10 {
        out.push(0x30u8 + n as u8);
        proof {
            assert(out@ =~= old(out)@ + spec_digits(n as nat));
        }
    } else {
        push_digits(n / 10, out);
        out.push(0x30u8 + (n % 10) as u8);
        proof {
            assert(out@ =~= old(out)@ + spec_digits(n as nat));
        }
    }
}

/// Render a balance as a decimal numeral with exactly four fractional
/// digits, the display precision of the output boundary: `70000` becomes
/// `7.0000`, `-5` becomes `-0.0005`.
pub fn render_balance(balance: Balance) -> (out: Vec<u8>)
    ensures
        out@ == spec_render_fixed(balance as int),
{
    let mut out: Vec<u8> = Vec::new();
    let magnitude: u64 = if balance < 0 {
        (-(balance as i128)) as u64
    } else {
        balance as u64
    };
    if balance < 0 {
        out.push(0x2du8);
    }
    push_digits(magnitude / AMOUNT_SCALE, &mut out);
    out.push(0x2eu8);
    out.push(0x30u8 + ((magnitude % 10000) / 1000) as u8);
    out.push(0x30u8 + ((magnitude % 1000) / 100) as u8);
    out.push(0x30u8 + ((magnitude % 100) / 10) as u8);
    out.push(0x30u8 + (magnitude % 10) as u8);
    proof {
        assert(out@ =~= spec_render_fixed(balance as int));
    }
    out
}

} // verus!
