//! Decimal text of integers and of the per-size scale factor.
//!
//! All cursor geometry is authored on a fixed 256-unit design canvas; a frame
//! of nominal size `s` is drawn under a uniform scale of `s / 256`. That
//! quotient always has a finite decimal expansion (`1/256 = 0.00390625`), so
//! it can be computed here exactly, in integers, and handed to the rasterizer
//! as decimal text.

use vstd::prelude::*;

use crate::text::append_char;

verus! {

/// The digit character for one decimal digit.
pub open spec fn spec_digit(d: int) -> char {
    ((48 + d) as u8) as char
}

/// Decimal text of a natural number, most significant digit first.
pub open spec fn spec_uint_string(n: nat) -> Seq<char>
    decreases n,
{
    if n < 10 {
        seq![spec_digit(n as int)]
    } else {
        spec_uint_string(n / 10) + seq![spec_digit((n % 10) as int)]
    }
}

/// Decimal text of `n` in exactly `k` digits, zero padded on the left.
pub open spec fn spec_fixed_digits(n: nat, k: nat) -> Seq<char>
    decreases k,
{
    if k == 0 {
        Seq::empty()
    } else {
        spec_fixed_digits(n / 10, (k - 1) as nat) + seq![spec_digit((n % 10) as int)]
    }
}

/// Decimal text of `size / 256`: the integer part of `size * 390625 / 10^8`,
/// a decimal point, then the remaining eight fractional digits.
pub open spec fn spec_scale_text(size: u32) -> Seq<char> {
    spec_uint_string((size * 390625) as nat / 100000000) + seq!['.'] + spec_fixed_digits(
        (size * 390625) as nat % 100000000,
        8,
    )
}

/// The digit character of a value below ten.
fn digit_char(d: u8) -> (r: char)
    requires
        d < 10,
    ensures
        r == spec_digit(d as int),
{
    (48 + d) as char
}

/// Decimal text of `n`, most significant digit first.
pub fn uint_string(n: u64) -> (r: String)
    ensures
        r@ == spec_uint_string(n as nat),
    decreases n,
{
    if n < 10 {
        let mut s = String::new();
        append_char(&mut s, digit_char(n as u8));
        assert(s@ =~= spec_uint_string(n as nat));
        s
    } else {
        let mut s = uint_string(n / 10);
        append_char(&mut s, digit_char((n % 10) as u8));
        assert(s@ =~= spec_uint_string(n as nat));
        s
    }
}

/// Appends the decimal text of `n` in exactly `k` digits, zero padded.
fn append_fixed_digits(s: &mut String, n: u64, k: usize)
    ensures
        final(s)@ == old(s)@ + spec_fixed_digits(n as nat, k as nat),
    decreases k,
{
    if k == 0 {
        assert(s@ =~= old(s)@ + spec_fixed_digits(n as nat, 0));
    } else {
        append_fixed_digits(s, n / 10, k - 1);
        append_char(s, digit_char((n % 10) as u8));
        assert(s@ =~= old(s)@ + spec_fixed_digits(n as nat, k as nat));
    }
}

/// The exact decimal text of `size / 256`, the uniform scale from the
/// 256-unit design canvas to a frame of nominal size `size`.
pub fn scale_of_size(size: u32) -> (r: String)
    ensures
        r@ == spec_scale_text(size),
{
    let n: u64 = (size as u64) * 390625;
    let q: u64 = n / 100000000;
    let f: u64 = n % 100000000;
    let mut r = uint_string(q);
    append_char(&mut r, '.');
    append_fixed_digits(&mut r, f, 8);
    assert(r@ =~= spec_scale_text(size));
    r
}

} // verus!
