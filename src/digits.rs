//! Fixed-width, zero-padded unsigned decimal output.
use vstd::prelude::*;

verus! {

/// Ten to the power `n`.
pub open spec fn pow10(n: nat) -> nat
    decreases n,
{
    if n == 0 {
        1
    } else {
        10 * pow10((n - 1) as nat)
    }
}

/// The ASCII digit for `d`, where `d < 10`.
pub open spec fn digit_byte(d: nat) -> u8 {
    (48 + d % 10) as u8
}

/// The last `w` decimal digits of `v`, most significant first.
pub open spec fn last_digits(v: nat, w: nat) -> Seq<u8>
    decreases w,
{
    if w == 0 {
        seq![]
    } else {
        last_digits(v / 10, (w - 1) as nat).push(digit_byte(v % 10))
    }
}

/// How many decimal digits `v` has (zero has one).
pub open spec fn num_digits(v: nat) -> nat
    decreases v,
{
    if v < 10 {
        1
    } else {
        1 + num_digits(v / 10)
    }
}

/// The decimal digits of `v`, without leading zeros.
pub open spec fn decimal(v: nat) -> Seq<u8> {
    last_digits(v, num_digits(v))
}

/// `v` in decimal, left-padded with zeros to at least `w` digits.
pub open spec fn pad_zero(v: nat, w: nat) -> Seq<u8> {
    if num_digits(v) < w {
        last_digits(v, w)
    } else {
        decimal(v)
    }
}

/// `n` copies of the byte `b`.
pub open spec fn repeat_byte(b: u8, n: nat) -> Seq<u8> {
    Seq::new(n, |_i: int| b)
}

/// `v` in decimal, left-padded with spaces to at least `w` characters.
pub open spec fn pad_space(v: nat, w: nat) -> Seq<u8> {
    if num_digits(v) < w {
        repeat_byte(32u8, (w - num_digits(v)) as nat) + decimal(v)
    } else {
        decimal(v)
    }
}

/// A number with fewer than `w` digits fills exactly `w` places.
pub proof fn lemma_num_digits_below(v: nat, w: nat)
    requires
        v < pow10(w),
        w >= 1,
    ensures
        num_digits(v) <= w,
    decreases w,
{
    if v >= 10 {
        assert(pow10(0) == 1);
        assert(w > 1);
        let p = pow10((w - 1) as nat);
        assert(v / 10 < p) by (nonlinear_arith)
            requires
                v < 10 * p,
        ;
        lemma_num_digits_below(v / 10, (w - 1) as nat);
    }
}

pub proof fn lemma_last_digits_len(v: nat, w: nat)
    ensures
        last_digits(v, w).len() == w,
    decreases w,
{
    if w > 0 {
        lemma_last_digits_len(v / 10, (w - 1) as nat);
    }
}

/// Appends the last `w` decimal digits of `v`.
fn write_last_digits(out: &mut Vec<u8>, v: u128, w: usize)
    ensures
        final(out)@ == old(out)@ + last_digits(v as nat, w as nat),
    decreases w,
{
    if w > 0 {
        write_last_digits(out, v / 10, w - 1);
        let d: u8 = (v % 10) as u8;
        out.push(48u8 + d);
    }
}

/// The number of decimal digits of `v`.
fn count_digits(v: u128) -> (r: usize)
    ensures
        r as nat == num_digits(v as nat),
        1 <= r <= 39,
    decreases v,
{
    if v < 10 {
        1
    } else {
        proof {
            lemma_num_digits_le_39(v as nat);
        }
        1 + count_digits(v / 10)
    }
}

proof fn lemma_num_digits_le_39(v: nat)
    requires
        v <= u128::MAX,
    ensures
        num_digits(v) <= 39,
{
    reveal_with_fuel(pow10, 40);
    assert(u128::MAX < pow10(39));
    lemma_num_digits_below(v, 39);
}

/// Appends `value` in decimal, left-padded with zeros to at least `width`
/// digits, and returns how many bytes were written: exactly `width` when the
/// value fits in that many digits.
pub fn format_number_pad_zero(out: &mut Vec<u8>, value: u128, width: usize) -> (r: usize)
    requires
        1 <= width <= 9,
    ensures
        final(out)@ == old(out)@ + pad_zero(value as nat, width as nat),
        r as nat == pad_zero(value as nat, width as nat).len(),
        value < pow10(width as nat) ==> r == width,
{
    let n = count_digits(value);
    proof {
        lemma_last_digits_len(value as nat, width as nat);
        lemma_last_digits_len(value as nat, n as nat);
        if value < pow10(width as nat) {
            lemma_num_digits_below(value as nat, width as nat);
        }
    }
    if n < width {
        write_last_digits(out, value, width);
        width
    } else {
        write_last_digits(out, value, n);
        n
    }
}

/// Appends `value` in decimal, left-padded with spaces to at least `width`
/// characters, and returns how many bytes were written.
pub fn format_number_pad_space(out: &mut Vec<u8>, value: u128, width: usize) -> (r: usize)
    requires
        1 <= width <= 9,
    ensures
        final(out)@ == old(out)@ + pad_space(value as nat, width as nat),
        r as nat == pad_space(value as nat, width as nat).len(),
{
    let n = count_digits(value);
    proof {
        lemma_last_digits_len(value as nat, n as nat);
    }
    if n < width {
        let ghost start = out@;
        let mut i: usize = 0;
        while i < width - n
            invariant
                n < width <= 9,
                i <= width - n,
                out@ == start + repeat_byte(32u8, i as nat),
            decreases width - n - i,
        {
            out.push(32u8);
            i = i + 1;
            assert(out@ =~= start + repeat_byte(32u8, i as nat));
        }
        write_last_digits(out, value, n);
        assert(out@ =~= start + pad_space(value as nat, width as nat));
        width
    } else {
        write_last_digits(out, value, n);
        n
    }
}

/// Appends `value` in decimal, without padding, and returns how many bytes
/// were written.
pub fn format_number(out: &mut Vec<u8>, value: u128) -> (r: usize)
    ensures
        final(out)@ == old(out)@ + decimal(value as nat),
        r as nat == decimal(value as nat).len(),
{
    let n = count_digits(value);
    proof {
        lemma_last_digits_len(value as nat, n as nat);
    }
    write_last_digits(out, value, n);
    n
}

} // verus!
