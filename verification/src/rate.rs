//! Sample rates in words.
//!
//! Rates of a megahertz and more are shown in megahertz with four decimals. The
//! quotient is carried as a double-precision number would carry it: with
//! fifty-three significant bits, rounded to the nearest, ties to even.

use crate::text::{cat2, decimal, digit_char, number};
use vstd::prelude::*;

verus! {

/// The quotient of two naturals, rounded to the nearest whole number. Halfway
/// between two, the even one.
pub open spec fn nearest_even(num: int, den: int) -> int {
    let q = num / den;
    let r = num % den;
    if 2 * r < den || (2 * r == den && q % 2 == 0) {
        q
    } else {
        q + 1
    }
}

fn div_nearest_even(num: u128, den: u128) -> (r: u128)
    requires
        0 < den,
        num < 0x8000_0000_0000_0000_0000_0000_0000_0000,
        den < 0x8000_0000_0000_0000_0000_0000_0000_0000,
    ensures
        r == nearest_even(num as int, den as int),
{
    let q: u128 = num / den;
    let rem: u128 = num % den;
    assert(q <= num) by (nonlinear_arith)
        requires
            q == num / den,
            den > 0,
            num >= 0,
    ;
    if 2 * rem < den || (2 * rem == den && q % 2 == 0) {
        q
    } else {
        q + 1
    }
}

/// Rounding to the nearest is off by half a unit at most.
proof fn nearest_even_is_near(num: int, den: int)
    requires
        0 <= num,
        0 < den,
    ensures
        0 <= nearest_even(num, den),
        -den <= 2 * (nearest_even(num, den) * den - num) <= den,
{
    let q = num / den;
    let r = num % den;
    assert(num == q * den + r && 0 <= r < den && 0 <= q) by (nonlinear_arith)
        requires
            q == num / den,
            r == num % den,
            0 < den,
            0 <= num,
    ;
    assert((q + 1) * den == q * den + den) by (nonlinear_arith);
}

/// Below a half the whole number stays, above it the next one is taken, and at a half the
/// result is the even one of the two.
pub proof fn halves_go_to_the_even_number(whole: int, rest: int, den: int)
    requires
        0 <= whole,
        0 <= rest < den,
    ensures
        2 * rest < den ==> nearest_even(whole * den + rest, den) == whole,
        2 * rest > den ==> nearest_even(whole * den + rest, den) == whole + 1,
        2 * rest == den ==> nearest_even(whole * den + rest, den) % 2 == 0 && whole <= nearest_even(
            whole * den + rest,
            den,
        ) <= whole + 1,
{
    vstd::arithmetic::div_mod::lemma_fundamental_div_mod_converse(
        whole * den + rest,
        den,
        whole,
        rest,
    );
}

/// The largest doubling of `unit` that `value` reaches.
pub open spec fn binade(value: int, unit: int) -> int
    decreases value - unit,
{
    if unit <= 0 || value < 2 * unit {
        unit
    } else {
        binade(value, 2 * unit)
    }
}

/// The largest doubling lies between half the value and the value, and is a multiple of
/// the unit.
pub proof fn binade_bounds(value: int, unit: int)
    requires
        0 < unit <= value,
    ensures
        unit <= binade(value, unit) <= value,
        value < 2 * binade(value, unit),
        binade(value, unit) % unit == 0,
    decreases value - unit,
{
    if value < 2 * unit {
        assert(unit % unit == 0) by (nonlinear_arith)
            requires
                unit > 0,
        ;
    } else {
        binade_bounds(value, 2 * unit);
        let b = binade(value, 2 * unit);
        let k = b / (2 * unit);
        assert(b == unit * (2 * k)) by (nonlinear_arith)
            requires
                b % (2 * unit) == 0,
                k == b / (2 * unit),
                unit > 0,
        ;
        assert((unit * (2 * k)) % unit == 0) by (nonlinear_arith)
            requires
                unit > 0,
        ;
    }
}

fn find_binade(value: u128, unit: u128) -> (r: u128)
    requires
        0 < unit <= value,
        value < 0x1_0000_0000_0000_0000_0000,
    ensures
        r == binade(value as int, unit as int),
        unit <= r <= value,
        value < 2 * r,
        r % unit == 0,
{
    let mut b: u128 = unit;
    while value >= 2 * b
        invariant
            0 < unit <= b <= value,
            value < 0x1_0000_0000_0000_0000_0000,
            binade(value as int, unit as int) == binade(value as int, b as int),
        decreases value - b,
    {
        b = 2 * b;
    }
    proof {
        binade_bounds(value as int, unit as int);
    }
    b
}

/// The number of units in 2^52, the weight of a double's last bit.
pub open spec fn two_52() -> int {
    4503599627370496
}

/// A rate as a double-precision number holds it: exactly below 2^53, else with
/// fifty-three significant bits.
pub open spec fn as_double(rate: int) -> int {
    if rate < 2 * two_52() {
        rate
    } else {
        let last_bit = binade(rate, 2 * two_52()) / two_52();
        nearest_even(rate, last_bit) * last_bit
    }
}

/// The significand of a rate's megahertz: fifty-three bits of the quotient.
pub open spec fn megahertz_bits(rate: int) -> int {
    nearest_even(rate * two_52(), binade(rate, 1_000_000))
}

/// A rate's megahertz in ten-thousandths, rounded from its double-precision value.
pub open spec fn megahertz_e4(rate: int) -> int {
    nearest_even(
        megahertz_bits(rate) * 10_000 * (binade(rate, 1_000_000) / 1_000_000),
        two_52(),
    )
}

/// A rate below 2^53 is held as it is, and one above to within one part in 2^53; between
/// 2^53 and 2^54 only even numbers are held.
pub proof fn doubles_are_near_the_rate(rate: int)
    requires
        0 <= rate,
    ensures
        rate < 9007199254740992 ==> as_double(rate) == rate,
        9007199254740992 <= rate < 18014398509481984 ==> as_double(rate) % 2 == 0,
        -rate <= 9007199254740992 * (as_double(rate) - rate) <= rate,
{
    if rate >= 9007199254740992 {
        let b = binade(rate, 9007199254740992);
        binade_bounds(rate, 9007199254740992);
        let last_bit = b / two_52();
        let n = nearest_even(rate, last_bit);
        nearest_even_is_near(rate, last_bit);
        assert(as_double(rate) == n * last_bit);
        if rate < 18014398509481984 {
            assert(last_bit == 2);
        }
    }
}

fn to_double(rate: u64) -> (r: u128)
    requires
        rate >= 1_000_000,
    ensures
        r == as_double(rate as int),
        1_000_000 <= r,
        r <= 0x1_0000_0000_0000_0000,
{
    if rate < 9007199254740992 {
        return rate as u128;
    }
    let b = find_binade(rate as u128, 9007199254740992);
    let last_bit: u128 = b / 4503599627370496;
    let whole = div_nearest_even(rate as u128, last_bit);
    proof {
        nearest_even_is_near(rate as int, last_bit as int);
        last_bit_of_double(rate as int);
        assert(last_bit as int == b as int / two_52());
        assert(whole * last_bit <= 0x1_0000_0000_0000_0000);
        assert(whole as int * last_bit as int >= 1_000_000);
    }
    whole * last_bit
}

/// What a power of two up to 2^11 is multiplied by to give 2^64.
spec fn cofactor(bit: int) -> int {
    if bit == 2 {
        9223372036854775808
    } else if bit == 4 {
        4611686018427387904
    } else if bit == 8 {
        2305843009213693952
    } else if bit == 16 {
        1152921504606846976
    } else if bit == 32 {
        576460752303423488
    } else if bit == 64 {
        288230376151711744
    } else if bit == 128 {
        144115188075855872
    } else if bit == 256 {
        72057594037927936
    } else if bit == 512 {
        36028797018963968
    } else if bit == 1024 {
        18014398509481984
    } else {
        9007199254740992
    }
}

/// The last bit of a double that holds a 64-bit number weighs at least two and at
/// most 2^11, divides 2^64, and is small against the number.
proof fn last_bit_of_double(rate: int)
    requires
        2 * two_52() <= rate < 0x1_0000_0000_0000_0000,
    ensures
        ({
            let last_bit = binade(rate, 2 * two_52()) / two_52();
            &&& 2 <= last_bit <= 2048
            &&& nearest_even(rate, last_bit) * last_bit <= 0x1_0000_0000_0000_0000
            &&& nearest_even(rate, last_bit) * last_bit >= 1_000_000
        }),
{
    let b = binade(rate, 2 * two_52());
    let last_bit = b / two_52();
    reveal_with_fuel(power, 2);
    doublings_of_two_53(rate, 1);
    nearest_even_is_near(rate, last_bit);
    let n = nearest_even(rate, last_bit);
    let top = cofactor(last_bit);
    assert(top * last_bit == 0x1_0000_0000_0000_0000);
    assert(n <= top) by (nonlinear_arith)
        requires
            2 * (n * last_bit - rate) <= last_bit,
            rate < top * last_bit,
            0 < last_bit,
    ;
    assert(n * last_bit <= top * last_bit) by (nonlinear_arith)
        requires
            n <= top,
            0 < last_bit,
    ;
}

/// The last bits of the doublings of 2^53 up to 2^63.
proof fn doublings_of_two_53(rate: int, k: int)
    requires
        1 <= k <= 11,
        power(k) * two_52() <= rate < 0x1_0000_0000_0000_0000,
    ensures
        ({
            let last_bit = binade(rate, power(k) * two_52()) / two_52();
            last_bit == 2 || last_bit == 4 || last_bit == 8 || last_bit == 16 || last_bit == 32
                || last_bit == 64 || last_bit == 128 || last_bit == 256 || last_bit == 512
                || last_bit == 1024 || last_bit == 2048
        }),
    decreases 12 - k,
{
    reveal_with_fuel(power, 13);
    let unit = power(k) * two_52();
    if rate < 2 * unit {
        assert(unit / two_52() == power(k));
    } else {
        assert(k < 11);
        assert(2 * unit == power(k + 1) * two_52());
        doublings_of_two_53(rate, k + 1);
    }
}

spec fn power(k: int) -> int
    decreases k,
{
    if k <= 0 {
        1
    } else {
        2 * power(k - 1)
    }
}

fn megahertz_in_e4(rate: u128) -> (r: u64)
    requires
        1_000_000 <= rate <= 0x1_0000_0000_0000_0000,
    ensures
        r == megahertz_e4(rate as int),
{
    let b = find_binade(rate, 1_000_000);
    let step: u128 = b / 1_000_000;
    let bits = div_nearest_even(rate * 4503599627370496, b);
    proof {
        nearest_even_is_near(rate * two_52(), b as int);
        assert(b as int == step as int * 1_000_000) by (nonlinear_arith)
            requires
                b % 1_000_000 == 0,
                step == b / 1_000_000,
        ;
        significand_bounds(rate as int);
        assert(step <= 18446744073710);
        assert(bits * 10_000 * step <= 2 * two_52() * 10_000 * 18446744073710) by (nonlinear_arith)
            requires
                0 <= bits <= 2 * two_52(),
                0 <= step <= 18446744073710,
        ;
    }
    let shown = div_nearest_even(bits * 10_000 * step, 4503599627370496);
    proof {
        nearest_even_is_near(bits * 10_000 * step, two_52());
        assert(bits * 10_000 * step == bits * 10_000 * (binade(rate as int, 1_000_000)
            / 1_000_000));
    }
    shown as u64
}

/// The significand has fifty-three bits, or is 2^53 where it was rounded up.
proof fn significand_bounds(rate: int)
    requires
        1_000_000 <= rate,
    ensures
        two_52() <= megahertz_bits(rate) <= 2 * two_52(),
{
    let b = binade(rate, 1_000_000);
    binade_bounds(rate, 1_000_000);
    let m = megahertz_bits(rate);
    nearest_even_is_near(rate * two_52(), b);
    assert(two_52() <= m) by (nonlinear_arith)
        requires
            -b <= 2 * (m * b - rate * two_52()),
            b <= rate,
            0 < b,
            two_52() == 4503599627370496,
    ;
    assert(m <= 2 * two_52()) by (nonlinear_arith)
        requires
            2 * (m * b - rate * two_52()) <= b,
            rate < 2 * b,
            0 < b,
            two_52() == 4503599627370496,
    ;
}

/// What megahertz show of a rate is off by half of the last decimal at most.
pub proof fn shown_megahertz_are_nearest(rate: int)
    requires
        1_000_000 <= rate < 2 * two_52(),
    ensures
        -50 <= 100 * megahertz_e4(rate) - rate <= 50,
{
    let b = binade(rate, 1_000_000);
    let t = two_52();
    let m = megahertz_bits(rate);
    let step = b / 1_000_000;
    let n = megahertz_e4(rate);
    binade_bounds(rate, 1_000_000);
    nearest_even_is_near(rate * t, b);
    assert(b == step * 1_000_000) by (nonlinear_arith)
        requires
            b % 1_000_000 == 0,
            step == b / 1_000_000,
    ;
    significand_bounds(rate);
    assert(0 <= m * 10_000 * step) by (nonlinear_arith)
        requires
            0 <= m,
            0 <= step,
    ;
    nearest_even_is_near(m * 10_000 * step, t);
    assert(100 * (m * 10_000 * step) == m * b) by (nonlinear_arith)
        requires
            b == step * 1_000_000,
    ;
    assert(-(100 * t + b) <= 2 * (100 * n - rate) * t <= 100 * t + b) by (nonlinear_arith)
        requires
            -t <= 2 * (n * t - m * 10_000 * step) <= t,
            100 * (m * 10_000 * step) == m * b,
            -b <= 2 * (m * b - rate * t) <= b,
    ;
    let d = 100 * n - rate;
    assert(-51 < d < 51) by (nonlinear_arith)
        requires
            -(100 * t + b) <= 2 * d * t <= 100 * t + b,
            b < 2 * t,
            t == 4503599627370496,
    ;
}

/// A rate in whole hundreds of hertz is shown exactly: its ten-thousandths of a
/// megahertz are its hundreds.
pub proof fn whole_hundreds_are_exact(rate: int)
    requires
        1_000_000 <= rate < 2 * two_52(),
        rate % 100 == 0,
    ensures
        megahertz_e4(rate) * 100 == rate,
{
    shown_megahertz_are_nearest(rate);
}

/// The digits of a number below ten to the power of `places`, with leading zeros.
pub open spec fn padded(n: nat, places: nat) -> Seq<char>
    decreases places,
{
    if places == 0 {
        Seq::empty()
    } else {
        padded(n / 10, (places - 1) as nat).push(digit_char((n % 10) as int))
    }
}

/// Ten to a power.
pub open spec fn ten_to(places: nat) -> nat
    decreases places,
{
    if places == 0 {
        1
    } else {
        10 * ten_to((places - 1) as nat)
    }
}

/// The decimal `n` / 10^`places` without trailing zeros, and without a point where
/// no decimals are left.
pub open spec fn scaled_text(n: nat, places: nat) -> Seq<char>
    decreases places,
{
    if places == 0 {
        decimal(n)
    } else if n % 10 == 0 {
        scaled_text(n / 10, (places - 1) as nat)
    } else {
        decimal(n / ten_to(places)) + "."@ + padded(n % ten_to(places), places)
    }
}

/// Writes a number with leading zeros.
pub fn padded_number(n: u64, places: u32) -> (r: String)
    ensures
        r@ == padded(n as nat, places as nat),
    decreases places,
{
    if places == 0 {
        String::new()
    } else {
        let mut text = padded_number(n / 10, places - 1);
        text.push(crate::text::digit(n % 10));
        text
    }
}

proof fn ten_to_small(places: nat)
    requires
        places <= 4,
    ensures
        1 <= ten_to(places) <= 10000,
{
    reveal_with_fuel(ten_to, 6);
}

fn power_of_ten(places: u32) -> (r: u64)
    requires
        places <= 4,
    ensures
        r == ten_to(places as nat),
        1 <= r <= 10000,
    decreases places,
{
    proof {
        ten_to_small(places as nat);
    }
    if places == 0 {
        1
    } else {
        proof {
            ten_to_small((places - 1) as nat);
        }
        10 * power_of_ten(places - 1)
    }
}

/// Writes `n` / 10^`places` without trailing zeros.
pub fn scaled_number(n: u64, places: u32) -> (r: String)
    requires
        places <= 4,
    ensures
        r@ == scaled_text(n as nat, places as nat),
    decreases places,
{
    if places == 0 {
        number(n)
    } else if n % 10 == 0 {
        scaled_number(n / 10, places - 1)
    } else {
        let unit: u64 = power_of_ten(places);
        let fraction = padded_number(n % unit, places);
        crate::text::cat3(number(n / unit).as_str(), ".", fraction.as_str())
    }
}

/// A rate in words: megahertz, kilohertz or hertz.
pub open spec fn rate_text(rate: int) -> Seq<char> {
    if rate >= 1_000_000 {
        scaled_text(megahertz_e4(as_double(rate)) as nat, 4) + " MHz"@
    } else if rate >= 1_000 {
        scaled_text(rate as nat, 3) + " kHz"@
    } else {
        decimal(rate as nat) + " Hz"@
    }
}

/// A rate in words.
pub fn format_hqp_rate(rate: u64) -> (r: String)
    ensures
        r@ == rate_text(rate as int),
{
    if rate >= 1_000_000 {
        let tenthousandths = megahertz_in_e4(to_double(rate));
        cat2(scaled_number(tenthousandths, 4).as_str(), " MHz")
    } else if rate >= 1_000 {
        cat2(scaled_number(rate, 3).as_str(), " kHz")
    } else {
        cat2(number(rate).as_str(), " Hz")
    }
}

/// A padded number has exactly so many places, each a digit, and they spell the number's
/// last places.
pub proof fn padding_keeps_the_places(n: nat, places: nat)
    ensures
        padded(n, places).len() == places,
        crate::text::all_digits(padded(n, places)),
        n < ten_to(places) ==> crate::text::digits_value(padded(n, places)) == n,
    decreases places,
{
    if places > 0 {
        let front = padded(n / 10, (places - 1) as nat);
        let c = digit_char((n % 10) as int);
        let whole = padded(n, places);
        padding_keeps_the_places(n / 10, (places - 1) as nat);
        crate::text::digits_follow_their_values((n % 10) as int);
        assert(whole.subrange(0, whole.len() - 1) =~= front);
        assert forall|i: int| 0 <= i < whole.len() implies crate::text::is_digit(
            #[trigger] whole[i],
        ) by {
            if i < front.len() {
                assert(front[i] == whole[i]);
            }
        }
    }
}

/// A scaled number ends in no zero behind its point: a whole one has no point, and
/// scaling up by ten changes nothing.
pub proof fn scaled_numbers_end_in_no_zero(n: nat, places: nat)
    ensures
        scaled_text(10 * n, places + 1) == scaled_text(n, places),
        scaled_text(n, 0) == decimal(n),
        places > 0 && n % 10 != 0 ==> scaled_text(n, places) == decimal(n / ten_to(places)) + "."@
            + padded(n % ten_to(places), places),
{
    assert((10 * n) % 10 == 0 && (10 * n) / 10 == n);
}

/// A number of whole units shows no point.
pub proof fn whole_units_show_no_point(n: nat, places: nat)
    ensures
        scaled_text(n * ten_to(places), places) == decimal(n),
    decreases places,
{
    if places == 0 {
        assert(n * ten_to(0) == n) by (nonlinear_arith)
            requires
                ten_to(0) == 1,
        ;
    } else {
        let fewer = (places - 1) as nat;
        assert(n * ten_to(places) == 10 * (n * ten_to(fewer))) by (nonlinear_arith)
            requires
                ten_to(places) == 10 * ten_to(fewer),
        ;
        whole_units_show_no_point(n, fewer);
        scaled_numbers_end_in_no_zero(n * ten_to(fewer), fewer);
    }
}

/// A rate is told in hertz below a thousand and in kilohertz below a million, without a
/// point where those are whole.
pub proof fn low_rates_are_told_in_kilohertz(n: nat)
    ensures
        n < 1000 ==> rate_text(n as int) == decimal(n) + " Hz"@,
        1000 <= n < 1_000_000 ==> rate_text(n as int) == scaled_text(n, 3) + " kHz"@,
        1 <= n < 1000 ==> rate_text((n * 1000) as int) == decimal(n) + " kHz"@,
{
    whole_units_show_no_point(n, 3);
    assert(ten_to(3) == 1000) by {
        reveal_with_fuel(ten_to, 4);
    }
}

/// A rate of a million hertz and more is told in megahertz: whole hundreds of hertz
/// exactly, and whole megahertz without a point.
pub proof fn high_rates_are_told_in_megahertz(n: nat)
    ensures
        10_000 <= n < 10_000_000_000 ==> rate_text((n * 100) as int) == scaled_text(n, 4)
            + " MHz"@,
        1 <= n < 1_000_000 ==> rate_text((n * 1_000_000) as int) == decimal(n) + " MHz"@,
{
    if 10_000 <= n < 10_000_000_000 {
        whole_hundreds_are_exact((n * 100) as int);
    }
    if 1 <= n < 1_000_000 {
        whole_hundreds_are_exact((n * 1_000_000) as int);
        whole_units_show_no_point(n, 4);
        assert(ten_to(4) == 10_000) by {
            reveal_with_fuel(ten_to, 5);
        }
    }
}

} // verus!
