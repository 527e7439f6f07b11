//! Ultra wideband ranging math over the 40-bit device time counter.
use vstd::prelude::*;
use vstd::arithmetic::div_mod::lemma_mod_multiples_vanish;
use crate::{trunc_div, lemma_trunc_div_bounds};

verus! {

/// Modulus of the 40-bit device time counter.
pub const DTU_MODULUS: u64 = 0x100_0000_0000;

/// DTU rate in ticks per second.
pub const DTU_RATE: i128 = 63_897_600_000;

/// Speed of light in millimeters per second.
pub const SPEED_OF_LIGHT_MM_PER_SECOND: i128 = 299_792_458_000;

/// Reply delay in DTU for delayed sends (2 ms at `DTU_RATE`).
pub const REPLY_DELAY_DTU: u64 = 127_795_200;

/// `x` reduced into the 40-bit device time range.
pub open spec fn dtu_mod(x: int) -> int {
    x % (DTU_MODULUS as int)
}

/// Elapsed ticks from `earlier` to `later` on the wrapping 40-bit counter.
pub open spec fn spec_dtu_elapsed(later: int, earlier: int) -> int {
    dtu_mod(later - earlier)
}

/// The sum of a time and a delay on the wrapping 40-bit counter.
pub open spec fn spec_predicted_tx_time(programmed: int, delay: int) -> int {
    dtu_mod(programmed + delay)
}

/// The delayed transmit time: the wrapped sum with its low nine bits cleared,
/// as the radio ignores them.
pub open spec fn spec_delayed_tx_time(rx_time: int, reply_delay: int) -> int {
    let t = dtu_mod(rx_time + reply_delay);
    t - t % 512
}

/// The reply delay is two milliseconds of device time.
pub proof fn lemma_reply_delay_is_two_milliseconds()
    ensures
        REPLY_DELAY_DTU * 1000 == DTU_RATE * 2,
{
}

/// A value wrapped at 2^64 and then reduced mod 2^40 is the value reduced mod 2^40.
proof fn lemma_wrap64_mod40(x: int, w: int)
    requires
        w == x || w == x + 0x1_0000_0000_0000_0000int || w == x - 0x1_0000_0000_0000_0000int,
    ensures
        w % (DTU_MODULUS as int) == x % (DTU_MODULUS as int),
{
    let m = DTU_MODULUS as int;
    if w == x + 0x1_0000_0000_0000_0000int {
        lemma_mod_multiples_vanish(0x100_0000, x, m);
    } else if w == x - 0x1_0000_0000_0000_0000int {
        lemma_mod_multiples_vanish(-0x100_0000, x, m);
    }
}

/// Wrapped transmission delay time.
pub fn delayed_tx_time(rx_time: u64, reply_delay: u64) -> (r: u64)
    ensures
        r == spec_delayed_tx_time(rx_time as int, reply_delay as int),
{
    let sum = rx_time.wrapping_add(reply_delay);
    proof {
        lemma_wrap64_mod40(rx_time + reply_delay, sum as int);
    }
    let t = sum % DTU_MODULUS;
    let r = t & !0x1FFu64;
    assert(r == t - t % 512) by (bit_vector)
        requires
            r == t & !0x1FFu64,
    ;
    r
}

/// Wrap-safe elapsed ticks.
pub fn dtu_elapsed(later: u64, earlier: u64) -> (r: u64)
    ensures
        r == spec_dtu_elapsed(later as int, earlier as int),
{
    let d = later.wrapping_sub(earlier);
    proof {
        lemma_wrap64_mod40(later - earlier, d as int);
    }
    d % DTU_MODULUS
}

/// Predicted transmit time: the programmed time plus the antenna delay.
pub fn predicted_tx_time(programmed_time: u64, tx_antenna_delay: u64) -> (r: u64)
    ensures
        r == spec_predicted_tx_time(programmed_time as int, tx_antenna_delay as int),
{
    let sum = programmed_time.wrapping_add(tx_antenna_delay);
    proof {
        lemma_wrap64_mod40(programmed_time + tx_antenna_delay, sum as int);
    }
    sum % DTU_MODULUS
}


/// `q` when it fits in an `i64`, otherwise `i64::MAX`.
pub open spec fn i64_or_max(q: int) -> int {
    if i64::MIN <= q <= i64::MAX {
        q
    } else {
        i64::MAX as int
    }
}

/// Distance in millimeters for a one-way time of flight in DTU.
pub open spec fn spec_distance_mm(time_of_flight_dtu: int) -> int {
    i64_or_max(trunc_div(time_of_flight_dtu * SPEED_OF_LIGHT_MM_PER_SECOND, DTU_RATE as int))
}

/// Single-sided products and sum of the four DS-TWR durations, and the
/// asymmetric double-sided time of flight they give.
pub open spec fn spec_time_of_flight_dtu(
    time_round1: int,
    time_reply1: int,
    time_round2: int,
    time_reply2: int,
) -> int {
    let numerator = time_round1 * time_round2 - time_reply1 * time_reply2;
    let denominator = time_round1 + time_reply1 + time_round2 + time_reply2;
    if denominator == 0 {
        0
    } else {
        i64_or_max(trunc_div(numerator, denominator))
    }
}

/// Signed division by a positive divisor, truncating toward zero.
fn div_trunc_i128(a: i128, d: i128) -> (q: i128)
    requires
        d > 0,
    ensures
        q == trunc_div(a as int, d as int),
{
    a / d
}

/// `q` as an `i64`, or `i64::MAX` when it does not fit.
fn to_i64_or_max(q: i128) -> (r: i64)
    ensures
        r == i64_or_max(q as int),
{
    match i64::try_from(q) {
        Ok(v) => v,
        Err(_) => i64::MAX,
    }
}

/// Distance in millimeters for a one-way time of flight in DTU.
pub fn distance_mm(time_of_flight_dtu: i64) -> (r: i64)
    ensures
        r == spec_distance_mm(time_of_flight_dtu as int),
{
    let t = i128::from(time_of_flight_dtu);
    assert(t * SPEED_OF_LIGHT_MM_PER_SECOND <= i128::MAX && t * SPEED_OF_LIGHT_MM_PER_SECOND >= i128::MIN) by (nonlinear_arith)
        requires
            i64::MIN <= t <= i64::MAX,
    ;
    let millimeters = div_trunc_i128(t * SPEED_OF_LIGHT_MM_PER_SECOND, DTU_RATE);
    to_i64_or_max(millimeters)
}

/// One-way time of flight in DTU from the four DS-TWR durations.
///
/// The `i128` intermediates hold the products of 40-bit durations, which
/// exceed `u64`, and let the subtraction go negative without wrapping.
pub fn time_of_flight_dtu(time_round1: u64, time_reply1: u64, time_round2: u64, time_reply2: u64) -> (r: i64)
    requires
        time_round1 * time_round2 <= i128::MAX,
        time_reply1 * time_reply2 <= i128::MAX,
    ensures
        r == spec_time_of_flight_dtu(
            time_round1 as int,
            time_reply1 as int,
            time_round2 as int,
            time_reply2 as int,
        ),
{
    let round1 = time_round1 as i128;
    let reply1 = time_reply1 as i128;
    let round2 = time_round2 as i128;
    let reply2 = time_reply2 as i128;
    let numerator = round1 * round2 - reply1 * reply2;
    let denominator = round1 + reply1 + round2 + reply2;

    if denominator == 0 {
        return 0;
    }
    to_i64_or_max(div_trunc_i128(numerator, denominator))
}


/// Device times and delays below the 40-bit modulus.
pub open spec fn is_dtu(x: int) -> bool {
    0 <= x < DTU_MODULUS as int
}

/// Elapsed ticks undo a wrapped addition: from a time to that time plus a
/// delay, exactly the delay has elapsed, across the counter's wrap too.
pub proof fn lemma_elapsed_after_predicted(time: int, delay: int)
    requires
        is_dtu(time),
        is_dtu(delay),
    ensures
        spec_dtu_elapsed(spec_predicted_tx_time(time, delay), time) == delay,
{
    let m = DTU_MODULUS as int;
    let p = spec_predicted_tx_time(time, delay);
    if time + delay < m {
        assert(p == time + delay);
    } else {
        assert(p == time + delay - m);
        assert(dtu_mod(p - time) == dtu_mod(delay - m));
        lemma_mod_multiples_vanish(-1, delay, m);
    }
}

/// The delayed transmit time is a valid device time on a 512-tick boundary,
/// and it lies less than 512 ticks before the time plus the delay.
pub proof fn lemma_delayed_tx_time_bounds(rx_time: int, reply_delay: int)
    requires
        is_dtu(rx_time),
        512 <= reply_delay < DTU_MODULUS as int,
    ensures
        is_dtu(spec_delayed_tx_time(rx_time, reply_delay)),
        spec_delayed_tx_time(rx_time, reply_delay) % 512 == 0,
        reply_delay - 512 < spec_dtu_elapsed(spec_delayed_tx_time(rx_time, reply_delay), rx_time)
            <= reply_delay,
{
    let m = DTU_MODULUS as int;
    let t = dtu_mod(rx_time + reply_delay);
    let r = spec_delayed_tx_time(rx_time, reply_delay);
    assert(0 <= t % 512 < 512);
    assert(r % 512 == 0) by {
        lemma_mod_multiples_vanish(-(t / 512), t, 512);
        vstd::arithmetic::div_mod::lemma_fundamental_div_mod(t, 512);
    }
    if rx_time + reply_delay < m {
        assert(t == rx_time + reply_delay);
        assert(r - rx_time == reply_delay - t % 512);
    } else {
        assert(t == rx_time + reply_delay - m);
        assert(r - rx_time == reply_delay - t % 512 - m);
        lemma_mod_multiples_vanish(-1, reply_delay - t % 512, m);
    }
}

/// Double-sided two-way ranging recovers the true time of flight exactly:
/// when each round trip is twice the flight time plus the other side's
/// reply time, the formula gives the flight time, whatever the replies.
pub proof fn lemma_ideal_exchange_recovers_time_of_flight(flight: int, reply1: int, reply2: int)
    requires
        0 <= flight <= i64::MAX,
        0 <= reply1,
        0 <= reply2,
    ensures
        spec_time_of_flight_dtu(2 * flight + reply1, reply1, 2 * flight + reply2, reply2) == flight,
{
    let d = (2 * flight + reply1) + reply1 + (2 * flight + reply2) + reply2;
    let n = (2 * flight + reply1) * (2 * flight + reply2) - reply1 * reply2;
    if d != 0 {
        assert(n == flight * d) by (nonlinear_arith)
            requires
                d == (2 * flight + reply1) + reply1 + (2 * flight + reply2) + reply2,
                n == (2 * flight + reply1) * (2 * flight + reply2) - reply1 * reply2,
        ;
        assert(n / d == flight) by {
            vstd::arithmetic::div_mod::lemma_div_multiples_vanish(flight, d);
        }
        assert(n >= 0) by (nonlinear_arith)
            requires
                n == flight * d,
                flight >= 0,
                d > 0,
        ;
    }
}

/// Durations below the 40-bit modulus never overflow the time of flight's
/// `i128` products.
pub proof fn lemma_dtu_durations_fit(a: int, b: int)
    requires
        is_dtu(a),
        is_dtu(b),
    ensures
        a * b <= i128::MAX,
{
    assert(a * b <= (DTU_MODULUS as int) * (DTU_MODULUS as int)) by (nonlinear_arith)
        requires
            0 <= a <= DTU_MODULUS as int,
            0 <= b <= DTU_MODULUS as int,
    ;
}

/// No flight, no distance.
pub proof fn lemma_distance_of_zero()
    ensures
        spec_distance_mm(0) == 0,
{
}

/// Distance grows with the time of flight.
pub proof fn lemma_distance_monotonic(t1: int, t2: int)
    requires
        0 <= t1 <= t2,
    ensures
        0 <= spec_distance_mm(t1) <= spec_distance_mm(t2),
{
    let c = SPEED_OF_LIGHT_MM_PER_SECOND as int;
    let r = DTU_RATE as int;
    assert(t1 * c <= t2 * c) by (nonlinear_arith)
        requires
            0 <= t1 <= t2,
            c > 0,
    ;
    assert(0 <= t1 * c) by (nonlinear_arith)
        requires
            0 <= t1,
            c > 0,
    ;
    vstd::arithmetic::div_mod::lemma_div_is_ordered(t1 * c, t2 * c, r);
    vstd::arithmetic::div_mod::lemma_div_pos_is_pos(t1 * c, r);
}


/// Distances this far from zero, 2^43 millimeters, bound every range.
pub open spec fn range_bound() -> int {
    0x800_0000_0000
}

/// From durations below the 40-bit modulus, the time of flight is below it
/// in magnitude.
pub proof fn lemma_time_of_flight_bounded(a: int, b: int, c: int, d: int)
    requires
        is_dtu(a),
        is_dtu(b),
        is_dtu(c),
        is_dtu(d),
    ensures
        -(DTU_MODULUS as int) < spec_time_of_flight_dtu(a, b, c, d) < DTU_MODULUS as int,
{
    let m = DTU_MODULUS as int;
    let den = a + b + c + d;
    let n = a * c - b * d;
    if den != 0 {
        assert(n < m * den && -n < m * den) by (nonlinear_arith)
            requires
                0 <= a < m,
                0 <= b < m,
                0 <= c < m,
                0 <= d < m,
                den == a + b + c + d,
                den > 0,
                n == a * c - b * d,
        {
            assert(a * c <= a * m);
            assert(b * d <= b * m);
            assert(0 <= a * c);
            assert(0 <= b * d);
            if a == 0 {
                assert(a * c == 0);
            } else {
                assert(a * c < a * m);
            }
            if b == 0 {
                assert(b * d == 0);
            } else {
                assert(b * d < b * m);
            }
        }
        if n >= 0 {
            vstd::arithmetic::div_mod::lemma_multiply_divide_lt(n, den, m);
        } else {
            vstd::arithmetic::div_mod::lemma_multiply_divide_lt(-n, den, m);
        }
    }
}

/// A time of flight below the 40-bit modulus gives a distance below 2^43 mm.
pub proof fn lemma_distance_bounded(t: int)
    requires
        -(DTU_MODULUS as int) < t < DTU_MODULUS as int,
    ensures
        -range_bound() < spec_distance_mm(t) < range_bound(),
{
    let c = SPEED_OF_LIGHT_MM_PER_SECOND as int;
    let r = DTU_RATE as int;
    let m = DTU_MODULUS as int;
    if t >= 0 {
        assert(t * c < r * range_bound()) by (nonlinear_arith)
            requires
                0 <= t < m,
                m == 0x100_0000_0000,
                c == 299_792_458_000,
                r == 63_897_600_000,
                range_bound() == 0x800_0000_0000,
        ;
        assert(0 <= t * c) by (nonlinear_arith)
            requires
                0 <= t,
                c > 0,
        ;
        vstd::arithmetic::div_mod::lemma_multiply_divide_lt(t * c, r, range_bound());
        vstd::arithmetic::div_mod::lemma_div_pos_is_pos(t * c, r);
    } else {
        assert(-(t * c) < r * range_bound()) by (nonlinear_arith)
            requires
                -m < t < 0,
                m == 0x100_0000_0000,
                c == 299_792_458_000,
                r == 63_897_600_000,
                range_bound() == 0x800_0000_0000,
        ;
        assert(0 < -(t * c)) by (nonlinear_arith)
            requires
                t < 0,
                c > 0,
        ;
        vstd::arithmetic::div_mod::lemma_multiply_divide_lt(-(t * c), r, range_bound());
        vstd::arithmetic::div_mod::lemma_div_pos_is_pos(-(t * c), r);
    }
}


/// The double-sided time of flight is the quotient, rounded toward zero, of
/// `round1 * round2 - reply1 * reply2` by the sum of all four durations:
/// `sum * t <= n < sum * (t + 1)` for a non-negative numerator `n`, and the
/// mirror image for a negative one; zero when all durations are zero.
pub proof fn lemma_time_of_flight_formula(round1: int, reply1: int, round2: int, reply2: int)
    requires
        is_dtu(round1),
        is_dtu(reply1),
        is_dtu(round2),
        is_dtu(reply2),
    ensures
        ({
            let n = round1 * round2 - reply1 * reply2;
            let sum = round1 + reply1 + round2 + reply2;
            let t = spec_time_of_flight_dtu(round1, reply1, round2, reply2);
            &&& (sum == 0 ==> t == 0)
            &&& (sum != 0 && n >= 0 ==> sum * t <= n < sum * (t + 1))
            &&& (sum != 0 && n < 0 ==> sum * (-t) <= -n < sum * (-t + 1))
        }),
{
    let n = round1 * round2 - reply1 * reply2;
    let sum = round1 + reply1 + round2 + reply2;
    if sum != 0 {
        lemma_trunc_div_bounds(n, sum);
        lemma_time_of_flight_bounded(round1, reply1, round2, reply2);
        let q = trunc_div(n, sum);
        let m = DTU_MODULUS as int;
        if n >= 0 {
            assert(q <= n) by (nonlinear_arith)
                requires
                    sum >= 1,
                    sum * q <= n,
                    q >= 0,
            ;
        }
        assert(-m < q < m) by {
            if q >= m || q <= -m {
                assert(spec_time_of_flight_dtu(round1, reply1, round2, reply2) == i64_or_max(q));
            }
        }
    }
}

/// The distance is the time of flight times the speed of light over the
/// tick rate, rounded toward zero: for `v = tof * 299_792_458_000` and
/// `rate = 63_897_600_000`, `rate * d <= v < rate * (d + 1)` when `v` is
/// non-negative, and the mirror image otherwise.
pub proof fn lemma_distance_formula(time_of_flight: int)
    requires
        -(DTU_MODULUS as int) < time_of_flight < DTU_MODULUS as int,
    ensures
        ({
            let v = time_of_flight * 299_792_458_000;
            let rate = 63_897_600_000int;
            let d = spec_distance_mm(time_of_flight);
            &&& (v >= 0 ==> rate * d <= v < rate * (d + 1))
            &&& (v < 0 ==> rate * (-d) <= -v < rate * (-d + 1))
        }),
{
    let c = SPEED_OF_LIGHT_MM_PER_SECOND as int;
    lemma_trunc_div_bounds(time_of_flight * c, DTU_RATE as int);
    lemma_distance_bounded(time_of_flight);
    let q = trunc_div(time_of_flight * c, DTU_RATE as int);
    assert(-range_bound() < q < range_bound()) by {
        if q >= range_bound() || q <= -range_bound() {
            assert(spec_distance_mm(time_of_flight) == i64_or_max(q));
        }
    }
}


/// For any durations, the time of flight is the quotient of
/// `round1 * round2 - reply1 * reply2` by the sum of the four durations,
/// rounded toward zero, or `i64::MAX` when that quotient does not fit in an
/// `i64`.
pub proof fn lemma_time_of_flight_any_durations(round1: int, reply1: int, round2: int, reply2: int)
    requires
        0 <= round1,
        0 <= reply1,
        0 <= round2,
        0 <= reply2,
    ensures
        ({
            let n = round1 * round2 - reply1 * reply2;
            let sum = round1 + reply1 + round2 + reply2;
            let t = spec_time_of_flight_dtu(round1, reply1, round2, reply2);
            &&& (sum == 0 ==> t == 0)
            &&& (sum != 0 && n >= 0 ==> (sum * t <= n < sum * (t + 1)) || (t == i64::MAX && n >= sum
                * (i64::MAX + 1)))
            &&& (sum != 0 && n < 0 ==> (sum * (-t) <= -n < sum * (-t + 1)) || (t == i64::MAX && -n
                >= sum * (i64::MAX + 2)))
        }),
{
    let n = round1 * round2 - reply1 * reply2;
    let sum = round1 + reply1 + round2 + reply2;
    if sum != 0 {
        lemma_trunc_div_bounds(n, sum);
        let q = trunc_div(n, sum);
        if n >= 0 && q > i64::MAX {
            assert(sum * q >= sum * (i64::MAX + 1)) by (nonlinear_arith)
                requires
                    q >= i64::MAX + 1,
                    sum > 0,
            ;
        }
        if n < 0 && q < i64::MIN {
            assert(sum * (-q) >= sum * (i64::MAX + 2)) by (nonlinear_arith)
                requires
                    -q >= i64::MAX + 2,
                    sum > 0,
            ;
        }
    }
}

/// For any time of flight, the distance is `tof * 299_792_458_000` over
/// `63_897_600_000`, rounded toward zero, or `i64::MAX` when that does not
/// fit in an `i64`.
pub proof fn lemma_distance_any_time(time_of_flight: int)
    ensures
        ({
            let v = time_of_flight * 299_792_458_000;
            let rate = 63_897_600_000int;
            let d = spec_distance_mm(time_of_flight);
            &&& (v >= 0 ==> (rate * d <= v < rate * (d + 1)) || (d == i64::MAX && v >= rate * (
            i64::MAX + 1)))
            &&& (v < 0 ==> (rate * (-d) <= -v < rate * (-d + 1)) || (d == i64::MAX && -v >= rate * (
            i64::MAX + 2)))
        }),
{
    let v = time_of_flight * SPEED_OF_LIGHT_MM_PER_SECOND;
    let rate = DTU_RATE as int;
    lemma_trunc_div_bounds(v, rate);
    let q = trunc_div(v, rate);
    if v >= 0 && q > i64::MAX {
        assert(rate * q >= rate * (i64::MAX + 1)) by (nonlinear_arith)
            requires
                q >= i64::MAX + 1,
                rate > 0,
        ;
    }
    if v < 0 && q < i64::MIN {
        assert(rate * (-q) >= rate * (i64::MAX + 2)) by (nonlinear_arith)
            requires
                -q >= i64::MAX + 2,
                rate > 0,
        ;
    }
}


/// The 40-bit counter arithmetic: the elapsed ticks are the one value below
/// 2^40 that takes `earlier` to `later` modulo 2^40; the predicted time is the
/// sum reduced below 2^40; the delayed time is the reduced sum with its low
/// nine bits cleared, at most 511 ticks earlier.
pub proof fn lemma_counter_arithmetic(a: u64, b: u64)
    ensures
        ({
            let m = 0x100_0000_0000int;
            let elapsed = spec_dtu_elapsed(a as int, b as int);
            let predicted = spec_predicted_tx_time(a as int, b as int);
            let delayed = spec_delayed_tx_time(a as int, b as int);
            &&& 0 <= elapsed < m
            &&& (b + elapsed) % m == (a as int) % m
            &&& 0 <= predicted < m
            &&& (predicted - a - b) % m == 0
            &&& 0 <= delayed <= predicted < delayed + 512
            &&& delayed % 512 == 0
        }),
{
    let m = 0x100_0000_0000int;
    let elapsed = spec_dtu_elapsed(a as int, b as int);
    let predicted = spec_predicted_tx_time(a as int, b as int);
    vstd::arithmetic::div_mod::lemma_fundamental_div_mod(a - b, m);
    vstd::arithmetic::div_mod::lemma_fundamental_div_mod(a as int, m);
    vstd::arithmetic::div_mod::lemma_fundamental_div_mod(a + b, m);
    vstd::arithmetic::div_mod::lemma_fundamental_div_mod(predicted, 512);
    lemma_mod_multiples_vanish((a - b) / m, b + elapsed, m);
    assert(b + elapsed == a - m * ((a - b) / m));
    lemma_mod_multiples_vanish((a - b) / m, a - m * ((a - b) / m), m);
    assert((predicted - a - b) == -m * ((a + b) / m));
    vstd::arithmetic::div_mod::lemma_mod_multiples_vanish(-((a + b) / m), 0, m);
    lemma_mod_multiples_vanish(-(predicted / 512), predicted, 512);
}

} // verus!
