//! What holds of the speed a fan curve prescribes, for every curve and
//! every temperature.

use crate::fan::{
    bracket, interpolate, lemma_bracket_skips, points_in_range, speed_at, speeds_sorted,
    temps_increasing, temps_sorted, FanCurvePoint,
};
use vstd::arithmetic::div_mod::{lemma_div_is_ordered, lemma_div_multiples_vanish};
use vstd::prelude::*;

verus! {

/// The prescribed speed never falls as the temperature rises.
pub open spec fn speed_monotone(points: Seq<FanCurvePoint>) -> bool {
    forall|a: int, b: int|
        #![trigger speed_at(points, a), speed_at(points, b)]
        a <= b ==> speed_at(points, a) <= speed_at(points, b)
}

/// The segment search stays inside the curve, and every point it passes
/// lies below `temp`.
proof fn lemma_bracket_found(points: Seq<FanCurvePoint>, temp: int, from: int)
    requires
        0 <= from,
        from + 1 < points.len(),
        temp <= points.last().temp,
    ensures
        from <= bracket(points, temp, from),
        bracket(points, temp, from) + 1 < points.len(),
        points[bracket(points, temp, from) + 1].temp >= temp,
        forall|j: int|
            from < j <= bracket(points, temp, from) ==> (#[trigger] points[j]).temp < temp,
    decreases points.len() - from,
{
    if points[from + 1].temp >= temp {
    } else {
        lemma_bracket_found(points, temp, from + 1);
    }
}

/// On a rising or level segment the interpolated speed lies between the
/// speeds of its two ends.
proof fn lemma_interpolate_between(lo: FanCurvePoint, hi: FanCurvePoint, temp: int)
    requires
        lo.temp < temp <= hi.temp,
        lo.speed <= hi.speed <= 100,
    ensures
        lo.speed <= interpolate(lo, hi, temp) <= hi.speed,
{
    let r = hi.temp - lo.temp;
    let x = lo.speed * r + (temp - lo.temp) * (hi.speed - lo.speed);
    assert(r * lo.speed <= x <= r * hi.speed) by (nonlinear_arith)
        requires
            r == hi.temp - lo.temp,
            x == lo.speed * r + (temp - lo.temp) * (hi.speed - lo.speed),
            0 < temp - lo.temp <= r,
            lo.speed <= hi.speed,
    ;
    lemma_div_is_ordered(r * lo.speed, x, r);
    lemma_div_is_ordered(x, r * hi.speed, r);
    lemma_div_multiples_vanish(lo.speed as int, r);
    lemma_div_multiples_vanish(hi.speed as int, r);
}

/// On a rising or level segment the interpolated speed never falls as the
/// temperature rises.
proof fn lemma_interpolate_rises(lo: FanCurvePoint, hi: FanCurvePoint, a: int, b: int)
    requires
        lo.temp < a <= b <= hi.temp,
        lo.speed <= hi.speed,
    ensures
        interpolate(lo, hi, a) <= interpolate(lo, hi, b),
{
    let r = hi.temp - lo.temp;
    let xa = lo.speed * r + (a - lo.temp) * (hi.speed - lo.speed);
    let xb = lo.speed * r + (b - lo.temp) * (hi.speed - lo.speed);
    assert(xa <= xb) by (nonlinear_arith)
        requires
            xa == lo.speed * r + (a - lo.temp) * (hi.speed - lo.speed),
            xb == lo.speed * r + (b - lo.temp) * (hi.speed - lo.speed),
            a <= b,
            lo.speed <= hi.speed,
    ;
    lemma_div_is_ordered(xa, xb, r);
}

/// At the right end of a segment the interpolated speed is that end's speed.
proof fn lemma_interpolate_at_end(lo: FanCurvePoint, hi: FanCurvePoint)
    requires
        lo.temp < hi.temp,
        hi.speed <= 100,
    ensures
        interpolate(lo, hi, hi.temp as int) == hi.speed,
{
    let r = hi.temp - lo.temp;
    let x = lo.speed * r + (hi.temp - lo.temp) * (hi.speed - lo.speed);
    assert(x == r * hi.speed) by (nonlinear_arith)
        requires
            r == hi.temp - lo.temp,
            x == lo.speed * r + (hi.temp - lo.temp) * (hi.speed - lo.speed),
    ;
    lemma_div_multiples_vanish(hi.speed as int, r);
}

/// A curve whose points are in range prescribes a speed within `0..=100`
/// at every temperature.
pub proof fn lemma_speed_in_range(points: Seq<FanCurvePoint>, temp: int)
    requires
        points_in_range(points),
    ensures
        0 <= speed_at(points, temp) <= 100,
{
    if points.len() > 0 && points[0].temp < temp < points.last().temp {
        lemma_bracket_found(points, temp, 0);
        let i = bracket(points, temp, 0);
        assert(points[i + 1].in_range());
    } else if points.len() > 0 {
        assert(points[0].in_range());
        assert(points.last().in_range());
    }
}

/// A curve with a single point prescribes that point's speed at every
/// temperature.
pub proof fn lemma_single_point(points: Seq<FanCurvePoint>, temp: int)
    requires
        points.len() == 1,
    ensures
        speed_at(points, temp) == points[0].speed,
{
}

/// Below the first point the first point's speed holds.
pub proof fn lemma_below_first(points: Seq<FanCurvePoint>, temp: int)
    requires
        points.len() > 0,
        temp < points[0].temp,
    ensures
        speed_at(points, temp) == points[0].speed,
{
}

/// Above the last point of a sorted curve the last point's speed holds.
pub proof fn lemma_above_last(points: Seq<FanCurvePoint>, temp: int)
    requires
        points.len() > 0,
        temps_sorted(points),
        temp > points.last().temp,
    ensures
        speed_at(points, temp) == points.last().speed,
{
    assert(points[0].temp <= points[points.len() - 1].temp);
}

/// At the temperature of one of its points, a curve with increasing
/// temperatures and speeds in range prescribes that point's speed.
pub proof fn lemma_speed_at_point(points: Seq<FanCurvePoint>, k: int)
    requires
        points_in_range(points),
        temps_increasing(points),
        0 <= k < points.len(),
    ensures
        speed_at(points, points[k].temp as int) == points[k].speed,
{
    let temp = points[k].temp as int;
    if 0 < k < points.len() - 1 {
        assert(points[0].temp < points[k].temp);
        assert(points[k].temp < points[points.len() - 1].temp);
        assert forall|j: int| 0 < j <= k - 1 implies (#[trigger] points[j]).temp < temp by {
            assert(points[j].temp < points[k].temp);
        }
        lemma_bracket_skips(points, temp, 0, k - 1);
        assert(bracket(points, temp, k - 1) == k - 1);
        assert(points[k - 1].temp < points[k].temp);
        assert(points[k].in_range());
        lemma_interpolate_at_end(points[k - 1], points[k]);
    } else if k > 0 {
        assert(points[0].temp < points[k].temp);
    }
}

/// With rising speeds, the prescribed speed lies between the speeds of the
/// two ends of the segment that holds `temp`.
proof fn lemma_speed_within_segment(points: Seq<FanCurvePoint>, temp: int)
    requires
        points_in_range(points),
        temps_increasing(points),
        speeds_sorted(points),
        points.len() > 0,
        points[0].temp < temp < points.last().temp,
    ensures
        points[bracket(points, temp, 0)].temp < temp,
        temp <= points[bracket(points, temp, 0) + 1].temp,
        0 <= bracket(points, temp, 0),
        bracket(points, temp, 0) + 1 < points.len(),
        points[bracket(points, temp, 0)].speed <= speed_at(points, temp),
        speed_at(points, temp) <= points[bracket(points, temp, 0) + 1].speed,
{
    lemma_bracket_found(points, temp, 0);
    let i = bracket(points, temp, 0);
    assert(points[i].temp < temp) by {
        if i > 0 {
            assert(points[i].temp < temp);
        }
    }
    assert(points[i + 1].in_range());
    assert(points[i].speed <= points[i + 1].speed);
    lemma_interpolate_between(points[i], points[i + 1], temp);
}

/// With rising speeds, no temperature is prescribed less than the first
/// speed or more than the last.
proof fn lemma_speed_within_curve(points: Seq<FanCurvePoint>, temp: int)
    requires
        points_in_range(points),
        temps_increasing(points),
        speeds_sorted(points),
        points.len() > 0,
    ensures
        points[0].speed <= speed_at(points, temp) <= points.last().speed,
{
    assert(points[0].speed <= points[points.len() - 1].speed);
    if points[0].temp < temp < points.last().temp {
        lemma_speed_within_segment(points, temp);
        let i = bracket(points, temp, 0);
        assert(points[0].speed <= points[i].speed);
        assert(points[i + 1].speed <= points[points.len() - 1].speed);
    }
}

/// With rising speeds, the prescribed speed at `a` is at most that at `b`
/// whenever `a <= b`.
proof fn lemma_speed_rises(points: Seq<FanCurvePoint>, a: int, b: int)
    requires
        points_in_range(points),
        temps_increasing(points),
        speeds_sorted(points),
        a <= b,
    ensures
        speed_at(points, a) <= speed_at(points, b),
{
    if points.len() == 0 {
    } else if a <= points[0].temp || b >= points.last().temp {
        lemma_speed_within_curve(points, a);
        lemma_speed_within_curve(points, b);
        if a <= points[0].temp {
        } else {
            // `b` lies at or above the last point, and `a` above the first.
            assert(points[0].temp < a <= b);
            if a >= points.last().temp {
            } else {
                assert(b >= points.last().temp);
                assert(points[0].temp <= points[points.len() - 1].temp);
            }
        }
    } else {
        lemma_speed_within_segment(points, a);
        lemma_speed_within_segment(points, b);
        let i = bracket(points, a, 0);
        let j = bracket(points, b, 0);
        if i == j {
            assert(points[i].speed <= points[i + 1].speed);
            lemma_interpolate_rises(points[i], points[i + 1], a, b);
        } else if i < j {
            assert(points[i + 1].speed <= points[j].speed);
        } else {
            assert(points[j + 1].temp <= points[i].temp);
        }
    }
}

/// For a curve with increasing temperatures and points in range, the
/// prescribed speed never falls with rising temperature exactly when the
/// speeds of the points never fall.
pub proof fn lemma_monotone_iff_speeds_sorted(points: Seq<FanCurvePoint>)
    requires
        points_in_range(points),
        temps_increasing(points),
    ensures
        speed_monotone(points) <==> speeds_sorted(points),
{
    if speeds_sorted(points) {
        assert forall|a: int, b: int| a <= b implies speed_at(points, a) <= speed_at(
            points,
            b,
        ) by {
            lemma_speed_rises(points, a, b);
        }
    }
    if speed_monotone(points) {
        assert forall|i: int, j: int| 0 <= i <= j < points.len() implies points[i].speed
            <= points[j].speed by {
            lemma_speed_at_point(points, i);
            lemma_speed_at_point(points, j);
            if i < j {
                assert(points[i].temp < points[j].temp);
            }
            assert(speed_at(points, points[i].temp as int) <= speed_at(
                points,
                points[j].temp as int,
            ));
        }
    }
}

} // verus!
