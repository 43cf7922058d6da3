//! Division helpers shared by the calendar maths.

use vstd::prelude::*;

verus! {

/// Split a signed count into a number of whole cycles and the amount left
/// over, where the leftover is always non-negative. This is floor division
/// with its remainder, which is what calendar arithmetic needs for dates
/// before the epoch: an ordinary truncating division would round towards
/// zero instead.
pub fn split_cycles(number_of_periods: i64, cycle_length: i64) -> (r: (i64, i64))
    requires
        cycle_length > 0,
    ensures
        number_of_periods == r.0 * cycle_length + r.1,
        0 <= r.1 < cycle_length,
{
    let mut cycles: i64 = number_of_periods / cycle_length;
    let mut remainder: i64 = number_of_periods % cycle_length;

    assert(number_of_periods == cycles * cycle_length + remainder) by (nonlinear_arith)
        requires
            cycle_length > 0,
            number_of_periods >= 0 ==> cycles == number_of_periods as int / cycle_length as int
                && remainder == number_of_periods as int % cycle_length as int,
            number_of_periods < 0 ==> cycles == -((-(number_of_periods as int))
                / (cycle_length as int)) && remainder == -((-(number_of_periods as int))
                % (cycle_length as int)),
    ;

    if remainder < 0 {
        assert(cycles > i64::MIN) by (nonlinear_arith)
            requires
                cycle_length >= 1,
                remainder < 0,
                -cycle_length < remainder,
                number_of_periods >= i64::MIN,
                number_of_periods == cycles * cycle_length + remainder,
        ;
        remainder += cycle_length;
        cycles -= 1;
        assert(number_of_periods == cycles * cycle_length + remainder) by (nonlinear_arith)
            requires
                number_of_periods == (cycles + 1) * cycle_length + (remainder - cycle_length),
        ;
    }

    (cycles, remainder)
}

} // verus!
