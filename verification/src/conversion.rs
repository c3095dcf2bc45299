//! From a raw converter sample to a voltage, and from a voltage to the
//! quantity it stands for.

use vstd::prelude::*;
use crate::calibration::{CalPt, CalPtOrp, TempSource};
use crate::fixed::{
    div_floor, floor_div, lemma_floor_div_bounds, lemma_floor_div_exact,
    lemma_floor_div_magnitude, lemma_floor_div_scaled, lemma_product_bounds, saturate,
    saturate_i32,
};

verus! {

/// Full-scale reference of the converter, in microvolts.
pub const ADC_VREF: i32 = 2_048_000;

/// The sample that stands for the full-scale reference.
pub const ADC_FULL_SCALE: i32 = 32_767;

/// Shift of the pH slope with temperature, −0.05694 pH per volt and degree
/// Celsius, in units of 10⁻⁵.
pub const PH_TEMP_C: i32 = -5_694;

/// What a product of `PH_TEMP_C`, a temperature in µ°C and a voltage in µV is
/// divided by to give µpH: 10⁵ for the unit of `PH_TEMP_C`, and 10⁶ for one of
/// the two factors in millionths.
pub const PH_TEMP_C_SCALE: i64 = 100_000_000_000;

/// Slope of the board's temperature tap: 100 °C per volt.
pub const TEMP_SLOPE: i32 = 100;

/// The temperature that the tap shows at no voltage: −60 °C, in µ°C.
pub const TEMP_OFFSET: i32 = -60_000_000;

/// The voltage, in microvolts, that a raw sample stands for:
/// `digi / 32767 × 2.048 V`.
pub open spec fn voltage_of_sample(digi: int) -> int {
    floor_div(digi * ADC_VREF, ADC_FULL_SCALE as int)
}

/// The temperature, in µ°C, that the board's temperature tap reports by a
/// voltage in microvolts: `T = 100·V − 60`.
pub open spec fn temp_of_voltage(V: int) -> int {
    TEMP_SLOPE * V + TEMP_OFFSET
}

/// One term of the Lagrange sum: `yj` weighted by the basis polynomial of the
/// node `xj` against the nodes `xa` and `xb`, at `X`.
pub open spec fn lagrange_term(xj: int, yj: int, xa: int, xb: int, X: int) -> int {
    floor_div(yj * ((X - xa) * (X - xb)), (xj - xa) * (xj - xb))
}

/// The degree-2 polynomial through `(x0, y0)`, `(x1, y1)`, `(x2, y2)` at `X`,
/// as the sum of its three Lagrange terms.
pub open spec fn lagrange(x0: int, y0: int, x1: int, y1: int, x2: int, y2: int, X: int) -> int {
    lagrange_term(x0, y0, x1, x2, X) + lagrange_term(x1, y1, x0, x2, X) + lagrange_term(
        x2,
        y2,
        x0,
        x1,
        X,
    )
}

/// The line through `(x0, y0)` and `(x1, y1)` at `X`: the slope
/// `(y1 − y0) / (x1 − x0)` applied from the second point.
pub open spec fn linear(x0: int, y0: int, x1: int, y1: int, X: int) -> int {
    y1 + floor_div((y1 - y0) * (X - x1), x1 - x0)
}

/// What the shift of the pH slope with temperature adds to a reading at the
/// voltage `V`: `−0.05694 × (temp − temp_ref) × V`.
pub open spec fn temp_compensation(V: int, temp: int, temp_ref: int) -> int {
    floor_div(PH_TEMP_C * ((temp - temp_ref) * V), PH_TEMP_C_SCALE as int)
}

/// Whether the calibration points define a model: the voltages of the points
/// in use are pairwise distinct.
pub open spec fn ph_calibration_defined(cal_0: CalPt, cal_1: CalPt, cal_2: Option<CalPt>) -> bool {
    &&& cal_0.V != cal_1.V
    &&& cal_2 matches Some(c2) ==> c2.V != cal_0.V && c2.V != cal_1.V
}

/// The pH that the calibration assigns to the voltage `V` at the temperature
/// `temp`: quadratic through three points, linear through two, compensated
/// for the distance of `temp` from the temperature of the first point.
pub open spec fn ph_of_voltage(
    V: int,
    temp: int,
    cal_0: CalPt,
    cal_1: CalPt,
    cal_2: Option<CalPt>,
) -> int {
    let model = match cal_2 {
        Some(c2) => lagrange(
            cal_0.V as int,
            cal_0.pH as int,
            cal_1.V as int,
            cal_1.pH as int,
            c2.V as int,
            c2.pH as int,
            V,
        ),
        None => linear(cal_0.V as int, cal_0.pH as int, cal_1.V as int, cal_1.pH as int, V),
    };
    model + temp_compensation(V, temp, cal_0.T as int)
}

/// The potential that a one-point calibration assigns to the voltage `V`:
/// the line through the origin and the calibration point.
pub open spec fn orp_of_voltage(V: int, cal: CalPtOrp) -> int {
    floor_div(cal.ORP * V, cal.V as int)
}

/// Converts a raw 16-bit sample to microvolts.
pub fn voltage_from_adc(digi: i16) -> (V: i32)
    ensures
        V == voltage_of_sample(digi as int),
        -2_048_063 <= V <= 2_048_000,
    no_unwind
{
    proof {
        assert(-32_768 * 2_048_000 <= digi * ADC_VREF <= 32_767 * 2_048_000) by (nonlinear_arith)
            requires
                -32_768 <= digi <= 32_767,
                ADC_VREF == 2_048_000,
        ;
    }
    let n: i128 = (digi as i128) * (ADC_VREF as i128);
    let q: i128 = div_floor(n, ADC_FULL_SCALE as i128);
    proof {
        lemma_floor_div_bounds(n as int, ADC_FULL_SCALE as int);
        assert(-2_048_063 <= q <= 2_048_000) by (nonlinear_arith)
            requires
                q * ADC_FULL_SCALE <= n < (q + 1) * ADC_FULL_SCALE,
                ADC_FULL_SCALE == 32_767,
                -32_768 * 2_048_000 <= n <= 32_767 * 2_048_000,
        ;
    }
    q as i32
}

/// Maps the voltage of the board's temperature tap to a temperature.
pub fn temp_from_voltage(V: i32) -> (T: i32)
    ensures
        T == saturate(temp_of_voltage(V as int)),
    no_unwind
{
    proof {
        lemma_product_bounds(TEMP_SLOPE as int, V as int, 100, 0x8000_0000);
    }
    saturate_i32((TEMP_SLOPE as i128) * (V as i128) + (TEMP_OFFSET as i128))
}

/// The temperature, in µ°C, that a temperature source stands for.
pub open spec fn temperature_of(t: TempSource) -> int {
    match t {
        TempSource::OnBoard(sample) => temp_of_voltage(voltage_of_sample(sample as int)),
        TempSource::OffBoard(temp) => temp as int,
    }
}

/// Resolves a temperature source to a temperature.
pub fn temperature(t: TempSource) -> (temp: i32)
    ensures
        temp == temperature_of(t),
    no_unwind
{
    match t {
        TempSource::OnBoard(sample) => temp_from_voltage(voltage_from_adc(sample)),
        TempSource::OffBoard(temp) => temp,
    }
}

fn lagrange_term_wide(xj: i32, yj: i32, xa: i32, xb: i32, X: i32) -> (t: i128)
    requires
        xj != xa,
        xj != xb,
    ensures
        t == lagrange_term(xj as int, yj as int, xa as int, xb as int, X as int),
        -0x8000_0000_0000_0000_0000_0000 <= t <= 0x8000_0000_0000_0000_0000_0000,
    no_unwind
{
    let a: i128 = (X as i128) - (xa as i128);
    let b: i128 = (X as i128) - (xb as i128);
    let da: i128 = (xj as i128) - (xa as i128);
    let db: i128 = (xj as i128) - (xb as i128);
    proof {
        lemma_product_bounds(a as int, b as int, 0x1_0000_0000, 0x1_0000_0000);
        lemma_product_bounds(da as int, db as int, 0x1_0000_0000, 0x1_0000_0000);
        lemma_product_bounds(yj as int, a * b, 0x8000_0000, 0x1_0000_0000_0000_0000);
        assert(da * db != 0) by (nonlinear_arith)
            requires
                da != 0,
                db != 0,
        ;
    }
    let num: i128 = (yj as i128) * (a * b);
    let den: i128 = da * db;
    proof {
        lemma_floor_div_magnitude(num as int, den as int, 0x8000_0000_0000_0000_0000_0000);
    }
    div_floor(num, den)
}

fn lagrange_wide(pt0: (i32, i32), pt1: (i32, i32), pt2: (i32, i32), X: i32) -> (r: i128)
    requires
        pt0.0 != pt1.0,
        pt0.0 != pt2.0,
        pt1.0 != pt2.0,
    ensures
        r == lagrange(
            pt0.0 as int,
            pt0.1 as int,
            pt1.0 as int,
            pt1.1 as int,
            pt2.0 as int,
            pt2.1 as int,
            X as int,
        ),
        -0x2_0000_0000_0000_0000_0000_0000 <= r <= 0x2_0000_0000_0000_0000_0000_0000,
    no_unwind
{
    let t0: i128 = lagrange_term_wide(pt0.0, pt0.1, pt1.0, pt2.0, X);
    let t1: i128 = lagrange_term_wide(pt1.0, pt1.1, pt0.0, pt2.0, X);
    let t2: i128 = lagrange_term_wide(pt2.0, pt2.1, pt0.0, pt1.0, X);
    t0 + t1 + t2
}

/// Evaluates at `X` the degree-2 Lagrange polynomial through three points
/// `(voltage, quantity)` with pairwise distinct voltages.
pub fn lg(pt0: (i32, i32), pt1: (i32, i32), pt2: (i32, i32), X: i32) -> (r: i32)
    requires
        pt0.0 != pt1.0,
        pt0.0 != pt2.0,
        pt1.0 != pt2.0,
    ensures
        r == saturate(
            lagrange(
                pt0.0 as int,
                pt0.1 as int,
                pt1.0 as int,
                pt1.1 as int,
                pt2.0 as int,
                pt2.1 as int,
                X as int,
            ),
        ),
    no_unwind
{
    saturate_i32(lagrange_wide(pt0, pt1, pt2, X))
}

fn temp_compensation_wide(V: i32, temp: i32, temp_ref: i32) -> (c: i128)
    ensures
        c == temp_compensation(V as int, temp as int, temp_ref as int),
        -0x1_0000_0000_0000_0000_0000 <= c <= 0x1_0000_0000_0000_0000_0000,
    no_unwind
{
    let dt: i128 = (temp as i128) - (temp_ref as i128);
    proof {
        lemma_product_bounds(dt as int, V as int, 0x1_0000_0000, 0x8000_0000);
        lemma_product_bounds(PH_TEMP_C as int, dt * V, 5_694, 0x8000_0000_0000_0000);
    }
    let num: i128 = (PH_TEMP_C as i128) * (dt * (V as i128));
    proof {
        lemma_floor_div_magnitude(
            num as int,
            PH_TEMP_C_SCALE as int,
            0x1_0000_0000_0000_0000_0000,
        );
    }
    div_floor(num, PH_TEMP_C_SCALE as i128)
}

fn linear_wide(x0: i32, y0: i32, x1: i32, y1: i32, X: i32) -> (r: i128)
    requires
        x0 != x1,
    ensures
        r == linear(x0 as int, y0 as int, x1 as int, y1 as int, X as int),
        -0x2_0000_0000_0000_0000 <= r <= 0x2_0000_0000_0000_0000,
    no_unwind
{
    let dy: i128 = (y1 as i128) - (y0 as i128);
    let dx: i128 = (X as i128) - (x1 as i128);
    let den: i128 = (x1 as i128) - (x0 as i128);
    proof {
        lemma_product_bounds(dy as int, dx as int, 0x1_0000_0000, 0x1_0000_0000);
        lemma_floor_div_magnitude(dy * dx, den as int, 0x1_0000_0000_0000_0000);
    }
    (y1 as i128) + div_floor(dy * dx, den)
}

/// Converts an electrode voltage to pH at the temperature `temp`, by the
/// linear model through two calibration points or the quadratic one through
/// three. The voltages of the points in use must be pairwise distinct.
pub fn ph_from_voltage(
    V: i32,
    temp: i32,
    cal_0: &CalPt,
    cal_1: &CalPt,
    cal_2: &Option<CalPt>,
) -> (pH: i32)
    requires
        ph_calibration_defined(*cal_0, *cal_1, *cal_2),
    ensures
        pH == saturate(ph_of_voltage(V as int, temp as int, *cal_0, *cal_1, *cal_2)),
    no_unwind
{
    let comp: i128 = temp_compensation_wide(V, temp, cal_0.T);
    let model: i128 = match cal_2 {
        Some(c2) => lagrange_wide((cal_0.V, cal_0.pH), (cal_1.V, cal_1.pH), (c2.V, c2.pH), V),
        None => linear_wide(cal_0.V, cal_0.pH, cal_1.V, cal_1.pH, V),
    };
    saturate_i32(model + comp)
}

/// Converts an electrode voltage to an oxidation-reduction potential by the
/// line through the origin and the calibration point, whose voltage must not
/// be zero.
pub fn orp_from_voltage(V: i32, cal: &CalPtOrp) -> (orp: i32)
    requires
        cal.V != 0,
    ensures
        orp == saturate(orp_of_voltage(V as int, *cal)),
    no_unwind
{
    proof {
        lemma_product_bounds(cal.ORP as int, V as int, 0x8000_0000, 0x8000_0000);
    }
    saturate_i32(div_floor((cal.ORP as i128) * (V as i128), cal.V as i128))
}

/// At the temperature of the first calibration point nothing is added for
/// temperature.
pub proof fn lemma_no_compensation_at_reference(V: int, temp_ref: int)
    ensures
        temp_compensation(V, temp_ref, temp_ref) == 0,
{
    assert((temp_ref - temp_ref) * V == 0) by (nonlinear_arith);
    lemma_floor_div_exact(0, PH_TEMP_C_SCALE as int);
}

/// A two-point calibration reads back both of its points: at the temperature
/// of the first point, the voltage of either point converts to exactly the pH
/// of that point, whatever two points with distinct voltages were given.
pub proof fn lemma_linear_round_trip(cal_0: CalPt, cal_1: CalPt)
    requires
        cal_0.V != cal_1.V,
    ensures
        ph_of_voltage(cal_0.V as int, cal_0.T as int, cal_0, cal_1, None) == cal_0.pH,
        ph_of_voltage(cal_1.V as int, cal_0.T as int, cal_0, cal_1, None) == cal_1.pH,
        saturate(ph_of_voltage(cal_0.V as int, cal_0.T as int, cal_0, cal_1, None)) == cal_0.pH,
        saturate(ph_of_voltage(cal_1.V as int, cal_0.T as int, cal_0, cal_1, None)) == cal_1.pH,
{
    let d: int = cal_1.V - cal_0.V;
    let dy: int = cal_1.pH - cal_0.pH;
    lemma_no_compensation_at_reference(cal_0.V as int, cal_0.T as int);
    lemma_no_compensation_at_reference(cal_1.V as int, cal_0.T as int);
    assert(dy * (cal_0.V - cal_1.V) == (-dy) * d) by (nonlinear_arith)
        requires
            d == cal_1.V - cal_0.V,
    ;
    lemma_floor_div_exact(-dy, d);
    assert(dy * (cal_1.V - cal_1.V) == 0 * d) by (nonlinear_arith);
    lemma_floor_div_exact(0, d);
}

/// A one-point calibration reads back its point, and reads no potential at
/// no voltage.
pub proof fn lemma_orp_round_trip(cal: CalPtOrp)
    requires
        cal.V != 0,
    ensures
        orp_of_voltage(cal.V as int, cal) == cal.ORP,
        saturate(orp_of_voltage(cal.V as int, cal)) == cal.ORP,
        orp_of_voltage(0, cal) == 0,
{
    lemma_floor_div_exact(cal.ORP as int, cal.V as int);
    assert(cal.ORP * 0 == 0 * cal.V) by (nonlinear_arith);
    lemma_floor_div_exact(0, cal.V as int);
}

/// The Lagrange term of a node is the node's own quantity at that node, and
/// nothing at either of the other two nodes.
pub proof fn lemma_lagrange_term_at_nodes(xj: int, yj: int, xa: int, xb: int)
    requires
        xj != xa,
        xj != xb,
    ensures
        lagrange_term(xj, yj, xa, xb, xj) == yj,
        lagrange_term(xj, yj, xa, xb, xa) == 0,
        lagrange_term(xj, yj, xa, xb, xb) == 0,
{
    let d: int = (xj - xa) * (xj - xb);
    assert(d != 0) by (nonlinear_arith)
        requires
            d == (xj - xa) * (xj - xb),
            xj != xa,
            xj != xb,
    ;
    lemma_floor_div_exact(yj, d);
    assert(yj * ((xa - xa) * (xa - xb)) == 0 * d) by (nonlinear_arith);
    assert(yj * ((xb - xa) * (xb - xb)) == 0 * d) by (nonlinear_arith);
    lemma_floor_div_exact(0, d);
}

/// The quadratic through three points with pairwise distinct voltages passes
/// through each of them exactly.
pub proof fn lemma_lagrange_interpolates(x0: int, y0: int, x1: int, y1: int, x2: int, y2: int)
    requires
        x0 != x1,
        x0 != x2,
        x1 != x2,
    ensures
        lagrange(x0, y0, x1, y1, x2, y2, x0) == y0,
        lagrange(x0, y0, x1, y1, x2, y2, x1) == y1,
        lagrange(x0, y0, x1, y1, x2, y2, x2) == y2,
{
    lemma_lagrange_term_at_nodes(x0, y0, x1, x2);
    lemma_lagrange_term_at_nodes(x1, y1, x0, x2);
    lemma_lagrange_term_at_nodes(x2, y2, x0, x1);
}

/// A three-point calibration reads back all of its points: at the temperature
/// of the first point, the voltage of each point converts to exactly the pH of
/// that point.
pub proof fn lemma_quadratic_round_trip(cal_0: CalPt, cal_1: CalPt, cal_2: CalPt)
    requires
        ph_calibration_defined(cal_0, cal_1, Some(cal_2)),
    ensures
        saturate(ph_of_voltage(cal_0.V as int, cal_0.T as int, cal_0, cal_1, Some(cal_2)))
            == cal_0.pH,
        saturate(ph_of_voltage(cal_1.V as int, cal_0.T as int, cal_0, cal_1, Some(cal_2)))
            == cal_1.pH,
        saturate(ph_of_voltage(cal_2.V as int, cal_0.T as int, cal_0, cal_1, Some(cal_2)))
            == cal_2.pH,
{
    lemma_lagrange_interpolates(
        cal_0.V as int,
        cal_0.pH as int,
        cal_1.V as int,
        cal_1.pH as int,
        cal_2.V as int,
        cal_2.pH as int,
    );
    lemma_no_compensation_at_reference(cal_0.V as int, cal_0.T as int);
    lemma_no_compensation_at_reference(cal_1.V as int, cal_0.T as int);
    lemma_no_compensation_at_reference(cal_2.V as int, cal_0.T as int);
}

/// The common denominator of the three Lagrange terms.
pub open spec fn lagrange_denominator(x0: int, x1: int, x2: int) -> int {
    (x0 - x1) * (x0 - x2) * (x1 - x2)
}

/// The numerator, over the common denominator, of the degree-2 polynomial
/// through `(x0, y0)`, `(x1, y1)`, `(x2, y2)` at `X`.
pub open spec fn lagrange_numerator(
    x0: int,
    y0: int,
    x1: int,
    y1: int,
    x2: int,
    y2: int,
    X: int,
) -> int {
    y0 * ((X - x1) * (X - x2)) * (x1 - x2) - y1 * ((X - x0) * (X - x2)) * (x0 - x2) + y2 * ((X
        - x0) * (X - x1)) * (x0 - x1)
}

/// Away from the calibration points the quadratic agrees with the
/// interpolating polynomial to within three millionths: the polynomial,
/// `lagrange_numerator / lagrange_denominator` as an exact fraction, is at
/// least `lagrange` and less than `lagrange + 3`, since each of the three
/// terms is rounded down by less than one.
pub proof fn lemma_lagrange_close_to_polynomial(
    x0: int,
    y0: int,
    x1: int,
    y1: int,
    x2: int,
    y2: int,
    X: int,
)
    requires
        x0 != x1,
        x0 != x2,
        x1 != x2,
    ensures
        ({
            let den = lagrange_denominator(x0, x1, x2);
            let num = lagrange_numerator(x0, y0, x1, y1, x2, y2, X);
            let sum = lagrange(x0, y0, x1, y1, x2, y2, X);
            &&& den != 0
            &&& den > 0 ==> sum * den <= num < (sum + 3) * den
            &&& den < 0 ==> (sum + 3) * den < num <= sum * den
        }),
{
    let den = lagrange_denominator(x0, x1, x2);
    let t0 = lagrange_term(x0, y0, x1, x2, X);
    let t1 = lagrange_term(x1, y1, x0, x2, X);
    let t2 = lagrange_term(x2, y2, x0, x1, X);
    let n0 = y0 * ((X - x1) * (X - x2));
    let n1 = y1 * ((X - x0) * (X - x2));
    let n2 = y2 * ((X - x0) * (X - x1));
    let d0 = (x0 - x1) * (x0 - x2);
    let d1 = (x1 - x0) * (x1 - x2);
    let d2 = (x2 - x0) * (x2 - x1);
    let e0 = x1 - x2;
    let e1 = -(x0 - x2);
    let e2 = x0 - x1;
    assert(d0 != 0 && d1 != 0 && d2 != 0 && d0 * e0 == den && d1 * e1 == den && d2 * e2 == den)
        by (nonlinear_arith)
        requires
            x0 != x1,
            x0 != x2,
            x1 != x2,
            d0 == (x0 - x1) * (x0 - x2),
            d1 == (x1 - x0) * (x1 - x2),
            d2 == (x2 - x0) * (x2 - x1),
            e0 == x1 - x2,
            e1 == -(x0 - x2),
            e2 == x0 - x1,
            den == (x0 - x1) * (x0 - x2) * (x1 - x2),
    ;
    assert(den != 0) by (nonlinear_arith)
        requires
            d0 != 0,
            e0 != 0,
            d0 * e0 == den,
    ;
    lemma_floor_div_scaled(n0, d0, e0);
    lemma_floor_div_scaled(n1, d1, e1);
    lemma_floor_div_scaled(n2, d2, e2);
    let num = lagrange_numerator(x0, y0, x1, y1, x2, y2, X);
    assert(num == n0 * e0 + n1 * e1 + n2 * e2) by (nonlinear_arith)
        requires
            num == y0 * ((X - x1) * (X - x2)) * (x1 - x2) - y1 * ((X - x0) * (X - x2)) * (x0
                - x2) + y2 * ((X - x0) * (X - x1)) * (x0 - x1),
            n0 == y0 * ((X - x1) * (X - x2)),
            n1 == y1 * ((X - x0) * (X - x2)),
            n2 == y2 * ((X - x0) * (X - x1)),
            e0 == x1 - x2,
            e1 == -(x0 - x2),
            e2 == x0 - x1,
    ;
    assert((t0 + t1 + t2) * den == t0 * den + t1 * den + t2 * den && (t0 + t1 + t2 + 3) * den
        == (t0 + 1) * den + (t1 + 1) * den + (t2 + 1) * den) by (nonlinear_arith);
}

} // verus!
