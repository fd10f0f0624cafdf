use vstd::prelude::*;

verus! {

/// IEEE-754 binary32 pattern of 27.0, the threshold above which a day is hot.
pub const THRESHOLD_BITS: u32 = 0x41d8_0000;

/// IEEE-754 binary32 pattern of positive infinity.
pub const POSITIVE_INFINITY_BITS: u32 = 0x7f80_0000;

/// A temperature in degrees Celsius, held as the IEEE-754 binary32 bit
/// pattern of the value the forecast service reported.
#[derive(Clone, Copy, Debug, PartialEq, Eq, Structural)]
pub struct Celsius {
    pub bits: u32,
}

/// Whether the binary32 value with pattern `bits` is strictly greater than 27.0.
///
/// Patterns with the sign bit set are negative (or a NaN), patterns above
/// positive infinity without the sign bit are NaNs, and on the remaining
/// non-negative patterns the numeric order is the order of the patterns.
pub open spec fn above_threshold(bits: u32) -> bool {
    THRESHOLD_BITS < bits <= POSITIVE_INFINITY_BITS
}

/// One card of the widget: a daily maximum and whether it beats the threshold.
#[derive(Clone, Copy, Debug, PartialEq, Eq, Structural)]
pub struct DisplayFact {
    pub value: Celsius,
    pub exceeds_threshold: bool,
}

/// The card derived from one daily maximum.
pub open spec fn fact_of(t: Celsius) -> DisplayFact {
    DisplayFact { value: t, exceeds_threshold: above_threshold(t.bits) }
}

/// The cards derived from a whole series, one per entry, in order.
pub open spec fn facts_of(series: Seq<Celsius>) -> Seq<DisplayFact> {
    series.map_values(|t: Celsius| fact_of(t))
}

impl Celsius {
    /// Whether this temperature is strictly greater than 27.0 degrees.
    pub fn exceeds_threshold(self) -> (r: bool)
        ensures
            r == above_threshold(self.bits),
    {
        THRESHOLD_BITS < self.bits && self.bits <= POSITIVE_INFINITY_BITS
    }
}

/// Derives one card per entry of `series`, keeping the order.
pub fn project(series: &Vec<Celsius>) -> (r: Vec<DisplayFact>)
    ensures
        r@ == facts_of(series@),
        r@.len() == series@.len(),
        forall|i: int|
            0 <= i < series@.len() ==> (#[trigger] r@[i]).value == series@[i]
                && r@[i].exceeds_threshold == above_threshold(series@[i].bits),
{
    let mut facts: Vec<DisplayFact> = Vec::new();
    let mut i: usize = 0;
    while i < series.len()
        invariant
            i <= series@.len(),
            facts@ == facts_of(series@.take(i as int)),
        decreases series@.len() - i,
    {
        let t = series[i];
        facts.push(DisplayFact { value: t, exceeds_threshold: t.exceeds_threshold() });
        assert(series@.take(i + 1) == series@.take(i as int).push(t));
        i = i + 1;
    }
    assert(series@.take(series@.len() as int) == series@);
    facts
}

} // verus!
