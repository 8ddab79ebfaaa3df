use vstd::prelude::*;
use crate::band::{spec_band_color, spec_color_band};
use crate::bar::{BarLine, bar_text, render_bar};
use crate::text::{centi_text, pad_right_text, push_centi, push_padded};

verus! {

/// Width of the label column of the temperature summary.
pub const LABEL_WIDTH: usize = 20;

/// One sensor: its label and its temperature in hundredths of a degree Celsius.
#[derive(Clone, Debug)]
pub struct TemperatureReading {
    pub label: String,
    pub centi: i64,
}

/// What the temperature tab shows: one summary line and one bar per sensor.
pub struct TemperaturePayload {
    pub text: String,
    pub bars: Vec<BarLine>,
}

/// The summary line of one sensor.
pub open spec fn temperature_line(t: TemperatureReading) -> Seq<char> {
    pad_right_text(t.label@, 20) + ": "@ + centi_text(t.centi as int) + " \u{b0}C\n"@
}

/// The summary lines of all sensors, in the order given.
pub open spec fn temperature_text(ts: Seq<TemperatureReading>) -> Seq<char>
    decreases ts.len(),
{
    if ts.len() == 0 {
        Seq::empty()
    } else {
        temperature_text(ts.drop_last()) + temperature_line(ts.last())
    }
}

/// Formats sensor readings as summary lines and coloured bars; a bar is
/// filled by the whole degrees, kept within its width.
pub fn render_temperature_info(ts: &Vec<TemperatureReading>) -> (r: TemperaturePayload)
    ensures
        r.text@ == temperature_text(ts@),
        r.bars@.len() == ts@.len(),
        forall|i: int|
            0 <= i < ts@.len() ==> {
                &&& (#[trigger] r.bars@[i]).text@ == bar_text(ts@[i].centi as int)
                &&& r.bars@[i].color == spec_band_color(spec_color_band(ts@[i].centi as int))
            },
{
    let mut text = String::new();
    let mut bars: Vec<BarLine> = Vec::new();
    let mut i: usize = 0;
    while i < ts.len()
        invariant
            i <= ts@.len(),
            text@ == temperature_text(ts@.take(i as int)),
            bars@.len() == i,
            forall|k: int|
                0 <= k < i ==> {
                    &&& (#[trigger] bars@[k]).text@ == bar_text(ts@[k].centi as int)
                    &&& bars@[k].color == spec_band_color(spec_color_band(ts@[k].centi as int))
                },
        decreases ts@.len() - i,
    {
        let t = &ts[i];
        push_padded(&mut text, t.label.as_str(), LABEL_WIDTH);
        text.append(": ");
        push_centi(&mut text, t.centi);
        text.append(" \u{b0}C\n");
        bars.push(render_bar(t.centi));
        proof {
            let p = ts@.take(i + 1);
            assert(p.drop_last() =~= ts@.take(i as int));
        }
        i = i + 1;
        assert(text@ =~= temperature_text(ts@.take(i as int)));
    }
    assert(ts@.take(i as int) =~= ts@);
    TemperaturePayload { text, bars }
}

} // verus!
