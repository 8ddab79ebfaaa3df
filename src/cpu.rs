use vstd::prelude::*;
use crate::band::{spec_band_color, spec_color_band};
use crate::bar::{BarLine, bar_text, render_bar};
use crate::text::{centi_text, decimal_text, push_centi, push_decimal};

verus! {

/// What the CPU tab shows: one summary line and one bar per core.
pub struct CpuPayload {
    pub text: String,
    pub bars: Vec<BarLine>,
}

/// The summary line of core `idx` with a load in hundredths of a percent.
pub open spec fn cpu_line(idx: nat, centi: int) -> Seq<char> {
    "CPU "@ + decimal_text(idx) + ": "@ + centi_text(centi) + "%\n"@
}

/// The summary lines of all cores, in core order.
pub open spec fn cpu_text(loads: Seq<i64>) -> Seq<char>
    decreases loads.len(),
{
    if loads.len() == 0 {
        Seq::empty()
    } else {
        cpu_text(loads.drop_last()) + cpu_line((loads.len() - 1) as nat, loads.last() as int)
    }
}

/// Formats per-core loads, given in hundredths of a percent, as summary
/// lines and coloured bars.
pub fn render_cpu_info(loads: &Vec<i64>) -> (r: CpuPayload)
    ensures
        r.text@ == cpu_text(loads@),
        r.bars@.len() == loads@.len(),
        forall|i: int|
            0 <= i < loads@.len() ==> {
                &&& (#[trigger] r.bars@[i]).text@ == bar_text(loads@[i] as int)
                &&& r.bars@[i].color == spec_band_color(spec_color_band(loads@[i] as int))
            },
{
    let mut text = String::new();
    let mut bars: Vec<BarLine> = Vec::new();
    let mut i: usize = 0;
    while i < loads.len()
        invariant
            i <= loads@.len(),
            text@ == cpu_text(loads@.take(i as int)),
            bars@.len() == i,
            forall|k: int|
                0 <= k < i ==> {
                    &&& (#[trigger] bars@[k]).text@ == bar_text(loads@[k] as int)
                    &&& bars@[k].color == spec_band_color(spec_color_band(loads@[k] as int))
                },
        decreases loads@.len() - i,
    {
        let load = loads[i];
        text.append("CPU ");
        push_decimal(&mut text, i as u64);
        text.append(": ");
        push_centi(&mut text, load);
        text.append("%\n");
        bars.push(render_bar(load));
        proof {
            let t = loads@.take(i + 1);
            assert(t.drop_last() =~= loads@.take(i as int));
        }
        i = i + 1;
        assert(text@ =~= cpu_text(loads@.take(i as int)));
    }
    assert(loads@.take(i as int) =~= loads@);
    CpuPayload { text, bars }
}

} // verus!
