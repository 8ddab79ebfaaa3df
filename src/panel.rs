use vstd::prelude::*;
use crate::battery::{BatteryReading, battery_panel, render_battery_info};
use crate::band::{spec_band_color, spec_color_band};
use crate::bar::{BarLine, bar_text};
use crate::category::InfoCategory;
use crate::cpu::{CpuPayload, cpu_text, render_cpu_info};
use crate::disk::{DiskReading, disk_text, render_disk_info};
use crate::memory::{GaugeRatio, MemoryPayload, MemoryReading, memory_text, spec_memory_gauge, render_memory_info};
use crate::network::{
    NetworkReading, names_ascending, names_distinct, names_strictly_ascending, network_text,
    render_network_info,
};
use crate::process::{
    ProcessReading, pids_ascending, pids_distinct, pids_strictly_ascending, process_text,
    render_process_info,
};
use crate::temperature::{TemperaturePayload, TemperatureReading, render_temperature_info, temperature_text};

verus! {

/// Host metrics taken for one frame.
pub struct MetricSnapshot {
    /// Per-core loads, in hundredths of a percent.
    pub cpu_loads: Vec<i64>,
    pub memory: MemoryReading,
    pub networks: Vec<NetworkReading>,
    pub processes: Vec<ProcessReading>,
    pub disks: Vec<DiskReading>,
    pub temperatures: Vec<TemperatureReading>,
}

/// The content of the active tab's panel.
pub enum Panel {
    /// A summary beside a chart of coloured bars.
    Chart { text: String, bars: Vec<BarLine> },
    /// A summary above a gauge.
    Gauge { text: String, gauge: GaugeRatio },
    /// A single text panel.
    Text { text: String },
}

/// Builds the panel of category `c` from this frame's readings; the battery
/// readings are `None` where the power provider failed.
pub fn render_panel(c: InfoCategory, snap: MetricSnapshot, batteries: Option<Vec<BatteryReading>>) -> (r: Panel)
    ensures
        c == InfoCategory::CPU ==> (r matches Panel::Chart { text, bars } && text@ == cpu_text(
            snap.cpu_loads@,
        ) && bars@.len() == snap.cpu_loads@.len() && forall|i: int|
            0 <= i < bars@.len() ==> {
                &&& (#[trigger] bars@[i]).text@ == bar_text(snap.cpu_loads@[i] as int)
                &&& bars@[i].color == spec_band_color(spec_color_band(snap.cpu_loads@[i] as int))
            }),
        c == InfoCategory::Memory ==> (r matches Panel::Gauge { text, gauge } && text@ == memory_text(
            snap.memory,
        ) && gauge == spec_memory_gauge(snap.memory)),
        c == InfoCategory::Network ==> (r matches Panel::Text { text } && exists|s: Seq<NetworkReading>|
            {
                &&& names_ascending(s)
                &&& s.to_multiset() == snap.networks@.to_multiset()
                &&& text@ == network_text(s)
                &&& (names_distinct(snap.networks@) ==> names_strictly_ascending(s))
            }),
        c == InfoCategory::Process ==> (r matches Panel::Text { text } && exists|s: Seq<ProcessReading>|
            {
                &&& pids_ascending(s)
                &&& s.to_multiset() == snap.processes@.to_multiset()
                &&& text@ == process_text(s)
                &&& (pids_distinct(snap.processes@) ==> pids_strictly_ascending(s))
            }),
        c == InfoCategory::Disk ==> (r matches Panel::Text { text } && text@ == disk_text(
            snap.disks@,
        )),
        c == InfoCategory::Temperature ==> (r matches Panel::Chart { text, bars } && text@
            == temperature_text(snap.temperatures@) && bars@.len() == snap.temperatures@.len()
            && forall|i: int|
            0 <= i < bars@.len() ==> {
                &&& (#[trigger] bars@[i]).text@ == bar_text(snap.temperatures@[i].centi as int)
                &&& bars@[i].color == spec_band_color(
                    spec_color_band(snap.temperatures@[i].centi as int),
                )
            }),
        c == InfoCategory::Battery ==> (r matches Panel::Text { text } && text@ == battery_panel(
            match batteries {
                Some(v) => Some(v@),
                None => None,
            },
        )),
{
    match c {
        InfoCategory::CPU => {
            let p: CpuPayload = render_cpu_info(&snap.cpu_loads);
            Panel::Chart { text: p.text, bars: p.bars }
        },
        InfoCategory::Memory => {
            let p: MemoryPayload = render_memory_info(snap.memory);
            Panel::Gauge { text: p.text, gauge: p.gauge }
        },
        InfoCategory::Network => Panel::Text { text: render_network_info(snap.networks) },
        InfoCategory::Process => Panel::Text { text: render_process_info(snap.processes) },
        InfoCategory::Disk => Panel::Text { text: render_disk_info(&snap.disks) },
        InfoCategory::Temperature => {
            let p: TemperaturePayload = render_temperature_info(&snap.temperatures);
            Panel::Chart { text: p.text, bars: p.bars }
        },
        InfoCategory::Battery => Panel::Text { text: render_battery_info(batteries) },
    }
}

} // verus!
