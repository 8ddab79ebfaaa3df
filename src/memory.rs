use vstd::prelude::*;
use crate::text::{centi_text, push_centi};

verus! {

/// Bytes in one gigabyte (1024 to the third power).
pub const BYTES_PER_GB: u64 = 1073741824;

/// Memory totals of the host, in bytes.
#[derive(Clone, Copy, Debug, PartialEq, Eq, Structural)]
pub struct MemoryReading {
    pub total_bytes: u64,
    pub used_bytes: u64,
    pub free_bytes: u64,
}

/// The filled share of a gauge, as a fraction in `0..=1`.
#[derive(Clone, Copy, Debug, PartialEq, Eq, Structural)]
pub struct GaugeRatio {
    pub numerator: u64,
    pub denominator: u64,
}

/// What the memory tab shows: a summary and a usage gauge.
pub struct MemoryPayload {
    pub text: String,
    pub gauge: GaugeRatio,
}

/// A byte count in gigabytes, in hundredths, rounded to the nearest.
pub open spec fn spec_gb_centi(bytes: int) -> int {
    (bytes * 100 + 536870912) / 1073741824
}

/// Converts a byte count to hundredths of a gigabyte, rounded to the nearest.
pub fn gb_centi(bytes: u64) -> (r: i64)
    ensures
        r as int == spec_gb_centi(bytes as int),
{
    let wide: u128 = (bytes as u128) * 100 + 536870912;
    let q: u128 = wide / 1073741824;
    assert(q <= 0xffff_ffff_ffff_ffff_u128 * 100 / 1073741824 + 1) by (nonlinear_arith)
        requires
            wide <= 0xffff_ffff_ffff_ffff_u128 * 100 + 536870912,
            q == wide / 1073741824,
    ;
    q as i64
}

/// The memory summary: total, used and free memory in gigabytes.
pub open spec fn memory_text(m: MemoryReading) -> Seq<char> {
    "Total Memory: "@ + centi_text(spec_gb_centi(m.total_bytes as int)) + " GB\nUsed Memory: "@
        + centi_text(spec_gb_centi(m.used_bytes as int)) + " GB\nFree Memory: "@ + centi_text(
        spec_gb_centi(m.free_bytes as int),
    ) + " GB"@
}

/// The gauge of used over total memory; empty when the total is zero, full
/// when more than the total is reported used.
pub open spec fn spec_memory_gauge(m: MemoryReading) -> GaugeRatio {
    if m.total_bytes == 0 {
        GaugeRatio { numerator: 0, denominator: 1 }
    } else if m.used_bytes > m.total_bytes {
        GaugeRatio { numerator: m.total_bytes, denominator: m.total_bytes }
    } else {
        GaugeRatio { numerator: m.used_bytes, denominator: m.total_bytes }
    }
}

/// Formats the memory totals as a summary in gigabytes and a usage gauge.
pub fn render_memory_info(m: MemoryReading) -> (r: MemoryPayload)
    ensures
        r.text@ == memory_text(m),
        r.gauge == spec_memory_gauge(m),
        r.gauge.denominator > 0,
        r.gauge.numerator <= r.gauge.denominator,
{
    let mut text = String::new();
    text.append("Total Memory: ");
    push_centi(&mut text, gb_centi(m.total_bytes));
    text.append(" GB\nUsed Memory: ");
    push_centi(&mut text, gb_centi(m.used_bytes));
    text.append(" GB\nFree Memory: ");
    push_centi(&mut text, gb_centi(m.free_bytes));
    text.append(" GB");
    let gauge = if m.total_bytes == 0 {
        GaugeRatio { numerator: 0, denominator: 1 }
    } else if m.used_bytes > m.total_bytes {
        GaugeRatio { numerator: m.total_bytes, denominator: m.total_bytes }
    } else {
        GaugeRatio { numerator: m.used_bytes, denominator: m.total_bytes }
    };
    MemoryPayload { text, gauge }
}

} // verus!
