use vstd::prelude::*;
use crate::text::{decimal_text, push_decimal};

verus! {

/// One battery as the power provider reports it.
#[derive(Clone, Debug)]
pub struct BatteryReading {
    pub vendor: Option<String>,
    pub model: Option<String>,
    /// Charge state, such as "Charging" or "Full".
    pub state: String,
    /// Charge in whole percent.
    pub percent: u64,
    /// Estimated seconds until the battery is full, where known.
    pub time_to_full_secs: Option<u64>,
}

/// The human-readable text of a duration of `secs` seconds, as humantime writes it.
pub uninterp spec fn human_duration_text(secs: nat) -> Seq<char>;

/// Relies on humantime::format_duration and its `Display`: the text is a
/// function of the duration alone, and a zero duration reads "0s".
#[verifier::external_body]
fn human_duration(secs: u64) -> (r: String)
    ensures
        r@ == human_duration_text(secs as nat),
        secs == 0 ==> r@ == seq!['0', 's'],
{
    humantime::format_duration(std::time::Duration::from_secs(secs)).to_string()
}

/// The text of an optional field, or `fallback` where it is absent.
pub open spec fn text_or(o: Option<String>, fallback: Seq<char>) -> Seq<char> {
    match o {
        Some(s) => s@,
        None => fallback,
    }
}

/// The time-to-full text of a battery.
pub open spec fn time_to_full_text(b: BatteryReading) -> Seq<char> {
    match b.time_to_full_secs {
        Some(secs) => human_duration_text(secs as nat),
        None => "Unknown"@,
    }
}

/// The lines of battery number `idx`, given the text of its time to full
/// charge (or none, read as unknown).
pub open spec fn battery_entry_with(idx: nat, b: BatteryReading, time: Option<String>) -> Seq<char> {
    "Battery #"@ + decimal_text(idx) + "\n  Vendor: "@ + text_or(b.vendor, "Unknown"@)
        + "\n  Model: "@ + text_or(b.model, "Unknown Model"@) + "\n  State: "@ + b.state@
        + "\n  Battery Percentage: "@ + decimal_text(b.percent as nat)
        + "%\n  Time to full charge: "@ + text_or(time, "Unknown"@) + "\n"@
}

/// The lines of battery number `idx`.
pub open spec fn battery_entry(idx: nat, b: BatteryReading) -> Seq<char> {
    "Battery #"@ + decimal_text(idx) + "\n  Vendor: "@ + text_or(b.vendor, "Unknown"@)
        + "\n  Model: "@ + text_or(b.model, "Unknown Model"@) + "\n  State: "@ + b.state@
        + "\n  Battery Percentage: "@ + decimal_text(b.percent as nat)
        + "%\n  Time to full charge: "@ + time_to_full_text(b) + "\n"@
}

/// The entries of all batteries, numbered from zero in the order given.
pub open spec fn battery_text(bs: Seq<BatteryReading>) -> Seq<char>
    decreases bs.len(),
{
    if bs.len() == 0 {
        Seq::empty()
    } else {
        battery_text(bs.drop_last()) + battery_entry((bs.len() - 1) as nat, bs.last())
    }
}

/// What the battery tab shows when the provider could not list batteries.
pub open spec fn no_battery_info_text() -> Seq<char> {
    "No battery information available"@
}

/// What the battery tab shows when the host has no battery.
pub open spec fn no_batteries_text() -> Seq<char> {
    "No batteries found"@
}

/// The battery panel: a placeholder when the provider failed, a label for
/// a host without batteries, else one entry per battery.
pub open spec fn battery_panel(readings: Option<Seq<BatteryReading>>) -> Seq<char> {
    match readings {
        None => no_battery_info_text(),
        Some(bs) => if bs.len() == 0 {
            no_batteries_text()
        } else {
            battery_text(bs)
        },
    }
}

/// Appends an optional field, or `fallback` where it is absent.
fn push_or(text: &mut String, o: &Option<String>, fallback: &str)
    ensures
        final(text)@ == old(text)@ + text_or(*o, fallback@),
{
    match o {
        Some(s) => text.append(s.as_str()),
        None => text.append(fallback),
    }
}

/// Appends the lines of battery number `idx`, given the text of its time
/// to full charge.
pub fn push_battery_entry(text: &mut String, idx: usize, b: &BatteryReading, time: &Option<String>)
    ensures
        final(text)@ == old(text)@ + battery_entry_with(idx as nat, *b, *time),
{
    text.append("Battery #");
    push_decimal(text, idx as u64);
    text.append("\n  Vendor: ");
    push_or(text, &b.vendor, "Unknown");
    text.append("\n  Model: ");
    push_or(text, &b.model, "Unknown Model");
    text.append("\n  State: ");
    text.append(b.state.as_str());
    text.append("\n  Battery Percentage: ");
    push_decimal(text, b.percent);
    text.append("%\n  Time to full charge: ");
    push_or(text, time, "Unknown");
    text.append("\n");
    assert(final(text)@ =~= old(text)@ + battery_entry_with(idx as nat, *b, *time));
}

/// Formats the batteries; `None` stands for a provider that could not list
/// them, which yields a placeholder rather than a failure.
pub fn render_battery_info(readings: Option<Vec<BatteryReading>>) -> (r: String)
    ensures
        r@ == battery_panel(
            match readings {
                Some(v) => Some(v@),
                None => None,
            },
        ),
{
    match readings {
        None => String::from_str("No battery information available"),
        Some(bs) => {
            if bs.len() == 0 {
                return String::from_str("No batteries found");
            }
            let mut text = String::new();
            let mut i: usize = 0;
            while i < bs.len()
                invariant
                    i <= bs@.len(),
                    text@ == battery_text(bs@.take(i as int)),
                decreases bs@.len() - i,
            {
                let b = &bs[i];
                let time = match b.time_to_full_secs {
                    Some(secs) => Some(human_duration(secs)),
                    None => None,
                };
                push_battery_entry(&mut text, i, b, &time);
                proof {
                    let p = bs@.take(i + 1);
                    assert(p.drop_last() =~= bs@.take(i as int));
                    assert(text_or(time, "Unknown"@) == time_to_full_text(*b));
                }
                i = i + 1;
            }
            assert(bs@.take(i as int) =~= bs@);
            text
        },
    }
}

} // verus!
