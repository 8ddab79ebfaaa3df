use vstd::prelude::*;
use crate::band::{BarColor, color_band, spec_band_color, spec_color_band};
use crate::text::{push_repeated, repeat_text};

verus! {

/// Width of a bar, in characters between the brackets.
pub const BAR_WIDTH: usize = 100;

/// One coloured bar of a chart.
#[derive(Clone, Debug)]
pub struct BarLine {
    pub text: String,
    pub color: BarColor,
}

/// Filled characters for a value in hundredths: its whole part, kept
/// within `0..=100`.
pub open spec fn spec_fill_len(centi: int) -> nat {
    if centi <= 0 {
        0
    } else if centi >= 10000 {
        100
    } else {
        (centi / 100) as nat
    }
}

/// Empty characters after the filled ones.
pub open spec fn spec_pad_len(centi: int) -> nat {
    (100 - spec_fill_len(centi)) as nat
}

/// The bar of a value: filled blocks, then light shade to the full width, in brackets.
pub open spec fn bar_text(centi: int) -> Seq<char> {
    "["@ + repeat_text("\u{2588}"@, spec_fill_len(centi)) + repeat_text(
        "\u{2591}"@,
        spec_pad_len(centi),
    ) + "]"@
}

/// Number of filled characters of the bar of a value in hundredths.
pub fn fill_len(centi: i64) -> (r: usize)
    ensures
        r as nat == spec_fill_len(centi as int),
        r <= BAR_WIDTH,
{
    if centi <= 0 {
        0
    } else if centi >= 10000 {
        BAR_WIDTH
    } else {
        (centi / 100) as usize
    }
}

/// The coloured bar of a value in hundredths.
pub fn render_bar(centi: i64) -> (r: BarLine)
    ensures
        r.text@ == bar_text(centi as int),
        r.color == spec_band_color(spec_color_band(centi as int)),
{
    let fill = fill_len(centi);
    let mut text = String::new();
    text.append("[");
    push_repeated(&mut text, "\u{2588}", fill);
    push_repeated(&mut text, "\u{2591}", BAR_WIDTH - fill);
    text.append("]");
    BarLine { text, color: color_band(centi).color() }
}

/// For a value from 0 to 100 the bar fills its whole part and pads the rest,
/// so filled and empty characters always make the full width.
pub proof fn lemma_bar_lengths(centi: int)
    requires
        0 <= centi <= 10000,
    ensures
        spec_fill_len(centi) == centi / 100,
        spec_pad_len(centi) == 100 - centi / 100,
        spec_fill_len(centi) + spec_pad_len(centi) == 100,
{
}

/// Filled and empty characters make the full width for every value.
pub proof fn lemma_bar_width(centi: int)
    ensures
        spec_fill_len(centi) + spec_pad_len(centi) == 100,
        spec_fill_len(centi) <= 100,
{
}

} // verus!
