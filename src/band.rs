use vstd::prelude::*;

verus! {

/// Severity of a percentage or temperature reading.
#[derive(Clone, Copy, Debug, PartialEq, Eq, Structural)]
pub enum ColorBand {
    Low,
    Medium,
    High,
    Critical,
}

/// Foreground colour of a bar line.
#[derive(Clone, Copy, Debug, PartialEq, Eq, Structural)]
pub enum BarColor {
    White,
    LightYellow,
    LightRed,
    Red,
}

/// The severity of a value given in hundredths: below 40 low, below 60
/// medium, below 80 high, else critical.
pub open spec fn spec_color_band(centi: int) -> ColorBand {
    if centi < 4000 {
        ColorBand::Low
    } else if centi < 6000 {
        ColorBand::Medium
    } else if centi < 8000 {
        ColorBand::High
    } else {
        ColorBand::Critical
    }
}

/// The colour that draws each severity.
pub open spec fn spec_band_color(b: ColorBand) -> BarColor {
    match b {
        ColorBand::Low => BarColor::White,
        ColorBand::Medium => BarColor::LightYellow,
        ColorBand::High => BarColor::LightRed,
        ColorBand::Critical => BarColor::Red,
    }
}

/// Classifies a value given in hundredths (`4250` is 42.50).
pub fn color_band(centi: i64) -> (r: ColorBand)
    ensures
        r == spec_color_band(centi as int),
{
    if centi < 4000 {
        ColorBand::Low
    } else if centi < 6000 {
        ColorBand::Medium
    } else if centi < 8000 {
        ColorBand::High
    } else {
        ColorBand::Critical
    }
}

impl ColorBand {
    /// The colour of bars in this band.
    pub fn color(&self) -> (r: BarColor)
        ensures
            r == spec_band_color(*self),
    {
        match self {
            ColorBand::Low => BarColor::White,
            ColorBand::Medium => BarColor::LightYellow,
            ColorBand::High => BarColor::LightRed,
            ColorBand::Critical => BarColor::Red,
        }
    }
}

/// Each value falls in exactly one band: low below 40, medium from 40 below
/// 60, high from 60 below 80, critical from 80 on.
pub proof fn lemma_bands_partition(centi: int)
    ensures
        (spec_color_band(centi) == ColorBand::Low) <==> centi < 4000,
        (spec_color_band(centi) == ColorBand::Medium) <==> 4000 <= centi < 6000,
        (spec_color_band(centi) == ColorBand::High) <==> 6000 <= centi < 8000,
        (spec_color_band(centi) == ColorBand::Critical) <==> 8000 <= centi,
{
}

/// Distinct bands are drawn in distinct colours.
pub proof fn lemma_band_colors_distinct(a: ColorBand, b: ColorBand)
    ensures
        spec_band_color(a) == spec_band_color(b) <==> a == b,
{
}

} // verus!
