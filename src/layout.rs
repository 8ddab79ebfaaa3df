use vstd::prelude::*;
use crate::category::InfoCategory;

verus! {

/// Direction in which a panel area is split.
#[derive(Clone, Copy, Debug, PartialEq, Eq, Structural)]
pub enum SplitDirection {
    Horizontal,
    Vertical,
}

/// How the area of the active tab is divided.
#[derive(Clone, Copy, Debug, PartialEq, Eq, Structural)]
pub enum LayoutPlan {
    /// Two regions, the first holding the summary and the second the chart
    /// or gauge, given as percentages of the area; the rest stays unused.
    Split { direction: SplitDirection, first_percent: u16, second_percent: u16 },
    /// One panel over the whole area, cleared before it is drawn.
    ClearedFull,
}

/// The layout of each category's tab.
pub open spec fn spec_layout_for(c: InfoCategory) -> LayoutPlan {
    match c {
        InfoCategory::CPU => LayoutPlan::Split {
            direction: SplitDirection::Horizontal,
            first_percent: 30,
            second_percent: 70,
        },
        InfoCategory::Memory => LayoutPlan::Split {
            direction: SplitDirection::Vertical,
            first_percent: 40,
            second_percent: 6,
        },
        InfoCategory::Temperature => LayoutPlan::Split {
            direction: SplitDirection::Horizontal,
            first_percent: 40,
            second_percent: 6,
        },
        _ => LayoutPlan::ClearedFull,
    }
}

/// The layout of a category's tab.
pub fn layout_for(c: InfoCategory) -> (r: LayoutPlan)
    ensures
        r == spec_layout_for(c),
{
    match c {
        InfoCategory::CPU => LayoutPlan::Split {
            direction: SplitDirection::Horizontal,
            first_percent: 30,
            second_percent: 70,
        },
        InfoCategory::Memory => LayoutPlan::Split {
            direction: SplitDirection::Vertical,
            first_percent: 40,
            second_percent: 6,
        },
        InfoCategory::Temperature => LayoutPlan::Split {
            direction: SplitDirection::Horizontal,
            first_percent: 40,
            second_percent: 6,
        },
        _ => LayoutPlan::ClearedFull,
    }
}

/// No split layout asks for more than the whole area.
pub proof fn lemma_split_fits(c: InfoCategory)
    ensures
        spec_layout_for(c) matches LayoutPlan::Split { first_percent, second_percent, .. }
            ==> first_percent + second_percent <= 100,
{
}

/// The title of each category's panel.
pub open spec fn spec_panel_title(c: InfoCategory) -> Seq<char> {
    match c {
        InfoCategory::CPU => "CPU Usage"@,
        InfoCategory::Memory => "Memory Info"@,
        InfoCategory::Network => "Network Info"@,
        InfoCategory::Process => "Process Info"@,
        InfoCategory::Disk => "Disk Info"@,
        InfoCategory::Temperature => "Temperature Info"@,
        InfoCategory::Battery => "Battery Info"@,
    }
}

/// The title of a category's bordered panel.
pub fn panel_title(c: InfoCategory) -> (r: &'static str)
    ensures
        r@ == spec_panel_title(c),
{
    match c {
        InfoCategory::CPU => "CPU Usage",
        InfoCategory::Memory => "Memory Info",
        InfoCategory::Network => "Network Info",
        InfoCategory::Process => "Process Info",
        InfoCategory::Disk => "Disk Info",
        InfoCategory::Temperature => "Temperature Info",
        InfoCategory::Battery => "Battery Info",
    }
}

} // verus!
