use vstd::prelude::*;

verus! {

/// Number of dashboard tabs.
pub const CATEGORY_COUNT: usize = 7;

/// One of the seven dashboard views, in tab order.
#[derive(Clone, Copy, Debug, PartialEq, Eq, Structural)]
pub enum InfoCategory {
    CPU,
    Memory,
    Network,
    Process,
    Disk,
    Temperature,
    Battery,
}

/// The category shown at tab position `i`.
pub open spec fn spec_category_at(i: nat) -> InfoCategory
    recommends
        i < 7,
{
    if i == 0 {
        InfoCategory::CPU
    } else if i == 1 {
        InfoCategory::Memory
    } else if i == 2 {
        InfoCategory::Network
    } else if i == 3 {
        InfoCategory::Process
    } else if i == 4 {
        InfoCategory::Disk
    } else if i == 5 {
        InfoCategory::Temperature
    } else {
        InfoCategory::Battery
    }
}

/// Tab position of a category.
pub open spec fn spec_index_of(c: InfoCategory) -> nat {
    match c {
        InfoCategory::CPU => 0,
        InfoCategory::Memory => 1,
        InfoCategory::Network => 2,
        InfoCategory::Process => 3,
        InfoCategory::Disk => 4,
        InfoCategory::Temperature => 5,
        InfoCategory::Battery => 6,
    }
}

/// Position that follows `i` on the tab bar, wrapping from the last to the first.
pub open spec fn spec_next_index(i: nat) -> nat {
    (i + 1) % 7
}

/// Position that precedes `i` on the tab bar, wrapping from the first to the last.
pub open spec fn spec_previous_index(i: nat) -> nat {
    (i + 6) % 7
}

/// `spec_next_index` applied `k` times.
pub open spec fn spec_next_times(i: nat, k: nat) -> nat
    decreases k,
{
    if k == 0 {
        i
    } else {
        spec_next_index(spec_next_times(i, (k - 1) as nat))
    }
}

impl InfoCategory {
    /// The category at tab position `i`.
    pub fn at(i: usize) -> (r: InfoCategory)
        requires
            i < CATEGORY_COUNT,
        ensures
            r == spec_category_at(i as nat),
    {
        if i == 0 {
            InfoCategory::CPU
        } else if i == 1 {
            InfoCategory::Memory
        } else if i == 2 {
            InfoCategory::Network
        } else if i == 3 {
            InfoCategory::Process
        } else if i == 4 {
            InfoCategory::Disk
        } else if i == 5 {
            InfoCategory::Temperature
        } else {
            InfoCategory::Battery
        }
    }

    /// The tab position of this category.
    pub fn index(&self) -> (r: usize)
        ensures
            r as nat == spec_index_of(*self),
            r < CATEGORY_COUNT,
            spec_category_at(r as nat) == *self,
    {
        match self {
            InfoCategory::CPU => 0,
            InfoCategory::Memory => 1,
            InfoCategory::Network => 2,
            InfoCategory::Process => 3,
            InfoCategory::Disk => 4,
            InfoCategory::Temperature => 5,
            InfoCategory::Battery => 6,
        }
    }

    /// The label shown for this category on the tab bar.
    pub fn title(&self) -> (r: &'static str)
        ensures
            r@ == spec_title(*self),
    {
        match self {
            InfoCategory::CPU => "CPU",
            InfoCategory::Memory => "Memory",
            InfoCategory::Network => "Network",
            InfoCategory::Process => "Process",
            InfoCategory::Disk => "Disk",
            InfoCategory::Temperature => "Temp",
            InfoCategory::Battery => "Battery",
        }
    }
}

/// The tab bar label of a category.
pub open spec fn spec_title(c: InfoCategory) -> Seq<char> {
    match c {
        InfoCategory::CPU => "CPU"@,
        InfoCategory::Memory => "Memory"@,
        InfoCategory::Network => "Network"@,
        InfoCategory::Process => "Process"@,
        InfoCategory::Disk => "Disk"@,
        InfoCategory::Temperature => "Temp"@,
        InfoCategory::Battery => "Battery"@,
    }
}

/// The selected tab: always a valid position on the tab bar.
#[derive(Clone, Copy, Debug, PartialEq, Eq, Structural)]
pub struct TabState {
    index: usize,
}

impl TabState {
    /// Well-formedness: the index names one of the categories.
    pub closed spec fn wf(&self) -> bool {
        self.index < CATEGORY_COUNT
    }

    pub closed spec fn spec_index(&self) -> nat {
        self.index as nat
    }

    /// A well-formed state selects a position on the tab bar.
    pub proof fn lemma_wf_index(&self)
        requires
            self.wf(),
        ensures
            self.spec_index() < 7,
    {
    }

    /// The start state: the first tab is selected.
    pub fn new() -> (r: TabState)
        ensures
            r.wf(),
            r.spec_index() == 0,
    {
        TabState { index: 0 }
    }

    /// Position of the selected tab.
    pub fn index(&self) -> (r: usize)
        ensures
            r as nat == self.spec_index(),
    {
        self.index
    }

    /// The selected category.
    pub fn current(&self) -> (r: InfoCategory)
        requires
            self.wf(),
        ensures
            r == spec_category_at(self.spec_index()),
    {
        InfoCategory::at(self.index)
    }

    /// Moves the selection one tab to the right, from the last tab to the first.
    pub fn next(&mut self)
        requires
            old(self).wf(),
        ensures
            final(self).wf(),
            final(self).spec_index() == spec_next_index(old(self).spec_index()),
    {
        self.index = (self.index + 1) % CATEGORY_COUNT;
    }

    /// Moves the selection one tab to the left, from the first tab to the last.
    pub fn previous(&mut self)
        requires
            old(self).wf(),
        ensures
            final(self).wf(),
            final(self).spec_index() == spec_previous_index(old(self).spec_index()),
    {
        self.index = (self.index + CATEGORY_COUNT - 1) % CATEGORY_COUNT;
    }
}

/// Moving to the next tab seven times from any tab comes back to that tab.
pub proof fn lemma_next_seven_times_is_identity(i: nat)
    requires
        i < 7,
    ensures
        spec_next_times(i, 7) == i,
{
    reveal_with_fuel(spec_next_times, 8);
}

/// Moving to the previous tab undoes moving to the next tab, and the other way round.
pub proof fn lemma_previous_inverts_next(i: nat)
    requires
        i < 7,
    ensures
        spec_previous_index(spec_next_index(i)) == i,
        spec_next_index(spec_previous_index(i)) == i,
{
}

/// Tab positions and categories correspond one to one.
pub proof fn lemma_index_of_category_at(i: nat)
    requires
        i < 7,
    ensures
        spec_index_of(spec_category_at(i)) == i,
{
}

} // verus!
