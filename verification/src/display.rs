//! Display groups: one fullscreen window per monitor.

use vstd::prelude::*;

verus! {

/// The window that covers one monitor.
///
/// Monitors are named by their position in the order in which the
/// windowing system enumerates them.
#[derive(Clone, Copy, Debug, PartialEq, Eq, Structural)]
pub struct DisplayGroup {
    /// Position of the monitor in the enumeration.
    pub monitor: usize,
    /// The window is fullscreen on that monitor, without decorations.
    pub borderless_fullscreen: bool,
    /// The window stays above all other windows.
    pub always_on_top: bool,
}

/// The display group of the monitor at position `monitor`.
pub open spec fn group_on(monitor: int) -> DisplayGroup {
    DisplayGroup { monitor: monitor as usize, borderless_fullscreen: true, always_on_top: true }
}

/// The display groups of `monitors` monitors, in enumeration order.
pub open spec fn groups_for(monitors: nat) -> Seq<DisplayGroup> {
    Seq::new(monitors, |i: int| group_on(i))
}

impl DisplayGroup {
    /// The group that covers the monitor at position `monitor`: borderless
    /// fullscreen on that monitor, always on top.
    pub fn on_monitor(monitor: usize) -> (group: DisplayGroup)
        ensures
            group == group_on(monitor as int),
    {
        DisplayGroup { monitor, borderless_fullscreen: true, always_on_top: true }
    }
}

/// Lays out the display groups for `monitors` enumerated monitors: exactly
/// one group per monitor, in enumeration order.
pub fn activate(monitors: usize) -> (groups: Vec<DisplayGroup>)
    ensures
        groups@ == groups_for(monitors as nat),
        groups@.len() == monitors,
        forall|i: int|
            0 <= i < monitors ==> (#[trigger] groups@[i]).monitor == i
                && groups@[i].borderless_fullscreen && groups@[i].always_on_top,
{
    let mut groups: Vec<DisplayGroup> = Vec::new();
    let mut next: usize = 0;
    while next < monitors
        invariant
            next <= monitors,
            groups@ == groups_for(next as nat),
        decreases monitors - next,
    {
        groups.push(DisplayGroup::on_monitor(next));
        next = next + 1;
        assert(groups@ =~= groups_for(next as nat));
    }
    groups
}

} // verus!
