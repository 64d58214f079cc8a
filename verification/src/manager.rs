//! The window manager's per-frame entry point: sync the persisted
//! rendering order with the declared window set and hand back the order in
//! which the windows are to be rendered, bottom first.

use vstd::prelude::*;
use crate::builder::ToolWindowsBuilder;
use crate::stack::{spec_sync, ToolWindowsState};

verus! {

/// The per-frame window manager for one parent region.
pub struct ToolWindows {}

impl ToolWindows {
    /// A manager for this frame.
    pub fn new() -> (r: Self) {
        ToolWindows {}
    }

    /// One frame's sync pass: drop persisted identities the caller no
    /// longer declares, append newly declared ones, and return the updated
    /// rendering order, bottom first — render each window in that order and
    /// the last one appears on top.
    pub fn windows(self, builder: &ToolWindowsBuilder, state: &mut ToolWindowsState) -> (order:
        Vec<u64>)
        requires
            old(state).wf(),
        ensures
            final(state)@ == spec_sync(old(state)@, builder.spec_ids()),
            final(state).wf(),
            order@ == final(state)@,
    {
        let ids = builder.ids();
        state.sync(&ids);
        state.rendering_order()
    }
}

} // verus!
