//! Per-window state and the per-frame step of a single tool window:
//! clamping the stored position into the available area, edge and corner
//! resizing with a minimum-size floor, the collapse flag, title-bar
//! dragging, and bring-to-front on a click.
//!
//! The rendering shell gathers one `FrameInput` per window and frame from
//! the GUI toolkit's hit testing, calls [`ToolWindow::show`], and draws the
//! window from the updated state.

use vstd::prelude::*;
use vstd::math::max;
use crate::geometry::{
    clamp_coord, sat_add, sat_add_sub, sat_i64, spec_clamp, Pos2i, Vec2bFlags, Vec2i,
};
use crate::stack::{spec_bring_to_front, ToolWindowsState};
use crate::builder::ToolWindowParameters;

verus! {

/// Height of the title bar; also the height a collapsed window keeps, and
/// the floor for a window's height.
pub const TITLE_BAR_HEIGHT: i64 = 24;

/// The floor for a window's width.
pub const MIN_WINDOW_WIDTH: i64 = 100;

/// Margin kept between the available area's edge and a clamped position.
pub const POSITION_MARGIN: i64 = 16;

/// What the window frame's inner and outer margins add to each extent
/// component: twice their sum, once per side.
pub const BORDER_ADJUST: i64 = 4;

/// Width of a window that first appears without caller-supplied defaults.
pub const DEFAULT_WINDOW_WIDTH: i64 = 300;

/// Height of a window that first appears without caller-supplied defaults.
pub const DEFAULT_WINDOW_HEIGHT: i64 = 200;

/// An in-progress title-bar drag: where the pointer went down and where the
/// window stood at that moment.
#[derive(Clone, Copy, Debug, PartialEq, Eq)]
pub struct DragState {
    pub drag_pivot: Pos2i,
    pub initial_drag_position: Pos2i,
}

/// The state of one tool window, persisted per identity across frames.
#[derive(Clone, Copy, Debug, PartialEq, Eq)]
pub struct ToolWindowState {
    pub collapsed: bool,
    pub position: Pos2i,
    pub size: Vec2i,
    pub drag_state: Option<DragState>,
    /// Per-axis resize permission; when neither axis is set, the corner
    /// affordance is absent.
    pub resizable: Vec2bFlags,
}

/// One frame's resize interactions: per-edge drag deltas (zero when the
/// edge was not dragged) and the corner drag, present only when the corner
/// affordance was dragged.
#[derive(Clone, Copy, Debug, PartialEq, Eq)]
pub struct ResizeInput {
    pub left: i64,
    pub right: i64,
    pub top: i64,
    pub bottom: i64,
    pub corner: Option<Vec2i>,
}

/// Everything a window's frame step reads from the toolkit: the area the
/// position is clamped into, this frame's pointer interactions, and what
/// the collapse toggle reports.
#[derive(Clone, Copy, Debug, PartialEq, Eq)]
pub struct FrameInput {
    /// The clamp bounds for the stored position, both components
    /// non-negative: the parent clip size reduced by the position margin.
    pub available: Vec2i,
    /// A click landed within the window's bounds this frame.
    pub clicked: bool,
    /// Edge and corner drag deltas.
    pub resize: ResizeInput,
    /// The collapse state the toggle button reports for this frame.
    pub collapsed: bool,
    /// A title-bar drag started this frame.
    pub drag_started: bool,
    /// A title-bar drag stopped this frame.
    pub drag_stopped: bool,
    /// Pointer position at the start of a title-bar drag.
    pub press_pointer: Option<Pos2i>,
    /// Current pointer position while a drag is in progress.
    pub current_pointer: Option<Pos2i>,
}

/// One tool window: its identity and its persisted state.
#[derive(Clone, Copy, Debug, PartialEq, Eq)]
pub struct ToolWindow {
    pub id: u64,
    pub state: ToolWindowState,
}

impl Default for ToolWindowState {
    /// A fresh window: expanded, at the origin, default extent, no drag in
    /// progress, resizable on both axes.
    fn default() -> (r: Self)
        ensures
            !r.collapsed,
            r.position == (Pos2i { x: 0, y: 0 }),
            r.size == (Vec2i { x: DEFAULT_WINDOW_WIDTH, y: DEFAULT_WINDOW_HEIGHT }),
            r.drag_state is None,
            r.resizable == (Vec2bFlags { x: true, y: true }),
    {
        ToolWindowState {
            collapsed: false,
            position: Pos2i { x: 0, y: 0 },
            size: Vec2i { x: DEFAULT_WINDOW_WIDTH, y: DEFAULT_WINDOW_HEIGHT },
            drag_state: None,
            resizable: Vec2bFlags { x: true, y: true },
        }
    }
}

/// The corner drag that counts: the corner affordance exists only when at
/// least one axis is resizable; otherwise, and when the corner was not
/// dragged, the contribution is zero.
pub open spec fn spec_corner_delta(resizable: Vec2bFlags, corner: Option<Vec2i>) -> Vec2i {
    if resizable.x || resizable.y {
        match corner {
            Some(c) => c,
            None => Vec2i { x: 0, y: 0 },
        }
    } else {
        Vec2i { x: 0, y: 0 }
    }
}

/// The window size after one resize step: unchanged for a zero delta, else
/// each component moved by its delta and floored at the minimum size.
pub open spec fn spec_resized_size(size: Vec2i, dx: int, dy: int) -> Vec2i {
    if dx == 0 && dy == 0 {
        size
    } else {
        Vec2i {
            x: max(sat_i64(size.x + dx), MIN_WINDOW_WIDTH as int) as i64,
            y: max(sat_i64(size.y + dy), TITLE_BAR_HEIGHT as int) as i64,
        }
    }
}

/// The state after one frame's resize interactions: left and top edge drags
/// move the position; the total size delta per axis is the near-edge drags
/// minus the far-edge ones plus the corner drag, floored at the minimum
/// size when it is not zero.
pub open spec fn spec_resize_applied(s: ToolWindowState, r: ResizeInput) -> ToolWindowState {
    let c = spec_corner_delta(s.resizable, r.corner);
    let dx = sat_i64(r.right + c.x - r.left);
    let dy = sat_i64(r.bottom + c.y - r.top);
    ToolWindowState {
        collapsed: s.collapsed,
        position: Pos2i {
            x: sat_i64(s.position.x + r.left) as i64,
            y: sat_i64(s.position.y + r.top) as i64,
        },
        size: spec_resized_size(s.size, dx, dy),
        drag_state: s.drag_state,
        resizable: s.resizable,
    }
}

/// The state with its position clamped into `[0, available]`.
pub open spec fn spec_clamped_to(s: ToolWindowState, available: Vec2i) -> ToolWindowState {
    ToolWindowState {
        collapsed: s.collapsed,
        position: Pos2i {
            x: spec_clamp(s.position.x as int, 0, available.x as int) as i64,
            y: spec_clamp(s.position.y as int, 0, available.y as int) as i64,
        },
        size: s.size,
        drag_state: s.drag_state,
        resizable: s.resizable,
    }
}

/// The state with the collapsed flag set to `c`; nothing else changes.
pub open spec fn spec_with_collapsed(s: ToolWindowState, c: bool) -> ToolWindowState {
    ToolWindowState {
        collapsed: c,
        position: s.position,
        size: s.size,
        drag_state: s.drag_state,
        resizable: s.resizable,
    }
}

/// The state with the collapsed flag flipped; nothing else changes.
pub open spec fn spec_toggled(s: ToolWindowState) -> ToolWindowState {
    spec_with_collapsed(s, !s.collapsed)
}

/// The state after a drag begins: the pivot is where the pointer went down
/// (or the window position when no pointer position is known), and the
/// window's position at that moment is remembered.
pub open spec fn spec_drag_begun(s: ToolWindowState, press: Option<Pos2i>) -> ToolWindowState {
    ToolWindowState {
        collapsed: s.collapsed,
        position: s.position,
        size: s.size,
        drag_state: Some(
            DragState {
                drag_pivot: match press {
                    Some(p) => p,
                    None => s.position,
                },
                initial_drag_position: s.position,
            },
        ),
        resizable: s.resizable,
    }
}

/// The state with any drag in progress ended.
pub open spec fn spec_drag_ended(s: ToolWindowState) -> ToolWindowState {
    ToolWindowState {
        collapsed: s.collapsed,
        position: s.position,
        size: s.size,
        drag_state: None,
        resizable: s.resizable,
    }
}

/// While a drag is in progress and the pointer position is known, the
/// window follows the pointer: its position is where the drag began plus
/// how far the pointer moved from the pivot.
pub open spec fn spec_drag_moved(s: ToolWindowState, pointer: Option<Pos2i>) -> ToolWindowState {
    match (s.drag_state, pointer) {
        (Some(ds), Some(p)) => ToolWindowState {
            collapsed: s.collapsed,
            position: Pos2i {
                x: sat_i64(ds.initial_drag_position.x + p.x - ds.drag_pivot.x) as i64,
                y: sat_i64(ds.initial_drag_position.y + p.y - ds.drag_pivot.y) as i64,
            },
            size: s.size,
            drag_state: s.drag_state,
            resizable: s.resizable,
        },
        _ => s,
    }
}

/// One frame's title-bar drag handling: start or stop the drag, then follow
/// the pointer while one is in progress.
pub open spec fn spec_drag_stepped(s: ToolWindowState, inp: FrameInput) -> ToolWindowState {
    let s1 = if inp.drag_started {
        spec_drag_begun(s, inp.press_pointer)
    } else if inp.drag_stopped {
        spec_drag_ended(s)
    } else {
        s
    };
    spec_drag_moved(s1, inp.current_pointer)
}

/// One window's whole frame step: clamp the position into the available
/// area; when the window is topmost, apply the resize interactions; take
/// the collapse flag the toggle reports; when topmost, handle the title-bar
/// drag. Only the topmost window resizes and drags.
pub open spec fn spec_shown(s: ToolWindowState, inp: FrameInput, topmost: bool) -> ToolWindowState {
    let s1 = spec_clamped_to(s, inp.available);
    let s2 = if topmost {
        spec_resize_applied(s1, inp.resize)
    } else {
        s1
    };
    let s3 = spec_with_collapsed(s2, inp.collapsed);
    if topmost {
        spec_drag_stepped(s3, inp)
    } else {
        s3
    }
}

/// The extent the window occupies: full size when expanded, the stored
/// width at title-bar height when collapsed.
pub open spec fn spec_display_size(s: ToolWindowState) -> Vec2i {
    if s.collapsed {
        Vec2i { x: s.size.x, y: TITLE_BAR_HEIGHT }
    } else {
        s.size
    }
}

impl ToolWindowState {
    /// Set the collapse flag; everything else is untouched.
    pub fn set_collapsed(&mut self, c: bool)
        ensures
            *final(self) == spec_with_collapsed(*old(self), c),
    {
        self.collapsed = c;
    }

    /// Flip the collapse flag; everything else is untouched.
    pub fn toggle_collapsed(&mut self)
        ensures
            *final(self) == spec_toggled(*old(self)),
    {
        self.collapsed = !self.collapsed;
    }

    /// The extent the window occupies this frame.
    pub fn display_size(&self) -> (r: Vec2i)
        ensures
            r == spec_display_size(*self),
    {
        if self.collapsed {
            Vec2i { x: self.size.x, y: TITLE_BAR_HEIGHT }
        } else {
            self.size
        }
    }

    /// Apply one frame's resize interactions.
    pub fn apply_resize(&mut self, r: ResizeInput)
        ensures
            *final(self) == spec_resize_applied(*old(self), r),
    {
        let c: Vec2i = if self.resizable.x || self.resizable.y {
            match r.corner {
                Some(cv) => cv,
                None => Vec2i { x: 0, y: 0 },
            }
        } else {
            Vec2i { x: 0, y: 0 }
        };
        self.position.x = sat_add(self.position.x, r.left);
        self.position.y = sat_add(self.position.y, r.top);
        let dx = sat_add_sub(r.right, c.x, r.left);
        let dy = sat_add_sub(r.bottom, c.y, r.top);
        if dx != 0 || dy != 0 {
            let nx = sat_add(self.size.x, dx);
            let ny = sat_add(self.size.y, dy);
            self.size.x = if nx < MIN_WINDOW_WIDTH {
                MIN_WINDOW_WIDTH
            } else {
                nx
            };
            self.size.y = if ny < TITLE_BAR_HEIGHT {
                TITLE_BAR_HEIGHT
            } else {
                ny
            };
        }
    }

    /// Handle one frame's title-bar drag.
    pub fn step_drag(&mut self, inp: FrameInput)
        ensures
            *final(self) == spec_drag_stepped(*old(self), inp),
    {
        if inp.drag_started {
            let pivot = match inp.press_pointer {
                Some(p) => p,
                None => self.position,
            };
            self.drag_state = Some(
                DragState { drag_pivot: pivot, initial_drag_position: self.position },
            );
        } else if inp.drag_stopped {
            self.drag_state = None;
        }
        if let Some(ds) = self.drag_state {
            if let Some(p) = inp.current_pointer {
                self.position.x = sat_add_sub(ds.initial_drag_position.x, p.x, ds.drag_pivot.x);
                self.position.y = sat_add_sub(ds.initial_drag_position.y, p.y, ds.drag_pivot.y);
            }
        }
    }
}

impl ToolWindow {
    /// A window seen for the first time: state built from the caller's
    /// per-frame parameters, otherwise default.
    pub fn from_params(id: u64, params: &ToolWindowParameters) -> (r: Self)
        ensures
            r.id == id,
            !r.state.collapsed,
            r.state.position == params.default_pos,
            r.state.size == params.default_size,
            r.state.drag_state is None,
            r.state.resizable == (Vec2bFlags { x: true, y: true }),
    {
        ToolWindow {
            id,
            state: ToolWindowState {
                collapsed: false,
                position: params.default_pos,
                size: params.default_size,
                drag_state: None,
                resizable: Vec2bFlags { x: true, y: true },
            },
        }
    }

    /// Clamp a stored position into `[0, available]` on both axes, keeping
    /// windows from drifting fully outside the parent area.
    pub fn clamp_offset(available: Vec2i, offset: &mut Pos2i)
        requires
            available.x >= 0,
            available.y >= 0,
        ensures
            final(offset).x as int == spec_clamp(old(offset).x as int, 0, available.x as int),
            final(offset).y as int == spec_clamp(old(offset).y as int, 0, available.y as int),
            0 <= final(offset).x <= available.x,
            0 <= final(offset).y <= available.y,
    {
        offset.x = clamp_coord(offset.x, available.x);
        offset.y = clamp_coord(offset.y, available.y);
    }

    /// One window's whole frame step: clamp the position, and, for the
    /// topmost window, resize and drag; any click within the window brings
    /// it to the front of the shared rendering order. Topmost status is
    /// what the order said when the frame began.
    pub fn show(&mut self, input: FrameInput, stack: &mut ToolWindowsState)
        requires
            input.available.x >= 0,
            input.available.y >= 0,
        ensures
            final(self).id == old(self).id,
            final(self).state == spec_shown(
                old(self).state,
                input,
                old(stack).spec_is_topmost(old(self).id),
            ),
            final(stack)@ == if input.clicked {
                spec_bring_to_front(old(stack)@, old(self).id)
            } else {
                old(stack)@
            },
            old(stack).wf() ==> final(stack).wf(),
    {
        let is_top = stack.is_topmost(self.id);

        ToolWindow::clamp_offset(input.available, &mut self.state.position);

        if is_top {
            self.state.apply_resize(input.resize);
        }

        if input.clicked {
            stack.bring_to_front(self.id);
        }

        self.state.set_collapsed(input.collapsed);

        if is_top {
            self.state.step_drag(input);
        }
    }
}

/// The window size after a whole run of resize steps, applied in order.
pub open spec fn spec_resized_size_seq(size: Vec2i, deltas: Seq<Vec2i>) -> Vec2i
    decreases deltas.len(),
{
    if deltas.len() == 0 {
        size
    } else {
        let prev = spec_resized_size_seq(size, deltas.drop_last());
        spec_resized_size(prev, deltas.last().x as int, deltas.last().y as int)
    }
}

/// Law: after any run of resize deltas among which at least one is not
/// zero, both size components sit at or above the minimum size; the floor
/// is applied by every non-zero step and a zero step changes nothing.
pub proof fn lemma_resize_floor(size: Vec2i, deltas: Seq<Vec2i>)
    requires
        exists|i: int|
            0 <= i < deltas.len() && !((#[trigger] deltas[i]).x == 0 && deltas[i].y == 0),
    ensures
        spec_resized_size_seq(size, deltas).x >= MIN_WINDOW_WIDTH,
        spec_resized_size_seq(size, deltas).y >= TITLE_BAR_HEIGHT,
    decreases deltas.len(),
{
    let last = deltas.last();
    if last.x == 0 && last.y == 0 {
        let i = choose|i: int|
            0 <= i < deltas.len() && !((#[trigger] deltas[i]).x == 0 && deltas[i].y == 0);
        assert(i < deltas.len() - 1);
        assert(deltas.drop_last()[i] == deltas[i]);
        lemma_resize_floor(size, deltas.drop_last());
    }
}

/// Law: one frame's resize interactions either leave the size untouched
/// (their total delta is zero on both axes) or leave both components at or
/// above the minimum size.
pub proof fn lemma_resize_applied_floor(s: ToolWindowState, r: ResizeInput)
    ensures
        spec_resize_applied(s, r).size == s.size || (spec_resize_applied(s, r).size.x
            >= MIN_WINDOW_WIDTH && spec_resize_applied(s, r).size.y >= TITLE_BAR_HEIGHT),
{
}

/// Law: toggling the collapse flag twice returns the window to its
/// original state; one toggle never changes position or size.
pub proof fn lemma_collapse_toggle_idempotent(s: ToolWindowState)
    ensures
        spec_toggled(spec_toggled(s)) == s,
        spec_toggled(s).position == s.position,
        spec_toggled(s).size == s.size,
{
}

} // verus!
