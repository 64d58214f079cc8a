//! The per-frame declaration surface: each frame the caller enumerates its
//! windows, choosing an identity, optional default position and size, and a
//! title. The accumulated list is consumed once by the window manager's
//! sync and render pass.

use vstd::prelude::*;
use crate::geometry::{Pos2i, Vec2i};
use crate::window::{DEFAULT_WINDOW_HEIGHT, DEFAULT_WINDOW_WIDTH};

verus! {

/// What the caller supplies for one window this frame; not persisted.
#[derive(Debug)]
pub struct ToolWindowParameters {
    pub title: String,
    pub default_pos: Pos2i,
    pub default_size: Vec2i,
}

impl Default for ToolWindowParameters {
    /// An empty title, the origin, and the default window extent.
    fn default() -> (r: Self)
        ensures
            r.title@ == Seq::<char>::empty(),
            r.default_pos == (Pos2i { x: 0, y: 0 }),
            r.default_size == (Vec2i { x: DEFAULT_WINDOW_WIDTH, y: DEFAULT_WINDOW_HEIGHT }),
    {
        ToolWindowParameters {
            title: String::new(),
            default_pos: Pos2i { x: 0, y: 0 },
            default_size: Vec2i { x: DEFAULT_WINDOW_WIDTH, y: DEFAULT_WINDOW_HEIGHT },
        }
    }
}

/// The windows declared this frame, in declaration order.
pub struct ToolWindowsBuilder {
    pub windows: Vec<(u64, ToolWindowParameters)>,
}

impl Default for ToolWindowsBuilder {
    /// No windows declared yet.
    fn default() -> (r: Self)
        ensures
            r.windows@ == Seq::<(u64, ToolWindowParameters)>::empty(),
    {
        ToolWindowsBuilder { windows: Vec::new() }
    }
}

impl ToolWindowsBuilder {
    /// The declared identities, in declaration order.
    pub open spec fn spec_ids(&self) -> Seq<u64> {
        self.windows@.map_values(|w: (u64, ToolWindowParameters)| w.0)
    }

    /// Begin declaring one window under the given identity salt.
    pub fn add_window(&self, id_salt: u64) -> (r: ToolWindowInstanceBuilder)
        ensures
            r.id == id_salt,
            r.params.title@ == Seq::<char>::empty(),
            r.params.default_pos == (Pos2i { x: 0, y: 0 }),
            r.params.default_size == (Vec2i {
                x: DEFAULT_WINDOW_WIDTH,
                y: DEFAULT_WINDOW_HEIGHT,
            }),
    {
        ToolWindowInstanceBuilder { id: id_salt, params: ToolWindowParameters::default() }
    }

    /// The declared identities as a vector, in declaration order.
    pub fn ids(&self) -> (r: Vec<u64>)
        ensures
            r@ == self.spec_ids(),
    {
        let mut r: Vec<u64> = Vec::new();
        let mut i: usize = 0;
        while i < self.windows.len()
            invariant
                i <= self.windows.len(),
                r@ == self.windows@.subrange(0, i as int).map_values(
                    |w: (u64, ToolWindowParameters)| w.0,
                ),
            decreases self.windows.len() - i,
        {
            let id = self.windows[i].0;
            r.push(id);
            i = i + 1;
            assert(r@ =~= self.windows@.subrange(0, i as int).map_values(
                |w: (u64, ToolWindowParameters)| w.0,
            ));
        }
        assert(self.windows@.subrange(0, self.windows@.len() as int) =~= self.windows@);
        r
    }

    /// Look up the declared parameters for an identity: the first (and,
    /// without colliding salts, only) entry declared under it.
    pub fn find(&self, id: u64) -> (r: Option<&ToolWindowParameters>)
        ensures
            match r {
                Some(p) => exists|k: int|
                    0 <= k < self.windows@.len() && (#[trigger] self.windows@[k]).0 == id
                        && *p == self.windows@[k].1 && (forall|m: int|
                        0 <= m < k ==> (#[trigger] self.windows@[m]).0 != id),
                None => !self.spec_ids().contains(id),
            },
    {
        let mut i: usize = 0;
        while i < self.windows.len()
            invariant
                i <= self.windows.len(),
                forall|k: int| 0 <= k < i ==> (#[trigger] self.windows@[k]).0 != id,
            decreases self.windows.len() - i,
        {
            if self.windows[i].0 == id {
                return Some(&self.windows[i].1);
            }
            i = i + 1;
        }
        proof {
            if self.spec_ids().contains(id) {
                let k = choose|k: int|
                    0 <= k < self.spec_ids().len() && self.spec_ids()[k] == id;
                assert(self.windows@[k].0 == id);
            }
        }
        None
    }
}

/// Declares one window: its identity, then optional defaults, then the
/// title that hands it to the frame's builder.
pub struct ToolWindowInstanceBuilder {
    pub id: u64,
    pub params: ToolWindowParameters,
}

impl ToolWindowInstanceBuilder {
    /// The position the window first appears at.
    pub fn default_pos(self, pos: Pos2i) -> (r: Self)
        ensures
            r.id == self.id,
            r.params.title == self.params.title,
            r.params.default_pos == pos,
            r.params.default_size == self.params.default_size,
    {
        ToolWindowInstanceBuilder {
            id: self.id,
            params: ToolWindowParameters {
                title: self.params.title,
                default_pos: pos,
                default_size: self.params.default_size,
            },
        }
    }

    /// The extent the window first appears with.
    pub fn default_size(self, size: Vec2i) -> (r: Self)
        ensures
            r.id == self.id,
            r.params.title == self.params.title,
            r.params.default_pos == self.params.default_pos,
            r.params.default_size == size,
    {
        ToolWindowInstanceBuilder {
            id: self.id,
            params: ToolWindowParameters {
                title: self.params.title,
                default_pos: self.params.default_pos,
                default_size: size,
            },
        }
    }

    /// Finish the declaration: record the window, with its title, in the
    /// frame's builder.
    pub fn show(self, title: String, builder: &mut ToolWindowsBuilder)
        ensures
            final(builder).windows@ == old(builder).windows@.push(
                (
                    self.id,
                    ToolWindowParameters {
                        title: title,
                        default_pos: self.params.default_pos,
                        default_size: self.params.default_size,
                    },
                ),
            ),
    {
        let params = ToolWindowParameters {
            title,
            default_pos: self.params.default_pos,
            default_size: self.params.default_size,
        };
        builder.windows.push((self.id, params));
    }
}

} // verus!
