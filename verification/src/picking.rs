//! Entity picking: resolving a click in the live scene to the topmost
//! pickable object under the cursor.
//!
//! The windowing layer gathers the pickable objects' world-space
//! bounds and depth into plain candidates and converts the cursor into
//! world coordinates; the decisions live here.

use vstd::prelude::*;

use crate::state::{EntityId, InspectorEnabled, InspectorSelection, UiState};

verus! {

/// Fallback extent used when a sprite has neither an explicit size
/// override nor a resolvable image size.
pub const DEFAULT_SPRITE_SIZE: i64 = 32;

/// One pickable object: its identity, the centre of its axis-aligned
/// bounds, its full extent, and its depth (greater = closer to the
/// camera).
#[derive(Clone, Copy, Debug, PartialEq, Eq, Structural)]
pub struct PickCandidate {
    pub entity: EntityId,
    pub center_x: i64,
    pub center_y: i64,
    pub size_x: i64,
    pub size_y: i64,
    pub z: i64,
}

impl PickCandidate {
    /// Extents are non-negative.
    pub open spec fn wf(self) -> bool {
        self.size_x >= 0 && self.size_y >= 0
    }

    /// The candidate's bounds contain the point, boundary included:
    /// the bounds reach half the extent out from the centre.
    pub open spec fn hit(self, x: int, y: int) -> bool {
        &&& self.center_x - self.size_x / 2 <= x <= self.center_x + self.size_x / 2
        &&& self.center_y - self.size_y / 2 <= y <= self.center_y + self.size_y / 2
    }
}

/// Every candidate in the sequence has non-negative extents.
pub open spec fn all_candidates_wf(s: Seq<PickCandidate>) -> bool {
    forall|i: int| 0 <= i < s.len() ==> (#[trigger] s[i]).wf()
}

/// Resolve a sprite's extent: the explicit override if there is one,
/// else the image's natural size, else the fallback square.
pub fn resolve_sprite_size(custom_size: Option<(i64, i64)>, image_size: Option<(i64, i64)>) -> (r:
    (i64, i64))
    ensures
        custom_size matches Some(s) ==> r == s,
        custom_size is None ==> (image_size matches Some(s) ==> r == s),
        custom_size is None && image_size is None ==> r == (
            DEFAULT_SPRITE_SIZE,
            DEFAULT_SPRITE_SIZE,
        ),
{
    match custom_size {
        Some(s) => s,
        None => match image_size {
            Some(s) => s,
            None => (DEFAULT_SPRITE_SIZE, DEFAULT_SPRITE_SIZE),
        },
    }
}

/// The first camera whose draw order is non-negative, skipping any
/// UI-only camera that draws before the scene.
pub fn pick_camera_index(orders: &Vec<i64>) -> (r: Option<usize>)
    ensures
        r is None ==> forall|i: int| 0 <= i < orders@.len() ==> orders@[i] < 0,
        r matches Some(i) ==> i < orders@.len() && orders@[i as int] >= 0 && forall|j: int|
            0 <= j < i ==> orders@[j] < 0,
{
    let mut i: usize = 0;
    while i < orders.len()
        invariant
            i <= orders@.len(),
            forall|j: int| 0 <= j < i ==> orders@[j] < 0,
        decreases orders@.len() - i,
    {
        if orders[i] >= 0 {
            return Some(i);
        }
        i = i + 1;
    }
    None
}

/// The winning candidate among a scan prefix: the first candidate that
/// contains the point and whose depth no later hit exceeds. A later
/// candidate takes over only with a strictly greater depth, so among
/// equal depths the earliest hit wins.
pub open spec fn top_hit(s: Seq<PickCandidate>, x: int, y: int) -> Option<int>
    decreases s.len(),
{
    if s.len() == 0 {
        None
    } else {
        let last = s.len() - 1;
        match top_hit(s.drop_last(), x, y) {
            None => if s[last].hit(x, y) {
                Some(last)
            } else {
                None
            },
            Some(b) => if s[last].hit(x, y) && s[last].z > s[b].z {
                Some(last)
            } else {
                Some(b)
            },
        }
    }
}

/// The winner is a hit, no hit is deeper, and no earlier hit ties it;
/// and there is a winner exactly when there is a hit.
pub proof fn lemma_top_hit_is_topmost(s: Seq<PickCandidate>, x: int, y: int)
    ensures
        top_hit(s, x, y) is None ==> forall|i: int|
            0 <= i < s.len() ==> !(#[trigger] s[i]).hit(x, y),
        top_hit(s, x, y) matches Some(b) ==> {
            &&& 0 <= b < s.len()
            &&& s[b].hit(x, y)
            &&& forall|i: int| 0 <= i < s.len() && (#[trigger] s[i]).hit(x, y) ==> s[i].z <= s[b].z
            &&& forall|i: int| 0 <= i < b && (#[trigger] s[i]).hit(x, y) ==> s[i].z < s[b].z
        },
    decreases s.len(),
{
    if s.len() > 0 {
        lemma_top_hit_is_topmost(s.drop_last(), x, y);
        assert forall|i: int| 0 <= i < s.len() - 1 implies s.drop_last()[i] == s[i] by {}
    }
}

/// Scan all candidates and return the index of the topmost one
/// containing the point, if any.
pub fn pick_topmost(x: i64, y: i64, candidates: &Vec<PickCandidate>) -> (r: Option<usize>)
    requires
        all_candidates_wf(candidates@),
    ensures
        r is None ==> top_hit(candidates@, x as int, y as int) is None,
        r matches Some(i) ==> top_hit(candidates@, x as int, y as int) == Some(i as int),
{
    let mut best: Option<usize> = None;
    let mut i: usize = 0;
    while i < candidates.len()
        invariant
            all_candidates_wf(candidates@),
            i <= candidates@.len(),
            best is None ==> top_hit(candidates@.take(i as int), x as int, y as int) is None,
            best matches Some(b) ==> b < i && top_hit(candidates@.take(i as int), x as int, y as int)
                == Some(b as int),
        decreases candidates@.len() - i,
    {
        let c = candidates[i];
        proof {
            assert(candidates@.take(i + 1).drop_last() =~= candidates@.take(i as int));
            assert(candidates@.take(i + 1)[i as int] == candidates@[i as int]);
        }
        let is_hit = hit_test(&c, x, y);
        match best {
            None => {
                if is_hit {
                    best = Some(i);
                }
            },
            Some(b) => {
                let bc = candidates[b];
                if is_hit && c.z > bc.z {
                    best = Some(i);
                }
            },
        }
        i = i + 1;
    }
    proof {
        assert(candidates@.take(candidates@.len() as int) =~= candidates@);
    }
    best
}

/// Test whether the candidate's bounds contain the point, boundary
/// included.
pub fn hit_test(c: &PickCandidate, x: i64, y: i64) -> (r: bool)
    requires
        c.wf(),
    ensures
        r == c.hit(x as int, y as int),
{
    let half_x: i128 = (c.size_x as i128) / 2;
    let half_y: i128 = (c.size_y as i128) / 2;
    let cx: i128 = c.center_x as i128;
    let cy: i128 = c.center_y as i128;
    let px: i128 = x as i128;
    let py: i128 = y as i128;
    px >= cx - half_x && px <= cx + half_x && py >= cy - half_y && py <= cy + half_y
}

/// Handle one primary-button click: decide whether it picks anything,
/// and if so update the selection.
///
/// Early exits, in order and none of them an error: the panel is
/// hidden, the press is not this frame's primary click, the UI wants
/// the pointer, the cursor has no position, or nothing is hit. In each
/// of these cases the state is untouched. On a hit, the topmost
/// candidate under the cursor enters the multi-select set — toggled in
/// when a modifier is held, replacing the set otherwise — and the
/// selection switches to the entities variant.
pub fn handle_picking_clicks(
    ui_state: &mut UiState,
    enabled: &InspectorEnabled,
    left_click_just_pressed: bool,
    ui_wants_pointer: bool,
    cursor_world: Option<(i64, i64)>,
    add_modifier_held: bool,
    candidates: &Vec<PickCandidate>,
) -> (picked: Option<EntityId>)
    requires
        old(ui_state).selected_entities.wf(),
        all_candidates_wf(candidates@),
    ensures
        !(enabled.0 && left_click_just_pressed && !ui_wants_pointer && cursor_world is Some)
            ==> *final(ui_state) == *old(ui_state) && picked is None,
        enabled.0 && left_click_just_pressed && !ui_wants_pointer ==> (cursor_world matches Some(
            (cx, cy),
        ) ==> {
            let hit = top_hit(candidates@, cx as int, cy as int);
            match hit {
                None => *final(ui_state) == *old(ui_state) && picked is None,
                Some(b) => {
                    let e = candidates@[b].entity;
                    &&& picked == Some(e)
                    &&& final(ui_state).selection is Entities
                    &&& final(ui_state).selected_entities.wf()
                    &&& !add_modifier_held ==> final(ui_state).selected_entities@ == seq![e]
                    &&& add_modifier_held && !old(ui_state).selected_entities@.contains(e)
                        ==> final(ui_state).selected_entities@ == old(
                        ui_state,
                    ).selected_entities@.push(e)
                    &&& add_modifier_held && old(ui_state).selected_entities@.contains(e) ==> {
                        &&& final(ui_state).selected_entities@.len() == old(
                            ui_state,
                        ).selected_entities@.len() - 1
                        &&& !final(ui_state).selected_entities@.contains(e)
                    }
                    &&& final(ui_state).state == old(ui_state).state
                    &&& final(ui_state).viewport_rect == old(ui_state).viewport_rect
                    &&& final(ui_state).hierarchy_search == old(ui_state).hierarchy_search
                    &&& final(ui_state).custom_tabs == old(ui_state).custom_tabs
                },
            }
        }),
{
    if !enabled.0 {
        return None;
    }
    if !left_click_just_pressed {
        return None;
    }
    if ui_wants_pointer {
        return None;
    }
    let (cx, cy) = match cursor_world {
        Some(p) => p,
        None => {
            return None;
        },
    };
    match pick_topmost(cx, cy, candidates) {
        Some(idx) => {
            proof {
                lemma_top_hit_is_topmost(candidates@, cx as int, cy as int);
            }
            let entity = candidates[idx].entity;
            ui_state.selected_entities.select_maybe_add(entity, add_modifier_held);
            ui_state.selection = InspectorSelection::Entities;
            Some(entity)
        },
        None => None,
    }
}

} // verus!
