//! Core state of the inspector panel: the visibility flag, the mirrored
//! game-viewport rectangle, the selection model and the live UI state.

use vstd::prelude::*;

use crate::dock::{is_default_layout, is_leaf_with, DockState};
use crate::tabs::{BuiltinTab, InspectorTabRegistry, Tab, TabMeta};

verus! {

/// Whether the inspector panel is currently shown.
///
/// Every per-frame system reads this flag and short-circuits when it is
/// `false`. It defaults to enabled and is flipped only by an explicit
/// user input event.
pub struct InspectorEnabled(pub bool);

impl InspectorEnabled {
    /// The flag after one toggle.
    pub open spec fn spec_toggled(self) -> InspectorEnabled {
        InspectorEnabled(!self.0)
    }

    /// Flip the visibility flag.
    pub fn toggle(&mut self)
        ensures
            *final(self) == old(self).spec_toggled(),
    {
        self.0 = !self.0;
    }
}

impl Default for InspectorEnabled {
    /// The panel starts out visible.
    fn default() -> (r: Self)
        ensures
            r.0 == true,
    {
        InspectorEnabled(true)
    }
}

/// Toggling the visibility flag twice restores the original state.
pub proof fn lemma_toggle_twice(s: InspectorEnabled)
    ensures
        s.spec_toggled().spec_toggled() == s,
{
}

/// The screen region currently occupied by the live scene, i.e. not
/// covered by docked panels, in integer screen coordinates.
///
/// This is the plain-data mirror read by input routing; it is refreshed
/// from the dock layout's own rectangle once per frame. The default
/// covers the whole coordinate space (`i64::MAX` standing in for an
/// unbounded far corner), so that input is never wrongly blocked before
/// the panel system has produced a real rectangle.
#[derive(Clone, Copy, Debug)]
pub struct GameViewportRect {
    pub min_x: i64,
    pub min_y: i64,
    pub max_x: i64,
    pub max_y: i64,
}

impl GameViewportRect {
    /// The default rectangle: origin corner at zero, far corner unbounded.
    pub open spec fn spec_default() -> GameViewportRect {
        GameViewportRect { min_x: 0, min_y: 0, max_x: i64::MAX, max_y: i64::MAX }
    }

    /// Point-in-rectangle test, inclusive of the boundary.
    pub open spec fn contains_point(self, x: int, y: int) -> bool {
        self.min_x <= x <= self.max_x && self.min_y <= y <= self.max_y
    }

    /// Check whether the point `(x, y)` lies inside this rectangle,
    /// boundary included.
    pub fn contains(&self, x: i64, y: i64) -> (r: bool)
        ensures
            r == self.contains_point(x as int, y as int),
    {
        x >= self.min_x && x <= self.max_x && y >= self.min_y && y <= self.max_y
    }
}

impl Default for GameViewportRect {
    fn default() -> (r: Self)
        ensures
            r == GameViewportRect::spec_default(),
    {
        GameViewportRect { min_x: 0, min_y: 0, max_x: i64::MAX, max_y: i64::MAX }
    }
}

/// The default rectangle contains every representable point with
/// non-negative coordinates (its far corner is unbounded).
pub proof fn lemma_default_rect_contains_everything(x: i64, y: i64)
    requires
        0 <= x,
        0 <= y,
    ensures
        GameViewportRect::spec_default().contains_point(x as int, y as int),
{
}

/// A live-object identity: a stable index paired with a generation
/// counter, so a reused slot is distinguishable from its predecessor.
#[derive(Clone, Copy, Debug, PartialEq, Eq, Hash, Structural)]
pub struct EntityId {
    pub index: u32,
    pub generation: u32,
}

/// The multi-select set: the live objects currently selected for
/// inspection, in selection order and free of duplicates.
#[derive(Debug)]
pub struct SelectedEntities {
    entities: Vec<EntityId>,
}

impl View for SelectedEntities {
    type V = Seq<EntityId>;

    closed spec fn view(&self) -> Seq<EntityId> {
        self.entities@
    }
}

impl SelectedEntities {
    /// The selection order holds each identity at most once.
    pub open spec fn wf(self) -> bool {
        forall|i: int, j: int| 0 <= i < j < self@.len() ==> self@[i] != self@[j]
    }

    /// An empty selection.
    pub fn new() -> (r: SelectedEntities)
        ensures
            r@ == Seq::<EntityId>::empty(),
            r.wf(),
    {
        SelectedEntities { entities: Vec::new() }
    }

    /// Number of selected objects.
    pub fn len(&self) -> (r: usize)
        ensures
            r == self@.len(),
    {
        self.entities.len()
    }

    /// Whether nothing is selected.
    pub fn is_empty(&self) -> (r: bool)
        ensures
            r == (self@.len() == 0),
    {
        self.entities.len() == 0
    }

    /// The selected identities in selection order.
    pub fn as_slice(&self) -> (r: &[EntityId])
        ensures
            r@ == self@,
    {
        self.entities.as_slice()
    }

    /// The selected identity at position `i`.
    pub fn get(&self, i: usize) -> (r: EntityId)
        requires
            i < self@.len(),
        ensures
            r == self@[i as int],
    {
        self.entities[i]
    }

    /// Membership test.
    pub fn contains(&self, e: EntityId) -> (r: bool)
        ensures
            r == self@.contains(e),
    {
        let mut i: usize = 0;
        while i < self.entities.len()
            invariant
                i <= self.entities@.len(),
                forall|k: int| 0 <= k < i ==> self.entities@[k] != e,
            decreases self.entities@.len() - i,
        {
            if self.entities[i] == e {
                return true;
            }
            i = i + 1;
        }
        false
    }

    /// Replace the whole selection with the single object `e`.
    pub fn select_replace(&mut self, e: EntityId)
        ensures
            final(self)@ == seq![e],
            final(self).wf(),
    {
        self.entities.clear();
        self.entities.push(e);
        assert(self.entities@ =~= seq![e]);
    }

    /// Select `e`, either replacing the selection (no modifier held) or
    /// toggling its membership (modifier held).
    pub fn select_maybe_add(&mut self, e: EntityId, add: bool)
        requires
            old(self).wf(),
        ensures
            final(self).wf(),
            !add ==> final(self)@ == seq![e],
            add && !old(self)@.contains(e) ==> final(self)@ == old(self)@.push(e),
            add && old(self)@.contains(e) ==> {
                &&& final(self)@.len() == old(self)@.len() - 1
                &&& !final(self)@.contains(e)
                &&& exists|i: int|
                    0 <= i < old(self)@.len() && old(self)@[i] == e && final(self)@ == old(
                        self,
                    )@.remove(i)
            },
            final(self)@.contains(e) == (!add || !old(self)@.contains(e)),
    {
        if !add {
            self.select_replace(e);
            assert(self@[0] == e);
            assert(self@.contains(e));
        } else {
            self.toggle(e);
        }
    }

    /// Toggle membership of `e`: remove it if selected, append it if not.
    fn toggle(&mut self, e: EntityId)
        requires
            old(self).wf(),
        ensures
            final(self).wf(),
            !old(self)@.contains(e) ==> final(self)@ == old(self)@.push(e),
            old(self)@.contains(e) ==> {
                &&& final(self)@.len() == old(self)@.len() - 1
                &&& !final(self)@.contains(e)
                &&& exists|i: int|
                    0 <= i < old(self)@.len() && old(self)@[i] == e && final(self)@ == old(
                        self,
                    )@.remove(i)
            },
            final(self)@.contains(e) == !old(self)@.contains(e),
    {
        let ghost prev = self.entities@;
        let mut idx: usize = 0;
        let mut found: bool = false;
        while idx < self.entities.len() && !found
            invariant
                self.entities@ == prev,
                idx <= prev.len(),
                found ==> idx < prev.len() && prev[idx as int] == e,
                !found ==> forall|k: int| 0 <= k < idx ==> prev[k] != e,
            decreases prev.len() - idx, (if found { 0int } else { 1int }),
        {
            if self.entities[idx] == e {
                found = true;
            } else {
                idx = idx + 1;
            }
        }
        if found {
            self.entities.remove(idx);
            proof {
                assert(self.entities@ == prev.remove(idx as int));
                prev.remove_ensures(idx as int);
                assert forall|j: int| 0 <= j < self.entities@.len() implies self.entities@[j] != e
                by {
                    if j < idx {
                        assert(self.entities@[j] == prev[j]);
                        assert(old(self)@[j] != old(self)@[idx as int]);
                    } else {
                        assert(self.entities@[j] == prev[j + 1]);
                        assert(old(self)@[idx as int] != old(self)@[j + 1]);
                    }
                }
                assert(!self.entities@.contains(e));
                assert forall|i: int, j: int|
                    0 <= i < j < self.entities@.len() implies self.entities@[i]
                    != self.entities@[j] by {
                    let pi = if i < idx {
                        i
                    } else {
                        i + 1
                    };
                    let pj = if j < idx {
                        j
                    } else {
                        j + 1
                    };
                    assert(self.entities@[i] == prev[pi]);
                    assert(self.entities@[j] == prev[pj]);
                    assert(old(self)@[pi] != old(self)@[pj]);
                }
            }
        } else {
            self.entities.push(e);
            proof {
                assert(!prev.contains(e));
                assert(self.entities@.last() == e);
                assert(self.entities@.contains(e));
                assert forall|i: int, j: int|
                    0 <= i < j < self.entities@.len() implies self.entities@[i]
                    != self.entities@[j] by {
                    if j == prev.len() {
                        assert(self.entities@[i] == prev[i]);
                        assert(self.entities@[j] == e);
                        assert(prev[i] != e) by {
                            if prev[i] == e {
                                assert(prev.contains(e));
                            }
                        }
                    } else {
                        assert(self.entities@[i] == prev[i]);
                        assert(self.entities@[j] == prev[j]);
                        assert(old(self)@[i] != old(self)@[j]);
                    }
                }
            }
        }
    }
}

impl Default for SelectedEntities {
    fn default() -> (r: Self)
        ensures
            r@ == Seq::<EntityId>::empty(),
            r.wf(),
    {
        SelectedEntities { entities: Vec::new() }
    }
}

/// What is currently inspected: the multi-select set of entities, or a
/// single resource, or a single asset.
///
/// A resource is identified by its type identity and display name; an
/// asset additionally by its handle identity. Type and handle
/// identities are modelled as the 64-bit keys the host derives from its
/// reflection system.
#[derive(Clone, Debug, PartialEq, Eq)]
pub enum InspectorSelection {
    /// Whatever the multi-select set holds.
    Entities,
    /// A resource, by type identity and display name.
    Resource(u64, String),
    /// An asset, by type identity, display name and handle identity.
    Asset(u64, String, u64),
}

/// The rectangle the dock layout reports for the live scene's region,
/// in integer UI coordinates. Before the first frame it is the empty
/// placeholder rectangle, whose corners are inverted so that it
/// contains nothing.
#[derive(Clone, Copy, Debug, PartialEq, Eq, Structural)]
pub struct UiRect {
    pub min_x: i64,
    pub min_y: i64,
    pub max_x: i64,
    pub max_y: i64,
}

impl UiRect {
    /// The placeholder rectangle that contains nothing.
    pub open spec fn spec_nothing() -> UiRect {
        UiRect { min_x: i64::MAX, min_y: i64::MAX, max_x: i64::MIN, max_y: i64::MIN }
    }

    /// The placeholder rectangle that contains nothing.
    pub fn nothing() -> (r: UiRect)
        ensures
            r == UiRect::spec_nothing(),
    {
        UiRect { min_x: i64::MAX, min_y: i64::MAX, max_x: i64::MIN, max_y: i64::MIN }
    }
}

/// Refresh the plain-data mirror from the dock layout's rectangle.
/// This runs exactly once per frame, after layout rendering and before
/// any consumer of the mirror.
pub fn export_viewport_rect(mirror: &mut GameViewportRect, rect: &UiRect)
    ensures
        final(mirror).min_x == rect.min_x,
        final(mirror).min_y == rect.min_y,
        final(mirror).max_x == rect.max_x,
        final(mirror).max_y == rect.max_y,
{
    mirror.min_x = rect.min_x;
    mirror.min_y = rect.min_y;
    mirror.max_x = rect.max_x;
    mirror.max_y = rect.max_y;
}

/// Live state of the panel system: the dock tree, this frame's
/// viewport rectangle, the selection, the hierarchy search filter and
/// the metadata of the custom tabs taken over from the registry.
#[derive(Debug)]
pub struct UiState {
    /// The dock tree managing the tab layout.
    pub state: DockState,
    /// The rectangle the game-view region occupied this frame.
    pub viewport_rect: UiRect,
    /// The multi-select set.
    pub selected_entities: SelectedEntities,
    /// What is currently inspected.
    pub selection: InspectorSelection,
    /// Search filter of the hierarchy tab.
    pub hierarchy_search: String,
    /// Metadata of the custom tabs, in registration order.
    pub custom_tabs: Vec<TabMeta>,
}

impl UiState {
    /// Fresh state: a single game-view region, nothing selected, no
    /// search filter, no custom tabs.
    pub fn new() -> (r: UiState)
        ensures
            is_leaf_with(r.state.root, seq![Tab::Builtin(BuiltinTab::GameView)]),
            r.viewport_rect == UiRect::spec_nothing(),
            r.selected_entities@ == Seq::<EntityId>::empty(),
            r.selected_entities.wf(),
            r.selection is Entities,
            r.hierarchy_search@ == Seq::<char>::empty(),
            r.custom_tabs@ == Seq::<TabMeta>::empty(),
    {
        let mut game_tabs: Vec<Tab> = Vec::new();
        game_tabs.push(Tab::Builtin(BuiltinTab::GameView));
        assert(game_tabs@ =~= seq![Tab::Builtin(BuiltinTab::GameView)]);
        UiState {
            state: DockState::new(game_tabs),
            viewport_rect: UiRect::nothing(),
            selected_entities: SelectedEntities::new(),
            selection: InspectorSelection::Entities,
            hierarchy_search: String::new(),
            custom_tabs: Vec::new(),
        }
    }

    /// Rebuild the dock tree as the default layout for `num_custom_tabs`
    /// custom tabs; every other part of the state is untouched.
    pub fn build_default_layout(&mut self, num_custom_tabs: usize)
        ensures
            is_default_layout(final(self).state.root, num_custom_tabs as nat),
            final(self).viewport_rect == old(self).viewport_rect,
            final(self).selected_entities == old(self).selected_entities,
            final(self).selection == old(self).selection,
            final(self).hierarchy_search == old(self).hierarchy_search,
            final(self).custom_tabs == old(self).custom_tabs,
    {
        self.state = DockState::build_default(num_custom_tabs);
    }

    /// Store the custom-tab metadata taken over from the registry.
    pub fn set_custom_tabs(&mut self, tabs: Vec<TabMeta>)
        ensures
            final(self).custom_tabs == tabs,
            final(self).state == old(self).state,
            final(self).viewport_rect == old(self).viewport_rect,
            final(self).selected_entities == old(self).selected_entities,
            final(self).selection == old(self).selection,
            final(self).hierarchy_search == old(self).hierarchy_search,
    {
        self.custom_tabs = tabs;
    }
}

impl Default for UiState {
    fn default() -> (r: Self)
        ensures
            is_leaf_with(r.state.root, seq![Tab::Builtin(BuiltinTab::GameView)]),
            r.selection is Entities,
            r.selected_entities@ == Seq::<EntityId>::empty(),
    {
        UiState::new()
    }
}

/// The one-shot start-up hand-off: take every registration out of the
/// registry (leaving it empty), build the default layout for that
/// number of custom tabs, and return the live state holding the moved
/// registrations.
pub fn initialize_ui_state(registry: &mut InspectorTabRegistry) -> (r: UiState)
    ensures
        final(registry).tabs@.len() == 0,
        r.custom_tabs@ == old(registry).tabs@,
        is_default_layout(r.state.root, old(registry).tabs@.len()),
        r.selection is Entities,
        r.selected_entities@ == Seq::<EntityId>::empty(),
        r.selected_entities.wf(),
        r.hierarchy_search@ == Seq::<char>::empty(),
        r.viewport_rect == UiRect::spec_nothing(),
{
    let custom_tabs = registry.take();
    let num_custom_tabs = custom_tabs.len();
    let mut ui_state = UiState::new();
    ui_state.build_default_layout(num_custom_tabs);
    ui_state.set_custom_tabs(custom_tabs);
    ui_state
}

} // verus!
