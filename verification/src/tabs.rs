//! Tab identifiers, the tab contract's model, and the registry that host
//! code populates before the dock layout is first built.
//!
//! The dock tree stores only the lightweight [`Tab`] identifiers defined
//! here; the behaviour behind a custom tab (its draw closure and its world
//! access) lives with the host, which keeps tree manipulation independent
//! of behaviour storage. What the library models of a registered tab is
//! its metadata: identifier, title, preferred dock position and declared
//! world-access capability.

use vstd::prelude::*;
use vstd::string::StringExecFns;

use crate::state::{EntityId, InspectorSelection, SelectedEntities};
use crate::text::{dec_rep, push_decimal};

verus! {

/// Preferred dock position for a tab.
#[derive(Clone, Copy, Debug, PartialEq, Eq, Structural)]
pub enum DockPosition {
    Left,
    Right,
    Bottom,
    Center,
}

impl Default for DockPosition {
    /// A tab with no explicit preference docks at the bottom.
    fn default() -> (r: Self)
        ensures
            r is Bottom,
    {
        DockPosition::Bottom
    }
}

/// The six built-in panels.
#[derive(Clone, Copy, Debug, PartialEq, Eq, Hash, Structural)]
pub enum BuiltinTab {
    /// The live scene's viewport.
    GameView,
    /// Entity hierarchy browser.
    Hierarchy,
    /// Entity/resource/asset inspector.
    Inspector,
    /// Resource browser.
    Resources,
    /// Asset browser.
    Assets,
    /// Performance diagnostics.
    Diagnostics,
}

/// A tab identifier stored in the dock tree: either a built-in panel or
/// a custom tab named by its index in the registration order.
#[derive(Clone, Copy, Debug, PartialEq, Eq, Hash, Structural)]
pub enum Tab {
    Builtin(BuiltinTab),
    Custom(usize),
}

impl From<BuiltinTab> for Tab {
    /// Wrapping a built-in kind always yields `Tab::Builtin` of that kind.
    fn from(tab: BuiltinTab) -> (r: Self) {
        Tab::Builtin(tab)
    }
}

impl vstd::std_specs::convert::FromSpecImpl<BuiltinTab> for Tab {
    open spec fn obeys_from_spec() -> bool {
        true
    }

    open spec fn from_spec(tab: BuiltinTab) -> Tab {
        Tab::Builtin(tab)
    }
}

/// For every built-in kind, conversion yields the `Builtin` variant
/// carrying exactly that kind.
pub proof fn lemma_tab_from_builtin(tab: BuiltinTab)
    ensures
        <Tab as vstd::std_specs::convert::FromSpec<BuiltinTab>>::from_spec(tab) == Tab::Builtin(tab),
{
}

/// The world-access capability a custom tab declared when it was
/// registered: analytics tabs read the world, interactive tabs may
/// mutate it. The capability is fixed at registration, not per call.
#[derive(Clone, Copy, Debug, PartialEq, Eq, Structural)]
pub enum WorldAccess {
    ReadOnly,
    Mutating,
}

/// The registered metadata of one custom tab: its stable identifier, the
/// title shown in its tab header, its preferred dock position and its
/// declared world access. The behaviour itself (the draw closure) stays
/// with the host.
#[derive(Clone, Debug)]
pub struct TabMeta {
    pub id: String,
    pub title: String,
    pub dock_position: DockPosition,
    pub access: WorldAccess,
}

impl TabMeta {
    /// Metadata for a read-only analytics tab.
    pub fn analytics(id: String, title: String, dock_position: DockPosition) -> (r: TabMeta)
        ensures
            r.id == id,
            r.title == title,
            r.dock_position == dock_position,
            r.access is ReadOnly,
    {
        TabMeta { id, title, dock_position, access: WorldAccess::ReadOnly }
    }

    /// Metadata for an interactive tab, which may mutate the world.
    pub fn interactive(id: String, title: String, dock_position: DockPosition) -> (r: TabMeta)
        ensures
            r.id == id,
            r.title == title,
            r.dock_position == dock_position,
            r.access is Mutating,
    {
        TabMeta { id, title, dock_position, access: WorldAccess::Mutating }
    }
}

/// The registry host code fills before the dock layout is first built.
///
/// Registration appends; duplicate identifiers are allowed and yield two
/// independent tabs. At initialization the whole collection is handed
/// off to the live panel state and the registry is empty afterwards.
pub struct InspectorTabRegistry {
    pub tabs: Vec<TabMeta>,
}

impl InspectorTabRegistry {
    /// Append one custom tab registration.
    pub fn register(&mut self, tab: TabMeta)
        ensures
            final(self).tabs@ == old(self).tabs@.push(tab),
    {
        self.tabs.push(tab);
    }

    /// All registered tabs, in registration order.
    pub fn tabs(&self) -> (r: &[TabMeta])
        ensures
            r@ == self.tabs@,
    {
        self.tabs.as_slice()
    }

    /// Mutable access to all registered tabs.
    pub fn tabs_mut(&mut self) -> (r: &mut Vec<TabMeta>)
        ensures
            *r == old(self).tabs,
            final(self).tabs == *final(r),
    {
        &mut self.tabs
    }

    /// Number of registered custom tabs.
    pub fn len(&self) -> (r: usize)
        ensures
            r == self.tabs@.len(),
    {
        self.tabs.len()
    }

    /// Whether there are any registered custom tabs.
    pub fn is_empty(&self) -> (r: bool)
        ensures
            r == (self.tabs@.len() == 0),
    {
        self.tabs.len() == 0
    }

    /// Move the whole collection out, leaving the registry empty: the
    /// one-shot hand-off to the live panel state.
    pub fn take(&mut self) -> (r: Vec<TabMeta>)
        ensures
            r@ == old(self).tabs@,
            final(self).tabs@.len() == 0,
    {
        let mut out: Vec<TabMeta> = Vec::new();
        core::mem::swap(&mut out, &mut self.tabs);
        out
    }
}

impl Default for InspectorTabRegistry {
    fn default() -> (r: Self)
        ensures
            r.tabs@.len() == 0,
    {
        InspectorTabRegistry { tabs: Vec::new() }
    }
}

/// What the dock's viewer renders for one tab this frame.
#[derive(Clone, Copy, Debug, PartialEq, Eq, Structural)]
pub enum RenderPlan {
    /// The built-in panel's body.
    Builtin(BuiltinTab),
    /// The shared reflection state is missing: render an inline
    /// fallback message instead of any built-in body.
    TypeRegistryMissing,
    /// The custom tab's body.
    CustomBody(usize),
    /// The custom tab declared itself not visible for the current
    /// world state: render a neutral placeholder, skip its body.
    CustomHidden(usize),
    /// No registration exists under this index (a stale tree): render
    /// a "not found" placeholder instead of failing the frame.
    CustomMissing(usize),
}

/// Decide what to render for one tab, never failing the frame: a
/// missing type registry, a stale custom index and a tab that
/// declared itself hidden all degrade to placeholders.
///
/// `custom_visible` is what the custom tab under this identifier
/// answered to its visibility query; it is consulted only for a custom
/// tab whose registration exists.
pub fn plan_tab_render(
    tab: &Tab,
    has_type_registry: bool,
    custom_tab_count: usize,
    custom_visible: bool,
) -> (r: RenderPlan)
    ensures
        tab matches Tab::Builtin(b) ==> r == (if has_type_registry {
            RenderPlan::Builtin(*b)
        } else {
            RenderPlan::TypeRegistryMissing
        }),
        tab matches Tab::Custom(i) ==> r == (if *i >= custom_tab_count {
            RenderPlan::CustomMissing(*i)
        } else if custom_visible {
            RenderPlan::CustomBody(*i)
        } else {
            RenderPlan::CustomHidden(*i)
        }),
{
    match tab {
        Tab::Builtin(b) => {
            if has_type_registry {
                RenderPlan::Builtin(*b)
            } else {
                RenderPlan::TypeRegistryMissing
            }
        },
        Tab::Custom(i) => {
            if *i >= custom_tab_count {
                RenderPlan::CustomMissing(*i)
            } else if custom_visible {
                RenderPlan::CustomBody(*i)
            } else {
                RenderPlan::CustomHidden(*i)
            }
        },
    }
}

/// The fixed header title of a built-in panel.
pub open spec fn builtin_title(b: BuiltinTab) -> Seq<char> {
    match b {
        BuiltinTab::GameView => "Game"@,
        BuiltinTab::Hierarchy => "Hierarchy"@,
        BuiltinTab::Inspector => "Inspector"@,
        BuiltinTab::Resources => "Resources"@,
        BuiltinTab::Assets => "Assets"@,
        BuiltinTab::Diagnostics => "Diagnostics"@,
    }
}

/// The header title of any tab: the fixed name of a built-in panel,
/// the registered title of a custom tab, or a numbered fallback for a
/// stale custom index.
pub open spec fn spec_tab_title(tab: Tab, custom_titles: Seq<Seq<char>>) -> Seq<char> {
    match tab {
        Tab::Builtin(b) => builtin_title(b),
        Tab::Custom(i) => if i < custom_titles.len() {
            custom_titles[i as int]
        } else {
            "Tab "@ + dec_rep(i as nat)
        },
    }
}

/// Render the header title of a tab, given the registered custom-tab
/// titles in registration order.
pub fn tab_title(tab: &Tab, custom_titles: &Vec<String>) -> (r: String)
    ensures
        r@ == spec_tab_title(*tab, custom_titles@.map_values(|t: String| t@)),
{
    match tab {
        Tab::Builtin(b) => {
            match b {
                BuiltinTab::GameView => String::from_str("Game"),
                BuiltinTab::Hierarchy => String::from_str("Hierarchy"),
                BuiltinTab::Inspector => String::from_str("Inspector"),
                BuiltinTab::Resources => String::from_str("Resources"),
                BuiltinTab::Assets => String::from_str("Assets"),
                BuiltinTab::Diagnostics => String::from_str("Diagnostics"),
            }
        },
        Tab::Custom(i) => {
            if *i < custom_titles.len() {
                let title = custom_titles[*i].clone();
                assert(title@ == custom_titles@.map_values(|t: String| t@)[*i as int]);
                title
            } else {
                let mut s = String::from_str("Tab ");
                push_decimal(&mut s, *i as u64);
                s
            }
        },
    }
}

/// Whether the dock should paint a background behind the tab: every
/// panel but the game view, which must stay transparent so the live
/// scene shows through.
pub fn clear_background(tab: &Tab) -> (r: bool)
    ensures
        r == !(tab matches Tab::Builtin(BuiltinTab::GameView)),
{
    match tab {
        Tab::Builtin(BuiltinTab::GameView) => false,
        _ => true,
    }
}

/// What the inspector panel shows, decided from the selection variant
/// and the multi-select set.
#[derive(Debug)]
pub enum InspectorTarget {
    /// Exactly one selected object: its full recursive component view.
    SingleEntity(EntityId),
    /// Zero or several selected objects: only the components shared by
    /// all of them.
    SharedComponents(Vec<EntityId>),
    /// A resource's reflected contents, by type identity.
    Resource { type_key: u64, name: String },
    /// An asset's reflected contents, by type identity and handle.
    Asset { type_key: u64, name: String, handle: u64 },
}

/// Decide what the inspector panel shows: a single selected object is
/// rendered in full, several share a component view, and a selected
/// resource or asset is rendered by its type identity.
pub fn inspector_target(selection: &InspectorSelection, selected: &SelectedEntities) -> (r:
    InspectorTarget)
    ensures
        selection is Entities && selected@.len() == 1 ==> r == InspectorTarget::SingleEntity(
            selected@[0],
        ),
        selection is Entities && selected@.len() != 1 ==> (r matches
            InspectorTarget::SharedComponents(v) && v@ == selected@),
        selection matches InspectorSelection::Resource(t, n) ==> (r matches
            InspectorTarget::Resource { type_key, name } && type_key == t && name@ == n@),
        selection matches InspectorSelection::Asset(t, n, h) ==> (r matches InspectorTarget::Asset {
            type_key,
            name,
            handle,
        } && type_key == t && name@ == n@ && handle == h),
{
    match selection {
        InspectorSelection::Entities => {
            if selected.len() == 1 {
                InspectorTarget::SingleEntity(selected.get(0))
            } else {
                let mut v: Vec<EntityId> = Vec::new();
                let mut i: usize = 0;
                while i < selected.len()
                    invariant
                        i <= selected@.len(),
                        v@ == selected@.take(i as int),
                    decreases selected@.len() - i,
                {
                    v.push(selected.get(i));
                    assert(v@ =~= selected@.take(i + 1));
                    i = i + 1;
                }
                assert(v@ =~= selected@) by {
                    assert(selected@.take(selected@.len() as int) =~= selected@);
                }
                InspectorTarget::SharedComponents(v)
            }
        },
        InspectorSelection::Resource(t, n) => {
            InspectorTarget::Resource { type_key: *t, name: n.clone() }
        },
        InspectorSelection::Asset(t, n, h) => {
            InspectorTarget::Asset { type_key: *t, name: n.clone(), handle: *h }
        },
    }
}

} // verus!
