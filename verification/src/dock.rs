//! The dock layout: a binary tree of split regions whose leaves hold
//! ordered groups of tab identifiers, and the fixed recipe that builds
//! the default layout once at startup.
//!
//! A split stores the share of its first (left or top) child in
//! permille; the ratios are a presentation policy, while the shape of
//! the tree and the order of the tabs in each leaf are the part that
//! matters for correctness.

use vstd::prelude::*;

use crate::tabs::{BuiltinTab, Tab};

verus! {

/// Share of the first child in each split of the default layout, permille.
pub const MAIN_SHARE_PERMILLE: u64 = 800;

/// Share of the first child in the side splits of the default layout, permille.
pub const SIDE_SHARE_PERMILLE: u64 = 200;

/// One region of the dock tree: either a leaf holding an ordered group
/// of tabs, or a split with two children.
///
/// In a horizontal split the children sit side by side (first = left);
/// in a vertical split they are stacked (first = top).
#[derive(Debug)]
pub enum DockNode {
    Leaf(Vec<Tab>),
    Split {
        horizontal: bool,
        fraction_permille: u64,
        first: Box<DockNode>,
        second: Box<DockNode>,
    },
}

/// The node is a leaf holding exactly the tab group `tabs`.
pub open spec fn is_leaf_with(node: DockNode, tabs: Seq<Tab>) -> bool {
    node matches DockNode::Leaf(v) && v@ == tabs
}

/// The sequence `Custom(0), Custom(1), ..., Custom(n - 1)`.
pub open spec fn custom_tabs_seq(n: nat) -> Seq<Tab> {
    Seq::new(n, |i: int| Tab::Custom(i as usize))
}

/// The bottom region of the default layout: the asset browser followed
/// by every registered custom tab in registration order.
pub open spec fn default_bottom_tabs(n: nat) -> Seq<Tab> {
    seq![Tab::Builtin(BuiltinTab::Assets)] + custom_tabs_seq(n)
}

/// The default layout built for `n` registered custom tabs:
/// the game view in the centre with the bottom region below it, the
/// inspector on the right, and on the left the diagnostics panel with a
/// shared hierarchy/resources region beneath it.
pub open spec fn is_default_layout(root: DockNode, n: nat) -> bool {
    &&& root matches DockNode::Split {
        horizontal: true,
        fraction_permille: root_frac,
        first: rest,
        second: inspector,
    }
    &&& root_frac == MAIN_SHARE_PERMILLE
    &&& is_leaf_with(*inspector, seq![Tab::Builtin(BuiltinTab::Inspector)])
    &&& *rest matches DockNode::Split {
        horizontal: true,
        fraction_permille: rest_frac,
        first: left_column,
        second: centre,
    }
    &&& rest_frac == SIDE_SHARE_PERMILLE
    &&& *left_column matches DockNode::Split {
        horizontal: false,
        fraction_permille: left_frac,
        first: diagnostics,
        second: browsers,
    }
    &&& left_frac == SIDE_SHARE_PERMILLE
    &&& is_leaf_with(*diagnostics, seq![Tab::Builtin(BuiltinTab::Diagnostics)])
    &&& is_leaf_with(
        *browsers,
        seq![Tab::Builtin(BuiltinTab::Hierarchy), Tab::Builtin(BuiltinTab::Resources)],
    )
    &&& *centre matches DockNode::Split {
        horizontal: false,
        fraction_permille: centre_frac,
        first: game,
        second: bottom,
    }
    &&& centre_frac == MAIN_SHARE_PERMILLE
    &&& is_leaf_with(*game, seq![Tab::Builtin(BuiltinTab::GameView)])
    &&& is_leaf_with(*bottom, default_bottom_tabs(n))
}

/// The dock tree owned by the live panel state.
#[derive(Debug)]
pub struct DockState {
    pub root: DockNode,
}

impl DockState {
    /// A dock tree with a single region holding `tabs`.
    pub fn new(tabs: Vec<Tab>) -> (r: DockState)
        ensures
            is_leaf_with(r.root, tabs@),
    {
        DockState { root: DockNode::Leaf(tabs) }
    }

    /// Build the default layout for `num_custom_tabs` registered custom
    /// tabs. Every custom tab lands in the bottom region, in
    /// registration order, after the asset browser.
    pub fn build_default(num_custom_tabs: usize) -> (r: DockState)
        ensures
            is_default_layout(r.root, num_custom_tabs as nat),
    {
        let mut bottom_tabs: Vec<Tab> = Vec::new();
        bottom_tabs.push(Tab::Builtin(BuiltinTab::Assets));
        assert(bottom_tabs@ =~= default_bottom_tabs(0));
        let mut i: usize = 0;
        while i < num_custom_tabs
            invariant
                i <= num_custom_tabs,
                bottom_tabs@ == default_bottom_tabs(i as nat),
            decreases num_custom_tabs - i,
        {
            bottom_tabs.push(Tab::Custom(i));
            assert(bottom_tabs@ =~= default_bottom_tabs((i + 1) as nat));
            i = i + 1;
        }

        let mut game_tabs: Vec<Tab> = Vec::new();
        game_tabs.push(Tab::Builtin(BuiltinTab::GameView));
        assert(game_tabs@ =~= seq![Tab::Builtin(BuiltinTab::GameView)]);
        let mut diagnostics_tabs: Vec<Tab> = Vec::new();
        diagnostics_tabs.push(Tab::Builtin(BuiltinTab::Diagnostics));
        assert(diagnostics_tabs@ =~= seq![Tab::Builtin(BuiltinTab::Diagnostics)]);
        let mut browser_tabs: Vec<Tab> = Vec::new();
        browser_tabs.push(Tab::Builtin(BuiltinTab::Hierarchy));
        browser_tabs.push(Tab::Builtin(BuiltinTab::Resources));
        assert(browser_tabs@ =~= seq![
            Tab::Builtin(BuiltinTab::Hierarchy),
            Tab::Builtin(BuiltinTab::Resources),
        ]);
        let mut inspector_tabs: Vec<Tab> = Vec::new();
        inspector_tabs.push(Tab::Builtin(BuiltinTab::Inspector));
        assert(inspector_tabs@ =~= seq![Tab::Builtin(BuiltinTab::Inspector)]);

        let game = DockNode::Leaf(game_tabs);
        let bottom = DockNode::Leaf(bottom_tabs);
        let centre = DockNode::Split {
            horizontal: false,
            fraction_permille: MAIN_SHARE_PERMILLE,
            first: Box::new(game),
            second: Box::new(bottom),
        };
        let diagnostics = DockNode::Leaf(diagnostics_tabs);
        let browsers = DockNode::Leaf(browser_tabs);
        let left_column = DockNode::Split {
            horizontal: false,
            fraction_permille: SIDE_SHARE_PERMILLE,
            first: Box::new(diagnostics),
            second: Box::new(browsers),
        };
        let rest = DockNode::Split {
            horizontal: true,
            fraction_permille: SIDE_SHARE_PERMILLE,
            first: Box::new(left_column),
            second: Box::new(centre),
        };
        let inspector = DockNode::Leaf(inspector_tabs);
        let root = DockNode::Split {
            horizontal: true,
            fraction_permille: MAIN_SHARE_PERMILLE,
            first: Box::new(rest),
            second: Box::new(inspector),
        };
        DockState { root }
    }
}

} // verus!
