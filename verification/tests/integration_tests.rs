//! Behavioural tests of the inspector panel library.

use msg_inspector::diagnostics::{
    classify_fps, classify_frame_time, diagnostics_report, DiagnosticsReport, Severity,
};
use msg_inspector::dock::{DockNode, DockState};
use msg_inspector::hierarchy::{prepare_search_query, search_filtered_hierarchy, EntityEntry};
use msg_inspector::picking::{
    handle_picking_clicks, pick_camera_index, resolve_sprite_size, PickCandidate,
};
use msg_inspector::state::{
    export_viewport_rect, initialize_ui_state, EntityId, GameViewportRect, InspectorEnabled,
    InspectorSelection, SelectedEntities, UiState,
};
use msg_inspector::tabs::{
    clear_background, inspector_target, plan_tab_render, tab_title, BuiltinTab,
    InspectorTabRegistry, InspectorTarget, RenderPlan, Tab, TabMeta, WorldAccess, DockPosition,
};
use msg_inspector::viewport::{compute_camera_viewport, egui_pointer_over_area, CameraViewport};

fn eid(index: u32, generation: u32) -> EntityId {
    EntityId { index, generation }
}

#[test]
fn test_inspector_enabled_resource_defaults_to_true() {
    let enabled = InspectorEnabled::default();
    assert!(enabled.0, "InspectorEnabled should default to true");
}

#[test]
fn test_game_viewport_rect_default_values() {
    let rect = GameViewportRect::default();
    assert_eq!(rect.min_x, 0);
    assert_eq!(rect.min_y, 0);
    assert_eq!(rect.max_x, i64::MAX);
    assert_eq!(rect.max_y, i64::MAX);
}

#[test]
fn test_game_viewport_rect_contains() {
    let rect = GameViewportRect {
        min_x: 10,
        min_y: 20,
        max_x: 100,
        max_y: 200,
    };

    // Inside the rect
    assert!(rect.contains(50, 100));
    assert!(rect.contains(10, 20)); // Min edge
    assert!(rect.contains(100, 200)); // Max edge

    // Outside the rect
    assert!(!rect.contains(5, 100)); // Left of min_x
    assert!(!rect.contains(50, 10)); // Above min_y
    assert!(!rect.contains(150, 100)); // Right of max_x
    assert!(!rect.contains(50, 250)); // Below max_y
}

#[test]
fn test_ui_state_new() {
    let ui_state = UiState::new();
    // Verify default state is created correctly
    assert_eq!(ui_state.selection, InspectorSelection::Entities);
    assert!(ui_state.hierarchy_search.is_empty());
}

#[test]
fn test_inspector_selection_equality() {
    let sel1 = InspectorSelection::Entities;
    let sel2 = InspectorSelection::Entities;
    assert_eq!(sel1, sel2);
}

#[test]
fn test_dock_position_default() {
    let pos = DockPosition::default();
    assert_eq!(pos, DockPosition::Bottom);
}

#[test]
fn test_builtin_tab_enum() {
    // Verify all builtin tabs can be created
    let tabs = [
        BuiltinTab::GameView,
        BuiltinTab::Hierarchy,
        BuiltinTab::Inspector,
        BuiltinTab::Resources,
        BuiltinTab::Assets,
        BuiltinTab::Diagnostics,
    ];

    // Verify equality works
    assert_eq!(BuiltinTab::GameView, BuiltinTab::GameView);
    assert_ne!(BuiltinTab::GameView, BuiltinTab::Hierarchy);

    // Verify Tab enum conversion works
    for tab in tabs {
        let wrapped = Tab::from(tab);
        assert_eq!(wrapped, Tab::Builtin(tab));
    }
}

#[test]
fn test_tab_registry_operations() {
    let registry = InspectorTabRegistry::default();

    // Initially empty
    assert!(registry.is_empty());
    assert_eq!(registry.len(), 0);
    assert!(registry.tabs().is_empty());
}

#[test]
fn toggle_twice_restores_visibility() {
    let mut enabled = InspectorEnabled::default();
    assert!(enabled.0);
    enabled.toggle();
    assert!(!enabled.0);
    enabled.toggle();
    assert!(enabled.0);
}

#[test]
fn builtin_tabs_are_pairwise_distinct() {
    let tabs = [
        BuiltinTab::GameView,
        BuiltinTab::Hierarchy,
        BuiltinTab::Inspector,
        BuiltinTab::Resources,
        BuiltinTab::Assets,
        BuiltinTab::Diagnostics,
    ];
    for (i, a) in tabs.iter().enumerate() {
        for (j, b) in tabs.iter().enumerate() {
            if i != j {
                assert_ne!(a, b);
            }
        }
    }
}

fn bottom_leaf_of(state: &DockState) -> &Vec<Tab> {
    // root = Split { first: rest, second: inspector leaf }
    let DockNode::Split { first: rest, .. } = &state.root else {
        panic!("root is not a split");
    };
    // rest = Split { first: left column, second: centre }
    let DockNode::Split { second: centre, .. } = &**rest else {
        panic!("second level is not a split");
    };
    // centre = Split { first: game leaf, second: bottom leaf }
    let DockNode::Split { second: bottom, .. } = &**centre else {
        panic!("centre is not a split");
    };
    let DockNode::Leaf(tabs) = &**bottom else {
        panic!("bottom region is not a leaf");
    };
    tabs
}

#[test]
fn registered_custom_tabs_land_in_bottom_region_in_order() {
    let mut registry = InspectorTabRegistry::default();
    registry.register(TabMeta::analytics(
        String::from("stats"),
        String::from("Statistics"),
        DockPosition::default(),
    ));
    registry.register(TabMeta::interactive(
        String::from("cheats"),
        String::from("Cheats"),
        DockPosition::Left,
    ));
    registry.register(TabMeta::analytics(
        String::from("net"),
        String::from("Network"),
        DockPosition::Right,
    ));
    assert_eq!(registry.len(), 3);
    assert!(!registry.is_empty());

    let ui_state = initialize_ui_state(&mut registry);

    // Ownership transferred: the registry is empty afterwards.
    assert!(registry.is_empty());
    assert_eq!(registry.tabs().len(), 0);
    assert_eq!(ui_state.custom_tabs.len(), 3);
    assert_eq!(ui_state.custom_tabs[0].id, "stats");
    assert_eq!(ui_state.custom_tabs[0].access, WorldAccess::ReadOnly);
    assert_eq!(ui_state.custom_tabs[1].id, "cheats");
    assert_eq!(ui_state.custom_tabs[1].access, WorldAccess::Mutating);
    assert_eq!(ui_state.custom_tabs[2].id, "net");

    // Exactly three Custom entries after the Assets tab, in order.
    let bottom = bottom_leaf_of(&ui_state.state);
    assert_eq!(
        bottom.as_slice(),
        &[
            Tab::Builtin(BuiltinTab::Assets),
            Tab::Custom(0),
            Tab::Custom(1),
            Tab::Custom(2),
        ]
    );
}

#[test]
fn default_layout_with_no_custom_tabs() {
    let state = DockState::build_default(0);
    let bottom = bottom_leaf_of(&state);
    assert_eq!(bottom.as_slice(), &[Tab::Builtin(BuiltinTab::Assets)]);
}

fn candidate(id: EntityId, x: i64, y: i64, size: i64, z: i64) -> PickCandidate {
    PickCandidate {
        entity: id,
        center_x: x,
        center_y: y,
        size_x: size,
        size_y: size,
        z,
    }
}

#[test]
fn picking_prefers_highest_z_and_modifiers_extend_selection() {
    let mut ui_state = UiState::new();
    let enabled = InspectorEnabled::default();

    // Two overlapping objects at the click point, z = 1 and z = 2.
    let a = candidate(eid(1, 0), 0, 0, 100, 1);
    let b = candidate(eid(2, 0), 0, 0, 100, 2);
    // A third object elsewhere.
    let c = candidate(eid(3, 0), 500, 500, 100, 0);
    let candidates = vec![a, b, c];

    let picked = handle_picking_clicks(
        &mut ui_state,
        &enabled,
        true,
        false,
        Some((0, 0)),
        false,
        &candidates,
    );
    assert_eq!(picked, Some(eid(2, 0)));
    assert_eq!(ui_state.selected_entities.as_slice(), &[eid(2, 0)]);
    assert_eq!(ui_state.selection, InspectorSelection::Entities);

    // Shift-click the non-overlapping object: the first stays, the
    // second is added.
    let picked = handle_picking_clicks(
        &mut ui_state,
        &enabled,
        true,
        false,
        Some((500, 500)),
        true,
        &candidates,
    );
    assert_eq!(picked, Some(eid(3, 0)));
    assert_eq!(ui_state.selected_entities.len(), 2);
    assert!(ui_state.selected_entities.contains(eid(2, 0)));
    assert!(ui_state.selected_entities.contains(eid(3, 0)));

    // A plain click replaces the whole set.
    let picked = handle_picking_clicks(
        &mut ui_state,
        &enabled,
        true,
        false,
        Some((0, 0)),
        false,
        &candidates,
    );
    assert_eq!(picked, Some(eid(2, 0)));
    assert_eq!(ui_state.selected_entities.as_slice(), &[eid(2, 0)]);
}

#[test]
fn picking_is_a_no_op_while_disabled() {
    let mut ui_state = UiState::new();
    let disabled = InspectorEnabled(false);
    let candidates = vec![candidate(eid(1, 0), 0, 0, 100, 1)];
    let picked = handle_picking_clicks(
        &mut ui_state,
        &disabled,
        true,
        false,
        Some((0, 0)),
        false,
        &candidates,
    );
    assert_eq!(picked, None);
    assert!(ui_state.selected_entities.is_empty());
    assert_eq!(ui_state.selection, InspectorSelection::Entities);
}

#[test]
fn picking_ignores_clicks_on_panels() {
    let mut ui_state = UiState::new();
    let enabled = InspectorEnabled::default();
    let candidates = vec![candidate(eid(1, 0), 0, 0, 100, 1)];
    let picked =
        handle_picking_clicks(&mut ui_state, &enabled, true, true, Some((0, 0)), false, &candidates);
    assert_eq!(picked, None);
    assert!(ui_state.selected_entities.is_empty());
}

#[test]
fn picking_toggle_removes_an_already_selected_object() {
    let mut selected = SelectedEntities::new();
    selected.select_maybe_add(eid(7, 0), false);
    selected.select_maybe_add(eid(8, 0), true);
    assert_eq!(selected.len(), 2);
    // Toggling an already selected object removes it.
    selected.select_maybe_add(eid(7, 0), true);
    assert_eq!(selected.as_slice(), &[eid(8, 0)]);
}

#[test]
fn hit_bounds_are_inclusive() {
    let c = candidate(eid(1, 0), 0, 0, 100, 0);
    let candidates = vec![c];
    let mut ui_state = UiState::new();
    let enabled = InspectorEnabled::default();
    // Exactly on the edge: half the extent from the centre.
    let picked = handle_picking_clicks(
        &mut ui_state,
        &enabled,
        true,
        false,
        Some((50, 50)),
        false,
        &candidates,
    );
    assert_eq!(picked, Some(eid(1, 0)));
    // Just outside.
    let picked = handle_picking_clicks(
        &mut ui_state,
        &enabled,
        true,
        false,
        Some((51, 50)),
        true,
        &candidates,
    );
    assert_eq!(picked, None);
}

#[test]
fn sprite_size_resolution_order() {
    assert_eq!(resolve_sprite_size(Some((10, 20)), Some((30, 40))), (10, 20));
    assert_eq!(resolve_sprite_size(None, Some((30, 40))), (30, 40));
    assert_eq!(resolve_sprite_size(None, None), (32, 32));
}

#[test]
fn camera_choice_skips_negative_draw_orders() {
    assert_eq!(pick_camera_index(&vec![-1, -2, 0, 5]), Some(2));
    assert_eq!(pick_camera_index(&vec![-1, -2]), None);
    assert_eq!(pick_camera_index(&Vec::new()), None);
}

#[test]
fn viewport_exceeding_window_is_cleared_not_clamped() {
    // A window of 800x600 physical pixels and a target rectangle at
    // (0,0) sized 900x600: the far corner exceeds the window width,
    // so the camera viewport must be cleared.
    let rect = msg_inspector::state::UiRect {
        min_x: 0,
        min_y: 0,
        max_x: 900,
        max_y: 600,
    };
    let r = compute_camera_viewport(true, &rect, 1000, 800, 600);
    assert_eq!(r, None);
}

#[test]
fn viewport_applies_when_it_fits() {
    let rect = msg_inspector::state::UiRect {
        min_x: 100,
        min_y: 50,
        max_x: 700,
        max_y: 550,
    };
    let r = compute_camera_viewport(true, &rect, 1000, 800, 600);
    assert_eq!(
        r,
        Some(CameraViewport {
            x: 100,
            y: 50,
            width: 600,
            height: 500,
        })
    );
    // The scale factor is applied in permille.
    let r = compute_camera_viewport(true, &rect, 500, 800, 600);
    assert_eq!(
        r,
        Some(CameraViewport {
            x: 50,
            y: 25,
            width: 300,
            height: 250,
        })
    );
}

#[test]
fn viewport_cleared_for_minimized_window_and_degenerate_rect() {
    let rect = msg_inspector::state::UiRect {
        min_x: 0,
        min_y: 0,
        max_x: 10,
        max_y: 10,
    };
    // Minimized window: below the minimum size on either axis.
    assert_eq!(compute_camera_viewport(true, &rect, 1000, 15, 600), None);
    assert_eq!(compute_camera_viewport(true, &rect, 1000, 800, 15), None);
    // Zero-size target.
    let empty = msg_inspector::state::UiRect {
        min_x: 5,
        min_y: 5,
        max_x: 5,
        max_y: 9,
    };
    assert_eq!(compute_camera_viewport(true, &empty, 1000, 800, 600), None);
}

#[test]
fn viewport_full_window_when_panels_hidden() {
    let rect = msg_inspector::state::UiRect {
        min_x: 100,
        min_y: 100,
        max_x: 200,
        max_y: 200,
    };
    let r = compute_camera_viewport(false, &rect, 1000, 800, 600);
    assert_eq!(
        r,
        Some(CameraViewport {
            x: 0,
            y: 0,
            width: 800,
            height: 600,
        })
    );
}

#[test]
fn pointer_over_area_gates_input() {
    let mut mirror = GameViewportRect::default();
    let ui_rect = msg_inspector::state::UiRect {
        min_x: 100,
        min_y: 100,
        max_x: 500,
        max_y: 400,
    };
    export_viewport_rect(&mut mirror, &ui_rect);
    assert_eq!(mirror.min_x, 100);
    assert_eq!(mirror.max_y, 400);

    // Disabled: never blocks.
    assert!(!egui_pointer_over_area(&mirror, Some((0, 0)), false));
    // Inside the game viewport: not over panel chrome.
    assert!(!egui_pointer_over_area(&mirror, Some((300, 300)), true));
    // Outside the game viewport: over panel chrome.
    assert!(egui_pointer_over_area(&mirror, Some((50, 50)), true));
    // No cursor position: treated as over chrome.
    assert!(egui_pointer_over_area(&mirror, None, true));
}

#[test]
fn frame_time_colour_thresholds_are_inclusive() {
    // 16.7 ms exactly is green; 16.8 ms is yellow; 33.4 ms is red.
    assert_eq!(classify_frame_time(167), Severity::Green);
    assert_eq!(classify_frame_time(168), Severity::Yellow);
    assert_eq!(classify_frame_time(333), Severity::Yellow);
    assert_eq!(classify_frame_time(334), Severity::Red);
}

#[test]
fn fps_colour_thresholds() {
    assert_eq!(classify_fps(600), Severity::Green);
    assert_eq!(classify_fps(599), Severity::Yellow);
    assert_eq!(classify_fps(300), Severity::Yellow);
    assert_eq!(classify_fps(299), Severity::Red);
}

#[test]
fn diagnostics_report_without_time_source_is_a_fallback() {
    assert_eq!(diagnostics_report(None, 10), DiagnosticsReport::TimeUnavailable);
}

#[test]
fn diagnostics_report_derives_metrics() {
    // A 16.666 ms frame: 60 fps (600 tenths), 16.6 ms (166 tenths).
    let r = diagnostics_report(Some(16_666), 42);
    assert_eq!(
        r,
        DiagnosticsReport::Metrics {
            fps_tenths: 600,
            frame_time_tenths: 166,
            fps_severity: Severity::Green,
            frame_time_severity: Severity::Green,
            total_entities: 42,
        }
    );
    // A 40 ms frame: 25 fps, red and red.
    let r = diagnostics_report(Some(40_000), 7);
    assert_eq!(
        r,
        DiagnosticsReport::Metrics {
            fps_tenths: 250,
            frame_time_tenths: 400,
            fps_severity: Severity::Red,
            frame_time_severity: Severity::Red,
            total_entities: 7,
        }
    );
    // A zero delta stands for an unbounded rate.
    let r = diagnostics_report(Some(0), 0);
    assert_eq!(
        r,
        DiagnosticsReport::Metrics {
            fps_tenths: u64::MAX,
            frame_time_tenths: 0,
            fps_severity: Severity::Green,
            frame_time_severity: Severity::Green,
            total_entities: 0,
        }
    );
}

#[test]
fn search_query_is_trimmed_and_lowercased() {
    assert_eq!(prepare_search_query("  PlAyEr  "), "player");
    assert_eq!(prepare_search_query("   "), "");
    assert_eq!(prepare_search_query(""), "");
}

fn entry(id: EntityId, name: Option<&str>) -> EntityEntry {
    EntityEntry {
        id,
        name: name.map(String::from),
    }
}

#[test]
fn hierarchy_search_matches_case_insensitively_and_sorts() {
    let entities = vec![
        entry(eid(1, 0), Some("Zeppelin")),
        entry(eid(2, 0), Some("Player One")),
        entry(eid(3, 0), Some("background")),
        entry(eid(4, 0), Some("PLAYER TWO")),
        entry(eid(5, 0), None),
    ];
    let query = prepare_search_query("  PLayer ");
    let hits = search_filtered_hierarchy(&entities, &query);
    // Case-insensitive matches, sorted by display name ascending.
    assert_eq!(hits.len(), 2);
    assert_eq!(hits[0].id, eid(4, 0));
    assert_eq!(hits[0].display_name, "PLAYER TWO");
    assert_eq!(hits[1].id, eid(2, 0));
    assert_eq!(hits[1].display_name, "Player One");
}

#[test]
fn hierarchy_search_matches_entity_ids_and_deduplicates() {
    let entities = vec![
        entry(eid(12, 3), Some("Named12")),
        entry(eid(12, 4), None),
        entry(eid(7, 0), Some("12v4 lookalike")),
    ];
    // "12v4" matches the textual identity of 12v4 and the name of the
    // lookalike.
    let query = prepare_search_query("12v4");
    let hits = search_filtered_hierarchy(&entities, &query);
    assert_eq!(hits.len(), 2);
    // Sorted by display name: "12v4" < "12v4 lookalike".
    assert_eq!(hits[0].id, eid(12, 4));
    assert_eq!(hits[0].display_name, "12v4");
    assert_eq!(hits[1].id, eid(7, 0));
    assert_eq!(hits[1].display_name, "12v4 lookalike");

    // An entity matched by name is not duplicated by the identity scan.
    let query = prepare_search_query("named12");
    let hits = search_filtered_hierarchy(&entities, &query);
    assert_eq!(hits.len(), 1);
    assert_eq!(hits[0].id, eid(12, 3));

    // The identity scan also matches prefixes of the identity text.
    let query = prepare_search_query("12v");
    let hits = search_filtered_hierarchy(&entities, &query);
    assert_eq!(hits.len(), 3);
}

#[test]
fn hierarchy_search_ties_break_by_identity() {
    // The scan happens to meet the higher identity first; the result
    // still orders equal names by identity, so the output does not
    // depend on the snapshot's iteration order.
    let entities = vec![
        entry(eid(2, 0), Some("same")),
        entry(eid(1, 0), Some("same")),
        entry(eid(1, 1), Some("same")),
    ];
    let query = prepare_search_query("same");
    let hits = search_filtered_hierarchy(&entities, &query);
    assert_eq!(hits.len(), 3);
    assert_eq!(hits[0].id, eid(1, 0));
    assert_eq!(hits[1].id, eid(1, 1));
    assert_eq!(hits[2].id, eid(2, 0));
}

#[test]
fn tab_titles() {
    let titles = vec![String::from("Statistics")];
    assert_eq!(tab_title(&Tab::Builtin(BuiltinTab::GameView), &titles), "Game");
    assert_eq!(tab_title(&Tab::Builtin(BuiltinTab::Diagnostics), &titles), "Diagnostics");
    assert_eq!(tab_title(&Tab::Custom(0), &titles), "Statistics");
    // A stale index falls back to a numbered title.
    assert_eq!(tab_title(&Tab::Custom(17), &titles), "Tab 17");
}

#[test]
fn tab_render_plan_degrades_to_placeholders() {
    assert_eq!(
        plan_tab_render(&Tab::Builtin(BuiltinTab::Hierarchy), true, 0, true),
        RenderPlan::Builtin(BuiltinTab::Hierarchy)
    );
    assert_eq!(
        plan_tab_render(&Tab::Builtin(BuiltinTab::Hierarchy), false, 0, true),
        RenderPlan::TypeRegistryMissing
    );
    assert_eq!(plan_tab_render(&Tab::Custom(1), true, 3, true), RenderPlan::CustomBody(1));
    assert_eq!(plan_tab_render(&Tab::Custom(1), true, 3, false), RenderPlan::CustomHidden(1));
    assert_eq!(plan_tab_render(&Tab::Custom(5), true, 3, true), RenderPlan::CustomMissing(5));
}

#[test]
fn game_view_keeps_a_transparent_background() {
    assert!(!clear_background(&Tab::Builtin(BuiltinTab::GameView)));
    assert!(clear_background(&Tab::Builtin(BuiltinTab::Inspector)));
    assert!(clear_background(&Tab::Custom(0)));
}

#[test]
fn inspector_target_follows_the_selection() {
    let mut selected = SelectedEntities::new();

    // No selected entities: the shared-components view of nothing.
    let t = inspector_target(&InspectorSelection::Entities, &selected);
    match t {
        InspectorTarget::SharedComponents(v) => assert!(v.is_empty()),
        _ => panic!("expected the shared-components view"),
    }

    // Exactly one: the full recursive view.
    selected.select_maybe_add(eid(5, 1), false);
    let t = inspector_target(&InspectorSelection::Entities, &selected);
    match t {
        InspectorTarget::SingleEntity(e) => assert_eq!(e, eid(5, 1)),
        _ => panic!("expected the single-entity view"),
    }

    // Several: shared components of all of them.
    selected.select_maybe_add(eid(6, 0), true);
    let t = inspector_target(&InspectorSelection::Entities, &selected);
    match t {
        InspectorTarget::SharedComponents(v) => {
            assert_eq!(v, vec![eid(5, 1), eid(6, 0)]);
        }
        _ => panic!("expected the shared-components view"),
    }

    // A resource selection renders by type identity.
    let sel = InspectorSelection::Resource(99, String::from("Time"));
    let t = inspector_target(&sel, &selected);
    match t {
        InspectorTarget::Resource { type_key, name } => {
            assert_eq!(type_key, 99);
            assert_eq!(name, "Time");
        }
        _ => panic!("expected the resource view"),
    }

    let sel = InspectorSelection::Asset(7, String::from("hero.png"), 1234);
    let t = inspector_target(&sel, &selected);
    match t {
        InspectorTarget::Asset { type_key, name, handle } => {
            assert_eq!(type_key, 7);
            assert_eq!(name, "hero.png");
            assert_eq!(handle, 1234);
        }
        _ => panic!("expected the asset view"),
    }
}

#[test]
fn registry_allows_duplicate_ids_and_mutable_access() {
    let mut registry = InspectorTabRegistry::default();
    registry.register(TabMeta::analytics(
        String::from("stats"),
        String::from("Statistics"),
        DockPosition::default(),
    ));
    registry.register(TabMeta::analytics(
        String::from("stats"),
        String::from("Statistics"),
        DockPosition::default(),
    ));
    // Duplicate identifiers yield two independent registrations.
    assert_eq!(registry.len(), 2);
    registry.tabs_mut()[0].title = String::from("Stats");
    assert_eq!(registry.tabs()[0].title, "Stats");
    assert_eq!(registry.tabs()[1].title, "Statistics");
}

#[test]
fn tab_meta_constructors_record_the_capability() {
    let analytics = TabMeta::analytics(
        String::from("net"),
        String::from("Network"),
        DockPosition::Right,
    );
    assert_eq!(analytics.access, WorldAccess::ReadOnly);
    assert_eq!(analytics.id, "net");
    assert_eq!(analytics.title, "Network");
    assert_eq!(analytics.dock_position, DockPosition::Right);

    let interactive = TabMeta::interactive(
        String::from("cheats"),
        String::from("Cheats"),
        DockPosition::default(),
    );
    assert_eq!(interactive.access, WorldAccess::Mutating);
    assert_eq!(interactive.dock_position, DockPosition::Bottom);
}

#[test]
fn entity_labels_render_index_and_generation() {
    assert_eq!(msg_inspector::text::entity_label(123, 4), "123v4");
    assert_eq!(msg_inspector::text::entity_label(0, 0), "0v0");
}

#[test]
fn ui_state_starts_with_a_single_game_region() {
    let ui_state = UiState::new();
    match &ui_state.state.root {
        DockNode::Leaf(tabs) => {
            assert_eq!(tabs.as_slice(), &[Tab::Builtin(BuiltinTab::GameView)]);
        }
        _ => panic!("fresh state should hold a single region"),
    }
    assert!(ui_state.custom_tabs.is_empty());
    assert!(ui_state.selected_entities.is_empty());
}
