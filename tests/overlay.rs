use quicknotes_overlay::overlay::{
    add_window_to_current_space, get_window_id, show_window_on_top, OverlayStep, OverlayStrategy,
    SpaceAssignment, CAN_JOIN_ALL_SPACES, FULL_SCREEN_ALLOWS_TILING, FULL_SCREEN_AUXILIARY,
    MOVE_TO_ACTIVE_SPACE, OVERLAY_COLLECTION_BEHAVIOR, OVERLAY_WINDOW_LEVEL,
};

#[test]
fn native_sequence() {
    assert_eq!(
        show_window_on_top(OverlayStrategy::NativeSpacesIntegration),
        vec![
            OverlayStep::Hide,
            OverlayStep::PositionNearCursor,
            OverlayStep::SetLevel(101),
            OverlayStep::SetCollectionBehavior(OVERLAY_COLLECTION_BEHAVIOR),
            OverlayStep::OrderFront,
            OverlayStep::SetAlwaysOnTop,
            OverlayStep::AttachToActiveSpace,
            OverlayStep::Show,
            OverlayStep::Focus,
        ]
    );
    assert_eq!(OVERLAY_WINDOW_LEVEL, 101);
}

#[test]
fn basic_sequence() {
    assert_eq!(
        show_window_on_top(OverlayStrategy::BasicAlwaysOnTop),
        vec![
            OverlayStep::Hide,
            OverlayStep::PositionNearCursor,
            OverlayStep::SetAlwaysOnTop,
            OverlayStep::SetVisibleOnAllWorkspaces,
            OverlayStep::Show,
            OverlayStep::Focus,
        ]
    );
}

#[test]
fn noop_sequence() {
    assert_eq!(
        show_window_on_top(OverlayStrategy::NoOp),
        vec![OverlayStep::Hide, OverlayStep::PositionNearCursor, OverlayStep::Show, OverlayStep::Focus]
    );
}

#[test]
fn collection_behavior_flags() {
    assert_eq!(
        OVERLAY_COLLECTION_BEHAVIOR,
        MOVE_TO_ACTIVE_SPACE | FULL_SCREEN_AUXILIARY | FULL_SCREEN_ALLOWS_TILING
    );
    assert_eq!(OVERLAY_COLLECTION_BEHAVIOR & CAN_JOIN_ALL_SPACES, 0);
}

#[test]
fn window_ids() {
    assert_eq!(get_window_id(0), None);
    assert_eq!(get_window_id(42), Some(42));
    assert_eq!(get_window_id(1 << 32), None);
    assert_eq!(get_window_id(-1), Some(u32::MAX));
}

#[test]
fn attach_needs_positive_space() {
    assert_eq!(
        add_window_to_current_space(7, 3),
        Ok(SpaceAssignment { window_id: 7, space_id: 3 })
    );
    assert_eq!(add_window_to_current_space(7, 0), Err("Failed to get active space".to_string()));
    assert_eq!(add_window_to_current_space(7, -2), Err("Failed to get active space".to_string()));
}
