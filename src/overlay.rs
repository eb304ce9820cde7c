//! The overlay show sequence: the window directives applied, in order, to
//! make the panel appear above everything on the active space, for each
//! platform capability, and the attachment of the window to the active
//! space through the window server.

use vstd::prelude::*;

verus! {

/// Window level above normal, floating and menu layers (the pop-up menu level).
pub const OVERLAY_WINDOW_LEVEL: i64 = 101;

/// Collection behavior flag: the window joins every space permanently.
pub const CAN_JOIN_ALL_SPACES: u64 = 1;

/// Collection behavior flag: the window moves to the active space when shown.
pub const MOVE_TO_ACTIVE_SPACE: u64 = 2;

/// Collection behavior flag: the window may appear beside a full-screen window.
pub const FULL_SCREEN_AUXILIARY: u64 = 256;

/// Collection behavior flag: the window may take part in full-screen tiling.
pub const FULL_SCREEN_ALLOWS_TILING: u64 = 2048;

/// The collection behavior of the overlay: shown beside full-screen windows
/// and moved to the active space, but never joined to every space, which
/// conflicts with moving to the active one.
pub const OVERLAY_COLLECTION_BEHAVIOR: u64 = MOVE_TO_ACTIVE_SPACE | FULL_SCREEN_AUXILIARY
    | FULL_SCREEN_ALLOWS_TILING;

/// What the platform lets the controller do with the window.
#[derive(Clone, Copy, Debug, PartialEq, Eq, Structural)]
pub enum OverlayStrategy {
    /// Window levels, collection behavior and window-server spaces.
    NativeSpacesIntegration,
    /// Coarse always-on-top and all-workspaces flags only.
    BasicAlwaysOnTop,
    /// Default window behavior.
    NoOp,
}

/// One directive of the show sequence. Each is best effort: a failure is
/// logged and the sequence goes on.
#[derive(Clone, Copy, Debug, PartialEq, Eq, Structural)]
pub enum OverlayStep {
    /// Hide the window, so that what follows starts from a known baseline.
    Hide,
    /// Move the window near the cursor, on the monitor under it.
    PositionNearCursor,
    /// Set the window level.
    SetLevel(i64),
    /// Set the collection behavior flags.
    SetCollectionBehavior(u64),
    /// Bring the window to the front and make it the key window.
    OrderFront,
    /// Keep the window above all others.
    SetAlwaysOnTop,
    /// Show the window on every workspace.
    SetVisibleOnAllWorkspaces,
    /// Attach the window to the active space through the window server.
    AttachToActiveSpace,
    /// Show the window.
    Show,
    /// Give the window the focus.
    Focus,
}

/// The show sequence for each strategy.
pub open spec fn overlay_steps(strategy: OverlayStrategy) -> Seq<OverlayStep> {
    match strategy {
        OverlayStrategy::NativeSpacesIntegration => seq![
            OverlayStep::Hide,
            OverlayStep::PositionNearCursor,
            OverlayStep::SetLevel(OVERLAY_WINDOW_LEVEL),
            OverlayStep::SetCollectionBehavior(OVERLAY_COLLECTION_BEHAVIOR),
            OverlayStep::OrderFront,
            OverlayStep::SetAlwaysOnTop,
            OverlayStep::AttachToActiveSpace,
            OverlayStep::Show,
            OverlayStep::Focus,
        ],
        OverlayStrategy::BasicAlwaysOnTop => seq![
            OverlayStep::Hide,
            OverlayStep::PositionNearCursor,
            OverlayStep::SetAlwaysOnTop,
            OverlayStep::SetVisibleOnAllWorkspaces,
            OverlayStep::Show,
            OverlayStep::Focus,
        ],
        OverlayStrategy::NoOp => seq![
            OverlayStep::Hide,
            OverlayStep::PositionNearCursor,
            OverlayStep::Show,
            OverlayStep::Focus,
        ],
    }
}

/// The steps of the show sequence, in order: hide, position, the
/// strategy's directives, then show and focus, whatever the strategy.
pub fn show_window_on_top(strategy: OverlayStrategy) -> (r: Vec<OverlayStep>)
    ensures
        r@ == overlay_steps(strategy),
        r@.len() >= 4,
        r@[0] == OverlayStep::Hide,
        r@[1] == OverlayStep::PositionNearCursor,
        r@[r@.len() - 2] == OverlayStep::Show,
        r@[r@.len() - 1] == OverlayStep::Focus,
{
    let mut steps: Vec<OverlayStep> = Vec::new();
    steps.push(OverlayStep::Hide);
    steps.push(OverlayStep::PositionNearCursor);
    match strategy {
        OverlayStrategy::NativeSpacesIntegration => {
            steps.push(OverlayStep::SetLevel(OVERLAY_WINDOW_LEVEL));
            steps.push(OverlayStep::SetCollectionBehavior(OVERLAY_COLLECTION_BEHAVIOR));
            steps.push(OverlayStep::OrderFront);
            steps.push(OverlayStep::SetAlwaysOnTop);
            steps.push(OverlayStep::AttachToActiveSpace);
        },
        OverlayStrategy::BasicAlwaysOnTop => {
            steps.push(OverlayStep::SetAlwaysOnTop);
            steps.push(OverlayStep::SetVisibleOnAllWorkspaces);
        },
        OverlayStrategy::NoOp => {},
    }
    steps.push(OverlayStep::Show);
    steps.push(OverlayStep::Focus);
    assert(steps@ =~= overlay_steps(strategy));
    steps
}

/// The overlay's collection behavior is the full-screen auxiliary, tiling
/// and move-to-active-space flags, without the join-all-spaces flag.
pub proof fn lemma_overlay_collection_behavior()
    ensures
        OVERLAY_COLLECTION_BEHAVIOR & CAN_JOIN_ALL_SPACES == 0,
        OVERLAY_COLLECTION_BEHAVIOR & MOVE_TO_ACTIVE_SPACE != 0,
        OVERLAY_COLLECTION_BEHAVIOR & FULL_SCREEN_AUXILIARY != 0,
{
    assert((2u64 | 256u64 | 2048u64) & 1u64 == 0) by (bit_vector);
    assert((2u64 | 256u64 | 2048u64) & 2u64 != 0) by (bit_vector);
    assert((2u64 | 256u64 | 2048u64) & 256u64 != 0) by (bit_vector);
}

/// A window and the space it is to be attached to, both as the window
/// server numbers them.
#[derive(Clone, Copy, Debug, PartialEq, Eq, Structural)]
pub struct SpaceAssignment {
    pub window_id: u32,
    pub space_id: i32,
}

/// The window-server identifier of a window from its window number: the
/// number's low 32 bits, where they are not zero.
pub fn get_window_id(window_number: isize) -> (r: Option<u32>)
    ensures
        r == (if window_number as u32 != 0 {
            Some(window_number as u32)
        } else {
            None::<u32>
        }),
{
    let id = window_number as u32;
    if id != 0 {
        Some(id)
    } else {
        None
    }
}

/// The attachment of `window_id` to the active space, which the window
/// server reported as `active_space`; a space number that is not positive
/// means no active space was found.
pub fn add_window_to_current_space(window_id: u32, active_space: i32) -> (r: Result<
    SpaceAssignment,
    String,
>)
    ensures
        active_space > 0 ==> r == Ok::<SpaceAssignment, String>(
            SpaceAssignment { window_id, space_id: active_space },
        ),
        active_space <= 0 ==> r is Err && r->Err_0@ == "Failed to get active space"@,
{
    if active_space <= 0 {
        return Err(String::from_str("Failed to get active space"));
    }
    Ok(SpaceAssignment { window_id, space_id: active_space })
}

} // verus!
