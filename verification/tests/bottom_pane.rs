use codex_lite::bottom_pane::BottomPane;
use codex_lite::bottom_pane::BottomPaneParams;
use codex_lite::bottom_pane::CancellationEvent;
use codex_lite::bottom_pane::PaneLayout;
use codex_lite::bottom_pane::ViewUpdate;
use codex_lite::textarea::Rect;

fn new_pane() -> BottomPane {
    BottomPane::new(BottomPaneParams {
        has_input_focus: true,
        enhanced_keys_supported: false,
    })
}

fn rows(y: u16, height: u16, width: u16) -> Option<Rect> {
    Some(Rect {
        x: 0,
        y,
        width,
        height,
    })
}

#[test]
fn ctrl_c_on_modal_consumes_and_shows_quit_hint() {
    let mut pane = new_pane();
    assert_eq!(pane.push_approval_request(false), ViewUpdate::ApprovalModal);
    // The dialog takes the request up and is done with it.
    assert_eq!(
        (CancellationEvent::Handled, ViewUpdate::Removed),
        pane.on_ctrl_c(CancellationEvent::Handled, true)
    );
    assert!(pane.ctrl_c_quit_hint_visible());
    assert_eq!(
        CancellationEvent::Ignored,
        pane.on_ctrl_c(CancellationEvent::Handled, true).0
    );
}

#[test]
fn live_ring_renders_above_composer() {
    let mut pane = new_pane();
    // Four rows were given with room for three: the ring asks for three.
    pane.set_live_ring_rows();
    let area = Rect::new(0, 0, 10, 5);
    let placed = pane.layout(area, 3, 0);
    assert_eq!(
        placed,
        PaneLayout {
            live_ring: rows(0, 3, 10),
            live_status: None,
            main: rows(3, 1, 10),
        }
    );
}

#[test]
fn status_indicator_visible_with_live_ring() {
    let mut pane = new_pane();
    // Simulate task running which replaces composer with the status indicator.
    assert_eq!(pane.set_task_running(true, false), ViewUpdate::Status);
    assert_eq!(pane.update_status_text(true), ViewUpdate::Unchanged);
    pane.set_live_ring_rows();

    // Height should include both ring rows, 1 spacer, and the 1-line status.
    let area = Rect::new(0, 0, 30, 4);
    let placed = pane.layout(area, 2, 0);
    assert_eq!(placed.live_ring, rows(0, 2, 30));
    assert_eq!(placed.live_status, None);
    // Row 2 is the spacer; the bottom row is the status line.
    assert_eq!(placed.main, rows(3, 1, 30));
    assert_eq!(pane.desired_height(0, 2, 1, 1), 2 + 1 + 1 + 2);
}

#[test]
fn overlay_not_shown_above_approval_modal() {
    let mut pane = new_pane();
    // Create an approval modal (active view).
    assert_eq!(pane.push_approval_request(false), ViewUpdate::ApprovalModal);
    // Attempt to update status; this should NOT create an overlay while modal is visible.
    assert_eq!(pane.update_status_text(false), ViewUpdate::Unchanged);
    assert!(!pane.live_status);
    assert!(!pane.status_view_active);

    let area = Rect::new(0, 0, 60, 6);
    let placed = pane.layout(area, 0, 1);
    assert_eq!(placed.live_status, None);
    assert_eq!(placed.main, rows(0, 4, 60));
}

#[test]
fn composer_not_shown_after_denied_if_task_running() {
    let mut pane = new_pane();
    // Start a running task so the status indicator replaces the composer.
    assert_eq!(pane.set_task_running(true, false), ViewUpdate::Status);
    assert_eq!(pane.update_status_text(true), ViewUpdate::Unchanged);

    // Push an approval modal (e.g., command approval) which should hide the status view.
    assert_eq!(pane.push_approval_request(false), ViewUpdate::ApprovalModal);
    assert!(!pane.status_view_active);

    // Simulate pressing 'n' (deny) on the modal: the dialog is done.
    assert!(pane.key_goes_to_view());
    assert_eq!(
        pane.handle_key_event(true),
        ViewUpdate::StatusWaitingForModel
    );

    // After denial, since the task is still running, the status indicator
    // should be restored as the active view; the composer should NOT be visible.
    assert!(
        pane.status_view_active,
        "status view should be active after denial"
    );
    assert!(pane.active_view, "active view should be present");
    assert_eq!(pane.cursor_pos(Some((3, 4))), None);
    assert!(!pane.handle_paste());
}

#[test]
fn status_indicator_visible_during_command_execution() {
    let mut pane = new_pane();
    // Begin a task: show initial status.
    assert_eq!(pane.set_task_running(true, false), ViewUpdate::Status);
    assert_eq!(pane.update_status_text(true), ViewUpdate::Unchanged);
    // As a long-running command begins, the status view takes the new text.
    assert_eq!(pane.update_status_text(true), ViewUpdate::Unchanged);
    assert!(pane.active_view && pane.status_view_active);

    let area = Rect::new(0, 0, 40, 3);
    assert_eq!(pane.layout(area, 0, 0).main, rows(0, 1, 40));
}

#[test]
fn bottom_padding_present_for_status_view() {
    let mut pane = new_pane();
    // Activate spinner (status view replaces composer) with no live ring.
    pane.set_task_running(true, false);
    pane.update_status_text(true);

    // Use height == desired_height; expect 1 status row at top and 2 bottom padding rows.
    let height = pane.desired_height(0, 0, 1, 3);
    assert!(
        height >= 3,
        "expected at least 3 rows with bottom padding; got {height}"
    );
    assert_eq!(height, 3);
    let area = Rect::new(0, 0, 30, height);
    let placed = pane.layout(area, 0, 0);
    assert_eq!(placed.main, rows(0, 1, 30));
}

#[test]
fn bottom_padding_shrinks_when_tiny() {
    let mut pane = new_pane();
    pane.set_task_running(true, false);
    pane.update_status_text(true);

    // Height=2 → pad shrinks to 1; bottom row is blank, top row has spinner.
    let area2 = Rect::new(0, 0, 20, 2);
    assert_eq!(pane.layout(area2, 0, 0).main, rows(0, 1, 20));

    // Height=1 → no padding; single row is the spinner.
    let area1 = Rect::new(0, 0, 20, 1);
    assert_eq!(pane.layout(area1, 0, 0).main, rows(0, 1, 20));

    // Height=0 → nothing is placed.
    let area0 = Rect::new(0, 0, 20, 0);
    assert_eq!(
        pane.layout(area0, 3, 3),
        PaneLayout {
            live_ring: None,
            live_status: None,
            main: None
        }
    );
}

#[test]
fn a_new_pane_shows_the_composer() {
    let pane = new_pane();
    assert!(!pane.active_view);
    assert!(pane.has_input_focus);
    assert!(!pane.is_task_running());
    assert!(!pane.ctrl_c_quit_hint_visible());
    assert!(!pane.live_status && !pane.live_ring && !pane.status_view_active);
    assert!(pane.handle_paste());
    assert!(!pane.key_goes_to_view());
    assert_eq!(pane.cursor_pos(Some((3, 4))), Some((3, 4)));
    // The composer's rows and the padding.
    assert_eq!(pane.desired_height(9, 9, 9, 4), 6);
}

#[test]
fn desired_height_adds_up_and_saturates() {
    let mut pane = new_pane();
    pane.set_live_ring_rows();
    assert_eq!(pane.desired_height(5, 3, 7, 4), 3 + 4 + 2);
    pane.set_task_running(true, false);
    // ring + spacer + view + padding
    assert_eq!(pane.desired_height(5, 3, 7, 4), 3 + 1 + 7 + 2);
    pane.clear_live_ring();
    assert_eq!(pane.desired_height(5, 3, 7, 4), 7 + 2);
    assert_eq!(pane.desired_height(5, 3, 65_535, 4), 65_535);
    assert_eq!(pane.desired_height(5, 3, 65_533, 4), 65_535);
    assert_eq!(pane.desired_height(5, 3, 65_532, 4), 65_534);
}

#[test]
fn end_of_task_drops_the_status_view_but_keeps_a_dialog() {
    let mut pane = new_pane();
    pane.set_task_running(true, false);
    // The status view says that it goes when the task is done.
    assert_eq!(pane.set_task_running(false, true), ViewUpdate::Removed);
    assert!(!pane.active_view && !pane.status_view_active && !pane.is_task_running());

    pane.set_task_running(true, false);
    pane.push_approval_request(false);
    // A dialog does not.
    assert_eq!(pane.set_task_running(false, false), ViewUpdate::Unchanged);
    assert!(pane.active_view && !pane.status_view_active);
    // A task that starts while a view is shown leaves it.
    assert_eq!(pane.set_task_running(true, false), ViewUpdate::Unchanged);
    assert!(pane.active_view && !pane.status_view_active && pane.is_task_running());

    let mut idle = new_pane();
    assert_eq!(idle.set_task_running(false, true), ViewUpdate::Unchanged);
    assert!(!idle.active_view);
}

#[test]
fn a_view_may_take_a_second_request() {
    let mut pane = new_pane();
    assert_eq!(pane.push_approval_request(true), ViewUpdate::ApprovalModal);
    assert_eq!(pane.push_approval_request(true), ViewUpdate::Unchanged);
    pane.set_task_running(false, false);
    assert_eq!(pane.push_approval_request(false), ViewUpdate::ApprovalModal);
    assert!(pane.active_view);
}

#[test]
fn cancel_request_outcomes() {
    let mut pane = new_pane();
    pane.push_approval_request(false);
    // Not taken up: the view stays, no hint.
    assert_eq!(
        pane.on_ctrl_c(CancellationEvent::Ignored, false),
        (CancellationEvent::Ignored, ViewUpdate::Unchanged)
    );
    assert!(pane.active_view && !pane.ctrl_c_quit_hint_visible());
    // Taken up, not done: the view stays, the hint shows.
    assert_eq!(
        pane.on_ctrl_c(CancellationEvent::Handled, false),
        (CancellationEvent::Handled, ViewUpdate::Unchanged)
    );
    assert!(pane.active_view && pane.ctrl_c_quit_hint_visible());
    assert!(pane.clear_ctrl_c_quit_hint());
    assert!(!pane.clear_ctrl_c_quit_hint());
    // Taken up and done while a task runs: the status view comes back.
    pane.is_task_running = true;
    assert_eq!(
        pane.on_ctrl_c(CancellationEvent::Handled, true),
        (CancellationEvent::Handled, ViewUpdate::StatusWaitingForModel)
    );
    assert!(pane.active_view && pane.status_view_active);
}

#[test]
fn status_text_without_a_view_makes_the_status_view() {
    let mut pane = new_pane();
    assert_eq!(pane.update_status_text(false), ViewUpdate::StatusWithText);
    assert!(pane.active_view && pane.status_view_active);
    let mut keys = new_pane();
    keys.push_approval_request(false);
    assert_eq!(keys.handle_key_event(false), ViewUpdate::Unchanged);
    assert_eq!(keys.handle_key_event(true), ViewUpdate::Removed);
    assert!(!keys.active_view);
    // Without a view there is nothing to follow up.
    assert_eq!(keys.handle_key_event(true), ViewUpdate::Unchanged);
    assert!(!keys.active_view);
}

#[test]
fn layout_places_the_status_line_between_ring_and_composer() {
    let mut pane = new_pane();
    pane.set_live_ring_rows();
    pane.live_status = true;
    let area = Rect::new(4, 10, 50, 12);
    let placed = pane.layout(area, 3, 2);
    let at = |y: u16, height: u16| {
        Some(Rect {
            x: 4,
            y,
            width: 50,
            height,
        })
    };
    assert_eq!(
        placed,
        PaneLayout {
            live_ring: at(10, 3),
            live_status: at(13, 2),
            main: at(15, 5),
        }
    );
    // A ring that asks for more than there is takes it all.
    let placed = pane.layout(area, 40, 2);
    assert_eq!(
        placed,
        PaneLayout {
            live_ring: at(10, 12),
            live_status: None,
            main: None,
        }
    );
}
