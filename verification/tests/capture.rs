use apollo_core::capture::{
    capture_file_name, capture_views, CaptureKind, CAPTURE_VIEW_COUNT, deflected_plume_visible, straight_plume_visible, CaptureAction, CapturePhase, CapturePlan,
    CAPTURE_WARM_UP_FRAMES,
};

#[test]
fn capture_file_names_are_numbered_from_one_with_two_digits() {
    assert_eq!(capture_file_name(0, "full_front"), "01_full_front.png");
    assert_eq!(capture_file_name(8, "close_mount_front_right"), "09_close_mount_front_right.png");
    assert_eq!(capture_file_name(9, "x"), "10_x.png");
    assert_eq!(capture_file_name(16, "close_dps_bell"), "17_close_dps_bell.png");
    assert_eq!(capture_file_name(122, "y"), "123_y.png");
}

/// Drives a plan to the end, saving each screenshot at once; returns the views shot in order
/// and the number of frames.
fn run_plan(view_count: usize) -> (Vec<usize>, usize) {
    let mut plan = CapturePlan::new(view_count);
    let mut shots = Vec::new();
    let mut frames = 0;
    loop {
        frames += 1;
        match plan.advance() {
            CaptureAction::Finish => return (shots, frames),
            CaptureAction::Screenshot { view } => {
                shots.push(view);
                plan.mark_capture_complete(view);
            }
            _ => {}
        }
        assert!(frames < 10_000);
    }
}

#[test]
fn capture_plan_shoots_every_view_once_in_order_then_quits() {
    let (shots, frames) = run_plan(17);
    assert_eq!(shots, (0..17).collect::<Vec<_>>());
    // warm-up, then per view: camera, three settle frames, screenshot; then the closing frames.
    assert_eq!(frames, usize::from(CAPTURE_WARM_UP_FRAMES) + 17 * 5 + 5);
}

#[test]
fn capture_plan_ignores_a_report_for_another_view() {
    let mut plan = CapturePlan::new(3);
    let before = plan;
    plan.mark_capture_complete(1);
    assert_eq!(plan, before);
    plan.mark_capture_complete(0);
    assert_eq!(plan.next_view(), 1);
    assert_eq!(plan.phase(), CapturePhase::PositionCamera);
    plan.mark_capture_complete(1);
    plan.mark_capture_complete(2);
    assert_eq!(plan.next_view(), 3);
    assert_eq!(plan.phase(), CapturePhase::Complete(4));
    let done = plan;
    plan.mark_capture_complete(3);
    assert_eq!(plan, done);
}

#[test]
fn plume_visibility_follows_the_diagnostic_quad() {
    assert!(straight_plume_visible(13, false, Some(3), false));
    assert!(!straight_plume_visible(11, false, Some(3), false));
    assert!(straight_plume_visible(1, true, None, true));
    assert!(!straight_plume_visible(1, false, None, true));
    assert!(deflected_plume_visible(5, None, true));
    assert!(deflected_plume_visible(5, Some(1), false));
    assert!(!deflected_plume_visible(5, Some(2), false));
}

#[test]
fn capture_plan_separates_mount_and_plume_diagnostics() {
    let views = capture_views();
    assert_eq!(views.iter().filter(|view| view.kind == CaptureKind::Full).count(), 8);
    assert_eq!(views.iter().filter(|view| view.kind == CaptureKind::CloseUp).count(), 9);
    assert_eq!(views.iter().filter(|view| view.name.starts_with("close_mount_")).count(), 4);
    assert_eq!(views.iter().filter(|view| view.diagnostic_quad.is_some()).count(), 4);
    let unique_names: std::collections::HashSet<_> = views.iter().map(|view| view.name).collect();
    assert_eq!(unique_names.len(), views.len());
    assert_eq!(views.len(), CAPTURE_VIEW_COUNT);
}
