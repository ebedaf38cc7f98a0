//! The screenshot plan of the model viewer: a fixed list of views, each captured once, in order.
//!
//! The window loop calls [`CapturePlan::advance`] once per frame and does what the returned
//! action says (place the camera, take a screenshot, quit); the screenshot callback reports
//! back through [`CapturePlan::mark_capture_complete`]. Camera poses stay with the caller.

use vstd::prelude::*;

use crate::text::{decimal, lemma_decimal_nonempty, push_decimal};

verus! {

/// Frames rendered before the first view, so that materials and pipelines are warm.
pub const CAPTURE_WARM_UP_FRAMES: u16 = 24;

/// Frames rendered after placing the camera and before the screenshot.
pub const CAPTURE_SETTLE_FRAMES: u8 = 3;

/// Frames rendered after the last screenshot before quitting.
pub const CAPTURE_COMPLETE_FRAMES: u8 = 4;

/// RCS jets per quad, in the order of the stable jet indices.
pub const JETS_PER_QUAD: usize = 4;

/// Phase of the plan. The counters are the frames still to wait.
#[derive(Clone, Copy, Debug, PartialEq, Eq, Structural)]
pub enum CapturePhase {
    WarmUp(u16),
    PositionCamera,
    Settle(u8),
    AwaitScreenshot,
    Complete(u8),
}

/// What the window loop does in this frame.
#[derive(Clone, Copy, Debug, PartialEq, Eq, Structural)]
pub enum CaptureAction {
    Wait,
    /// Place the camera at view `view` and show that view's diagnostic plumes.
    PositionCamera { view: usize },
    /// Take the screenshot of view `view`.
    Screenshot { view: usize },
    /// Every view is saved: quit.
    Finish,
}

/// Progress through `view_count` views. `next_view` is the first view not yet saved; the
/// plan is complete exactly when every view is saved.
#[derive(Clone, Copy, Debug, PartialEq, Eq)]
pub struct CapturePlan {
    view_count: usize,
    next_view: usize,
    phase: CapturePhase,
}

/// The phase and action after one frame in `phase`, with `next_view` the view in progress.
pub open spec fn advance_spec(phase: CapturePhase, next_view: usize) -> (CapturePhase, CaptureAction) {
    match phase {
        CapturePhase::WarmUp(frames) => if frames > 0 {
            (CapturePhase::WarmUp((frames - 1) as u16), CaptureAction::Wait)
        } else {
            (CapturePhase::Settle(CAPTURE_SETTLE_FRAMES), CaptureAction::PositionCamera { view: next_view })
        },
        CapturePhase::PositionCamera => (
            CapturePhase::Settle(CAPTURE_SETTLE_FRAMES),
            CaptureAction::PositionCamera { view: next_view },
        ),
        CapturePhase::Settle(frames) => if frames > 0 {
            (CapturePhase::Settle((frames - 1) as u8), CaptureAction::Wait)
        } else {
            (CapturePhase::AwaitScreenshot, CaptureAction::Screenshot { view: next_view })
        },
        CapturePhase::AwaitScreenshot => (CapturePhase::AwaitScreenshot, CaptureAction::Wait),
        CapturePhase::Complete(frames) => if frames > 0 {
            (CapturePhase::Complete((frames - 1) as u8), CaptureAction::Wait)
        } else {
            (CapturePhase::Complete(0), CaptureAction::Finish)
        },
    }
}

/// Whether the camera stands at the view in progress: from its placement until the
/// screenshot of that view is saved.
pub open spec fn camera_placed(phase: CapturePhase) -> bool {
    phase is Settle || phase is AwaitScreenshot
}

/// The phase after `n` frames from `phase` and the actions of those frames, in order, with
/// `view` the view in progress throughout.
pub open spec fn advance_run(phase: CapturePhase, view: usize, n: nat) -> (CapturePhase, Seq<CaptureAction>)
    decreases n,
{
    if n == 0 {
        (phase, Seq::empty())
    } else {
        let (p, actions) = advance_run(phase, view, (n - 1) as nat);
        let (q, a) = advance_spec(p, view);
        (q, actions.push(a))
    }
}

impl CapturePlan {
    #[verifier::type_invariant]
    spec fn wf(self) -> bool {
        &&& 0 < self.view_count
        &&& self.next_view <= self.view_count
        &&& (self.phase is Complete) == (self.next_view == self.view_count)
    }

    pub closed spec fn spec_view_count(self) -> usize {
        self.view_count
    }

    pub closed spec fn spec_next_view(self) -> usize {
        self.next_view
    }

    pub closed spec fn spec_phase(self) -> CapturePhase {
        self.phase
    }

    /// A plan over `view_count` views that starts with the warm-up frames.
    pub fn new(view_count: usize) -> (plan: Self)
        requires
            view_count > 0,
        ensures
            plan.spec_view_count() == view_count,
            plan.spec_next_view() == 0,
            plan.spec_phase() == CapturePhase::WarmUp(CAPTURE_WARM_UP_FRAMES),
    {
        CapturePlan { view_count, next_view: 0, phase: CapturePhase::WarmUp(CAPTURE_WARM_UP_FRAMES) }
    }

    pub fn view_count(&self) -> (n: usize)
        ensures
            n == self.spec_view_count(),
    {
        self.view_count
    }

    /// The first view not yet saved; it equals the view count exactly when the plan is complete.
    pub fn next_view(&self) -> (n: usize)
        ensures
            n == self.spec_next_view(),
            n <= self.spec_view_count(),
            (self.spec_phase() is Complete) == (n == self.spec_view_count()),
    {
        proof {
            use_type_invariant(self);
        }
        self.next_view
    }

    pub fn phase(&self) -> (phase: CapturePhase)
        ensures
            phase == self.spec_phase(),
    {
        self.phase
    }

    /// One frame of the plan. Camera and screenshot actions always name the first view not
    /// yet saved, and the plan only finishes once every view is saved.
    pub fn advance(&mut self) -> (action: CaptureAction)
        ensures
            (final(self).spec_phase(), action) == advance_spec(old(self).spec_phase(), old(self).spec_next_view()),
            final(self).spec_next_view() == old(self).spec_next_view(),
            final(self).spec_view_count() == old(self).spec_view_count(),
            action matches CaptureAction::PositionCamera { view } ==> view < old(self).spec_view_count(),
            action matches CaptureAction::Screenshot { view } ==> view < old(self).spec_view_count(),
            action == CaptureAction::Finish ==> old(self).spec_next_view() == old(self).spec_view_count(),
            old(self).spec_phase() == CapturePhase::WarmUp(0) || old(self).spec_phase() == CapturePhase::PositionCamera
                ==> action == (CaptureAction::PositionCamera { view: old(self).spec_next_view() })
                && final(self).spec_phase() == CapturePhase::Settle(CAPTURE_SETTLE_FRAMES),
            action is Screenshot ==> old(self).spec_phase() == CapturePhase::Settle(0),
            camera_placed(final(self).spec_phase()) ==> camera_placed(old(self).spec_phase())
                || action == (CaptureAction::PositionCamera { view: old(self).spec_next_view() }),
    {
        proof {
            use_type_invariant(&*self);
        }
        let next_view = self.next_view;
        let (phase, action) = match self.phase {
            CapturePhase::WarmUp(frames) => if frames > 0 {
                (CapturePhase::WarmUp(frames - 1), CaptureAction::Wait)
            } else {
                (CapturePhase::Settle(CAPTURE_SETTLE_FRAMES), CaptureAction::PositionCamera { view: next_view })
            },
            CapturePhase::PositionCamera => (
                CapturePhase::Settle(CAPTURE_SETTLE_FRAMES),
                CaptureAction::PositionCamera { view: next_view },
            ),
            CapturePhase::Settle(frames) => if frames > 0 {
                (CapturePhase::Settle(frames - 1), CaptureAction::Wait)
            } else {
                (CapturePhase::AwaitScreenshot, CaptureAction::Screenshot { view: next_view })
            },
            CapturePhase::AwaitScreenshot => (CapturePhase::AwaitScreenshot, CaptureAction::Wait),
            CapturePhase::Complete(frames) => if frames > 0 {
                (CapturePhase::Complete(frames - 1), CaptureAction::Wait)
            } else {
                (CapturePhase::Complete(0), CaptureAction::Finish)
            },
        };
        self.phase = phase;
        action
    }

    /// Reports that the screenshot of view `view` was saved. Only the view in progress counts:
    /// the plan then moves on to the next view, or to the closing frames after the last one.
    /// A report for any other view changes nothing.
    pub fn mark_capture_complete(&mut self, view: usize)
        ensures
            final(self).spec_view_count() == old(self).spec_view_count(),
            if view == old(self).spec_next_view() && view < old(self).spec_view_count() {
                &&& final(self).spec_next_view() == view + 1
                &&& final(self).spec_phase() == if view + 1 == old(self).spec_view_count() {
                    CapturePhase::Complete(CAPTURE_COMPLETE_FRAMES)
                } else {
                    CapturePhase::PositionCamera
                }
            } else {
                *final(self) == *old(self)
            },
    {
        proof {
            use_type_invariant(&*self);
        }
        if view != self.next_view || view >= self.view_count {
            return;
        }
        let next_view = view + 1;
        let phase = if next_view == self.view_count {
            CapturePhase::Complete(CAPTURE_COMPLETE_FRAMES)
        } else {
            CapturePhase::PositionCamera
        };
        *self = CapturePlan { view_count: self.view_count, next_view, phase };
    }
}

/// Whether a view shows the whole lander or a close-up.
#[derive(Clone, Copy, Debug, PartialEq, Eq, Structural)]
pub enum CaptureKind {
    Full,
    CloseUp,
}

/// The fixed part of a view: its name, kind, the quad whose plumes it diagnoses, and whether
/// it shows every down-firing plume. The camera pose is real-valued and kept beside it.
#[derive(Clone, Copy, Debug, PartialEq, Eq)]
pub struct CaptureViewInfo {
    pub name: &'static str,
    pub kind: CaptureKind,
    pub diagnostic_quad: Option<usize>,
    pub show_all_down_diagnostics: bool,
}

/// Number of fixed views.
pub const CAPTURE_VIEW_COUNT: usize = 17;

/// Name, kind, diagnostic quad and down-diagnostic flag of view `i`: eight full views, four
/// close-ups of the mounting pads without plumes, four oblique close-ups of one quad's
/// deflected plumes each, and the descent engine bell.
pub open spec fn capture_view_spec(i: int) -> (Seq<char>, CaptureKind, Option<usize>, bool) {
    if i == 0 { ("full_front"@, CaptureKind::Full, None, false) }
    else if i == 1 { ("full_rear"@, CaptureKind::Full, None, false) }
    else if i == 2 { ("full_right"@, CaptureKind::Full, None, false) }
    else if i == 3 { ("full_left"@, CaptureKind::Full, None, false) }
    else if i == 4 { ("full_top"@, CaptureKind::Full, None, false) }
    else if i == 5 { ("full_bottom"@, CaptureKind::Full, None, true) }
    else if i == 6 { ("full_front_right_high"@, CaptureKind::Full, None, false) }
    else if i == 7 { ("full_rear_left_high"@, CaptureKind::Full, None, false) }
    else if i == 8 { ("close_mount_front_right"@, CaptureKind::CloseUp, None, false) }
    else if i == 9 { ("close_mount_front_left"@, CaptureKind::CloseUp, None, false) }
    else if i == 10 { ("close_mount_rear_right"@, CaptureKind::CloseUp, None, false) }
    else if i == 11 { ("close_mount_rear_left"@, CaptureKind::CloseUp, None, false) }
    else if i == 12 { ("close_plume_front_right"@, CaptureKind::CloseUp, Some(3usize), false) }
    else if i == 13 { ("close_plume_front_left"@, CaptureKind::CloseUp, Some(0usize), false) }
    else if i == 14 { ("close_plume_rear_right"@, CaptureKind::CloseUp, Some(2usize), false) }
    else if i == 15 { ("close_plume_rear_left"@, CaptureKind::CloseUp, Some(1usize), false) }
    else { ("close_dps_bell"@, CaptureKind::CloseUp, None, false) }
}

/// The fixed views of the screenshot run, in capture order.
pub fn capture_views() -> (views: [CaptureViewInfo; CAPTURE_VIEW_COUNT])
    ensures
        forall|i: int|
            0 <= i < CAPTURE_VIEW_COUNT ==> ((#[trigger] views@[i]).name@, views@[i].kind, views@[i].diagnostic_quad,
                views@[i].show_all_down_diagnostics) == capture_view_spec(i),
{
    let full = CaptureKind::Full;
    let close = CaptureKind::CloseUp;
    let views = [
        CaptureViewInfo { name: "full_front", kind: full, diagnostic_quad: None, show_all_down_diagnostics: false },
        CaptureViewInfo { name: "full_rear", kind: full, diagnostic_quad: None, show_all_down_diagnostics: false },
        CaptureViewInfo { name: "full_right", kind: full, diagnostic_quad: None, show_all_down_diagnostics: false },
        CaptureViewInfo { name: "full_left", kind: full, diagnostic_quad: None, show_all_down_diagnostics: false },
        CaptureViewInfo { name: "full_top", kind: full, diagnostic_quad: None, show_all_down_diagnostics: false },
        CaptureViewInfo { name: "full_bottom", kind: full, diagnostic_quad: None, show_all_down_diagnostics: true },
        CaptureViewInfo { name: "full_front_right_high", kind: full, diagnostic_quad: None, show_all_down_diagnostics: false },
        CaptureViewInfo { name: "full_rear_left_high", kind: full, diagnostic_quad: None, show_all_down_diagnostics: false },
        CaptureViewInfo { name: "close_mount_front_right", kind: close, diagnostic_quad: None, show_all_down_diagnostics: false },
        CaptureViewInfo { name: "close_mount_front_left", kind: close, diagnostic_quad: None, show_all_down_diagnostics: false },
        CaptureViewInfo { name: "close_mount_rear_right", kind: close, diagnostic_quad: None, show_all_down_diagnostics: false },
        CaptureViewInfo { name: "close_mount_rear_left", kind: close, diagnostic_quad: None, show_all_down_diagnostics: false },
        CaptureViewInfo { name: "close_plume_front_right", kind: close, diagnostic_quad: Some(3), show_all_down_diagnostics: false },
        CaptureViewInfo { name: "close_plume_front_left", kind: close, diagnostic_quad: Some(0), show_all_down_diagnostics: false },
        CaptureViewInfo { name: "close_plume_rear_right", kind: close, diagnostic_quad: Some(2), show_all_down_diagnostics: false },
        CaptureViewInfo { name: "close_plume_rear_left", kind: close, diagnostic_quad: Some(1), show_all_down_diagnostics: false },
        CaptureViewInfo { name: "close_dps_bell", kind: close, diagnostic_quad: None, show_all_down_diagnostics: false },
    ];
    views
}

/// Law: the frame after the warm-up places the camera at the view in progress; a screenshot
/// is only taken with the camera placed, and the camera is only placed by an action that
/// places it at the view in progress.
pub proof fn lemma_screenshot_needs_camera(phase: CapturePhase, view: usize)
    ensures
        advance_spec(CapturePhase::WarmUp(0), view).1 == (CaptureAction::PositionCamera { view }),
        advance_spec(phase, view).1 is Screenshot ==> camera_placed(phase),
        camera_placed(advance_spec(phase, view).0) ==> camera_placed(phase) || advance_spec(phase, view).1
            == (CaptureAction::PositionCamera { view }),
{
}

/// Law: in any run of frames that starts with the camera not placed, every screenshot of the
/// view in progress comes after an action that placed the camera at that same view.
pub proof fn lemma_every_screenshot_follows_its_camera(phase: CapturePhase, view: usize, n: nat)
    requires
        !camera_placed(phase),
    ensures
        advance_run(phase, view, n).1.len() == n,
        forall|i: int|
            0 <= i < n && (#[trigger] advance_run(phase, view, n).1[i]) is Screenshot ==> exists|j: int|
                0 <= j < i && #[trigger] advance_run(phase, view, n).1[j] == (CaptureAction::PositionCamera { view }),
        camera_placed(advance_run(phase, view, n).0) ==> exists|j: int|
            0 <= j < n && #[trigger] advance_run(phase, view, n).1[j] == (CaptureAction::PositionCamera { view }),
    decreases n,
{
    if n > 0 {
        lemma_every_screenshot_follows_its_camera(phase, view, (n - 1) as nat);
        let (p, before) = advance_run(phase, view, (n - 1) as nat);
        let (q, a) = advance_spec(p, view);
        let actions = advance_run(phase, view, n).1;
        assert(actions == before.push(a));
        lemma_screenshot_needs_camera(p, view);
        assert forall|i: int|
            0 <= i < n && (#[trigger] actions[i]) is Screenshot implies exists|j: int|
                0 <= j < i && #[trigger] actions[j] == (CaptureAction::PositionCamera { view }) by {
            if i < n - 1 {
                assert(actions[i] == before[i]);
                let j = choose|j: int| 0 <= j < i && #[trigger] before[j] == (CaptureAction::PositionCamera { view });
                assert(actions[j] == before[j]);
            } else {
                let j = choose|j: int| 0 <= j < n - 1 && #[trigger] before[j] == (CaptureAction::PositionCamera { view });
                assert(actions[j] == before[j]);
            }
        }
        if camera_placed(q) {
            if camera_placed(p) {
                let j = choose|j: int| 0 <= j < n - 1 && #[trigger] before[j] == (CaptureAction::PositionCamera { view });
                assert(actions[j] == before[j]);
            } else {
                assert(actions[n - 1] == a);
            }
        }
    }
}

/// Law: once the camera is placed for a view, the screenshot of that same view follows after
/// exactly the settle frames, and the plan then waits for it to be saved.
pub proof fn lemma_camera_then_screenshot(view: usize)
    ensures
        ({
            let (p1, a1) = advance_spec(CapturePhase::PositionCamera, view);
            let (p2, a2) = advance_spec(p1, view);
            let (p3, a3) = advance_spec(p2, view);
            let (p4, a4) = advance_spec(p3, view);
            let (p5, a5) = advance_spec(p4, view);
            &&& a1 == CaptureAction::PositionCamera { view }
            &&& a2 == CaptureAction::Wait
            &&& a3 == CaptureAction::Wait
            &&& a4 == CaptureAction::Wait
            &&& a5 == CaptureAction::Screenshot { view }
            &&& advance_spec(p5, view) == (CapturePhase::AwaitScreenshot, CaptureAction::Wait)
        }),
{
}

/// Law: after the last view is saved, the plan quits after exactly the closing frames, and
/// keeps asking to quit.
pub proof fn lemma_complete_then_finish(view: usize)
    ensures
        ({
            let (p1, a1) = advance_spec(CapturePhase::Complete(CAPTURE_COMPLETE_FRAMES), view);
            let (p2, a2) = advance_spec(p1, view);
            let (p3, a3) = advance_spec(p2, view);
            let (p4, a4) = advance_spec(p3, view);
            let (p5, a5) = advance_spec(p4, view);
            &&& a1 == CaptureAction::Wait
            &&& a2 == CaptureAction::Wait
            &&& a3 == CaptureAction::Wait
            &&& a4 == CaptureAction::Wait
            &&& a5 == CaptureAction::Finish
            &&& advance_spec(p5, view) == (p5, CaptureAction::Finish)
        }),
{
}

/// Whether a free RCS plume is shown in a view: the plumes of the view's diagnostic quad,
/// and, in the view that shows all down-firing diagnostics, the plumes that hit a deflector.
pub fn straight_plume_visible(
    thruster_index: usize,
    hits_deflector: bool,
    diagnostic_quad: Option<usize>,
    show_all_down_diagnostics: bool,
) -> (visible: bool)
    ensures
        visible == (diagnostic_quad == Some(thruster_index / JETS_PER_QUAD) || (show_all_down_diagnostics
            && hits_deflector)),
{
    let selected_quad = match diagnostic_quad {
        Some(quad) => thruster_index / JETS_PER_QUAD == quad,
        None => false,
    };
    selected_quad || (show_all_down_diagnostics && hits_deflector)
}

/// Whether a deflected RCS plume is shown in a view: those of the view's diagnostic quad, and
/// all of them in the view that shows all down-firing diagnostics.
pub fn deflected_plume_visible(
    thruster_index: usize,
    diagnostic_quad: Option<usize>,
    show_all_down_diagnostics: bool,
) -> (visible: bool)
    ensures
        visible == (diagnostic_quad == Some(thruster_index / JETS_PER_QUAD) || show_all_down_diagnostics),
{
    let selected_quad = match diagnostic_quad {
        Some(quad) => thruster_index / JETS_PER_QUAD == quad,
        None => false,
    };
    selected_quad || show_all_down_diagnostics
}

/// `digits` padded on the left with zeros to at least two characters.
pub open spec fn zero_pad_two(digits: Seq<char>) -> Seq<char> {
    if digits.len() < 2 { seq!['0'] + digits } else { digits }
}

/// File name of the screenshot of view `view_index`: its one-based number with at least two
/// digits, an underscore, the view's name and `.png`.
pub open spec fn capture_file_name_spec(view_index: nat, name: Seq<char>) -> Seq<char> {
    zero_pad_two(decimal(view_index + 1)) + seq!['_'] + name + seq!['.', 'p', 'n', 'g']
}

/// File name of the screenshot of view `view_index`, such as `01_full_front.png`.
pub fn capture_file_name(view_index: usize, name: &str) -> (file_name: String)
    requires
        view_index < usize::MAX,
    ensures
        file_name@ == capture_file_name_spec(view_index as nat, name@),
{
    let number = view_index + 1;
    let mut file_name = String::new();
    if number < 10 {
        proof {
            reveal_strlit("0");
        }
        file_name.append("0");
    }
    push_decimal(&mut file_name, number as u64);
    proof {
        reveal_strlit("_");
        reveal_strlit(".png");
        if number >= 10 {
            lemma_decimal_nonempty(number as nat / 10);
        }
    }
    file_name.append("_");
    file_name.append(name);
    file_name.append(".png");
    file_name
}

} // verus!
