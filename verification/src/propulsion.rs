use vstd::prelude::*;

use crate::text::{decimal, push_decimal};
use crate::timing::SimulationTiming;

verus! {

/// Number of Apollo LM RCS thrusters.
pub const RCS_THRUSTER_COUNT: usize = 16;

/// Minimum RCS pulse given by NASA: 14 ms.
pub const RCS_MINIMUM_PULSE_NS: u64 = 14_000_000;

/// Historical Apollo Operations Handbook label of thruster `index`.
pub open spec fn rcs_label(index: int) -> Seq<char> {
    if index == 0 { "A1U"@ }
    else if index == 1 { "B1D"@ }
    else if index == 2 { "A1F"@ }
    else if index == 3 { "B1L"@ }
    else if index == 4 { "B2U"@ }
    else if index == 5 { "A2D"@ }
    else if index == 6 { "A2A"@ }
    else if index == 7 { "B2L"@ }
    else if index == 8 { "A3U"@ }
    else if index == 9 { "B3D"@ }
    else if index == 10 { "B3A"@ }
    else if index == 11 { "A3R"@ }
    else if index == 12 { "B4U"@ }
    else if index == 13 { "A4D"@ }
    else if index == 14 { "B4F"@ }
    else { "A4R"@ }
}

/// Stable index of one of the 16 RCS thrusters.
#[derive(Clone, Copy, Debug, PartialEq, Eq, Hash, PartialOrd, Ord)]
pub struct RcsThrusterId(u8);

impl RcsThrusterId {
    #[verifier::type_invariant]
    spec fn in_range(self) -> bool {
        (self.0 as usize) < RCS_THRUSTER_COUNT
    }

    /// The index this id stands for.
    pub closed spec fn id_index(self) -> int {
        self.0 as int
    }

    /// The id of `index`; `None` when `index` is 16 or more.
    pub fn new(index: u8) -> (id: Option<Self>)
        ensures
            id is Some <==> index < RCS_THRUSTER_COUNT,
            id matches Some(i) ==> i.id_index() == index,
    {
        if (index as usize) < RCS_THRUSTER_COUNT {
            Some(RcsThrusterId(index))
        } else {
            None
        }
    }

    /// The index, always below 16.
    pub fn index(self) -> (i: usize)
        ensures
            i == self.id_index(),
            i < RCS_THRUSTER_COUNT,
    {
        proof {
            use_type_invariant(self);
        }
        self.0 as usize
    }

    /// Two ids are the same exactly when they stand for the same index.
    pub proof fn lemma_ids_equal_by_index(a: Self, b: Self)
        ensures
            (a == b) <==> (a.id_index() == b.id_index()),
    {
    }

    /// The sixteen ids in their stable order: entry `k` is the id of index `k`.
    pub fn all() -> (ids: [Self; RCS_THRUSTER_COUNT])
        ensures
            forall|k: int| 0 <= k < RCS_THRUSTER_COUNT ==> #[trigger] ids@[k].id_index() == k,
    {
        [
            RcsThrusterId(0), RcsThrusterId(1), RcsThrusterId(2), RcsThrusterId(3),
            RcsThrusterId(4), RcsThrusterId(5), RcsThrusterId(6), RcsThrusterId(7),
            RcsThrusterId(8), RcsThrusterId(9), RcsThrusterId(10), RcsThrusterId(11),
            RcsThrusterId(12), RcsThrusterId(13), RcsThrusterId(14), RcsThrusterId(15),
        ]
    }

    /// The stable label of this thruster in the Apollo Operations Handbook.
    pub fn label(self) -> (label: &'static str)
        ensures
            label@ == rcs_label(self.id_index()),
    {
        let i = self.index();
        if i == 0 { "A1U" }
        else if i == 1 { "B1D" }
        else if i == 2 { "A1F" }
        else if i == 3 { "B1L" }
        else if i == 4 { "B2U" }
        else if i == 5 { "A2D" }
        else if i == 6 { "A2A" }
        else if i == 7 { "B2L" }
        else if i == 8 { "A3U" }
        else if i == 9 { "B3D" }
        else if i == 10 { "B3A" }
        else if i == 11 { "A3R" }
        else if i == 12 { "B4U" }
        else if i == 13 { "A4D" }
        else if i == 14 { "B4F" }
        else { "A4R" }
    }
}

/// Law: every id comes back from its own index: `new(id.index())` is `Some(id)`, for an id
/// with index below 16 (as every id that `new`, `all` or `index` hands out has).
pub proof fn lemma_id_round_trip(id: RcsThrusterId, made: Option<RcsThrusterId>)
    requires
        id.id_index() < RCS_THRUSTER_COUNT,
        made is Some <==> id.id_index() < RCS_THRUSTER_COUNT,
        made matches Some(i) ==> i.id_index() == id.id_index(),
    ensures
        made == Some(id),
{
    RcsThrusterId::lemma_ids_equal_by_index(made->Some_0, id);
}

/// RCS quad number.
#[derive(Clone, Copy, Debug, PartialEq, Eq, Structural)]
pub enum RcsQuad {
    Quad1,
    Quad2,
    Quad3,
    Quad4,
}

/// The two independent RCS propellant feed systems.
#[derive(Clone, Copy, Debug, PartialEq, Eq, Structural)]
pub enum RcsFeedSystem {
    A,
    B,
}

/// Zero-based number of a quad.
pub open spec fn quad_number(quad: RcsQuad) -> int {
    match quad {
        RcsQuad::Quad1 => 0,
        RcsQuad::Quad2 => 1,
        RcsQuad::Quad3 => 2,
        RcsQuad::Quad4 => 3,
    }
}

/// Zero-based number of a feed system.
pub open spec fn feed_number(feed: RcsFeedSystem) -> int {
    match feed {
        RcsFeedSystem::A => 0,
        RcsFeedSystem::B => 1,
    }
}

/// Zero-based number of a quad, as an array index.
pub fn quad_index(quad: RcsQuad) -> (i: usize)
    ensures
        i == quad_number(quad),
{
    match quad {
        RcsQuad::Quad1 => 0,
        RcsQuad::Quad2 => 1,
        RcsQuad::Quad3 => 2,
        RcsQuad::Quad4 => 3,
    }
}

fn feed_index(feed: RcsFeedSystem) -> (i: usize)
    ensures
        i == feed_number(feed),
{
    match feed {
        RcsFeedSystem::A => 0,
        RcsFeedSystem::B => 1,
    }
}

/// Historical jet suffix: the direction of the nozzle plume.
#[derive(Clone, Copy, Debug, PartialEq, Eq, Structural)]
pub enum JetKind {
    Up,
    Down,
    Forward,
    Aft,
    Right,
    Left,
}

/// A signed body axis, used for the force a thruster applies to the vehicle.
#[derive(Clone, Copy, Debug, PartialEq, Eq, Structural)]
pub enum SignedAxis {
    PosX,
    NegX,
    PosY,
    NegY,
    PosZ,
    NegZ,
}

/// The force on the vehicle opposes the plume named by the historical suffix.
pub open spec fn jet_force_axis(kind: JetKind) -> SignedAxis {
    match kind {
        JetKind::Up => SignedAxis::NegY,
        JetKind::Down => SignedAxis::PosY,
        JetKind::Forward => SignedAxis::NegZ,
        JetKind::Aft => SignedAxis::PosZ,
        JetKind::Right => SignedAxis::NegX,
        JetKind::Left => SignedAxis::PosX,
    }
}

/// Force direction on the vehicle of a jet of the given kind.
pub fn rcs_force_direction_body(kind: JetKind) -> (axis: SignedAxis)
    ensures
        axis == jet_force_axis(kind),
{
    match kind {
        JetKind::Up => SignedAxis::NegY,
        JetKind::Down => SignedAxis::PosY,
        JetKind::Forward => SignedAxis::NegZ,
        JetKind::Aft => SignedAxis::PosZ,
        JetKind::Right => SignedAxis::NegX,
        JetKind::Left => SignedAxis::PosX,
    }
}

/// NASA station `(x, y, z)` of a Quad IV jet of the given kind, in hundredths of an inch
/// (LM Data Book Vol. II section 4.8.7.1).
pub open spec fn nasa_station_hundredths_in(kind: JetKind) -> (int, int, int) {
    match kind {
        JetKind::Up => (25880, 6610, 6610),
        JetKind::Down => (24870, 6610, 6610),
        JetKind::Forward | JetKind::Aft => (25400, 6150, 6635),
        JetKind::Right | JetKind::Left => (25400, 6635, 6150),
    }
}

/// Sign that mirrors the NASA Y station into a quad.
pub open spec fn quad_y_sign(quad: RcsQuad) -> int {
    match quad {
        RcsQuad::Quad1 | RcsQuad::Quad2 => -1,
        RcsQuad::Quad3 | RcsQuad::Quad4 => 1,
    }
}

/// Sign that mirrors the NASA Z station into a quad.
pub open spec fn quad_z_sign(quad: RcsQuad) -> int {
    match quad {
        RcsQuad::Quad1 | RcsQuad::Quad4 => 1,
        RcsQuad::Quad2 | RcsQuad::Quad3 => -1,
    }
}

/// Micrometres in one hundredth of an inch.
pub const MICROMETRES_PER_HUNDREDTH_INCH: i64 = 254;

/// Body-frame height, in micrometres, of the NASA RCS reference station X = 254 in.
pub const MODEL_RCS_REFERENCE_Y_UM: i64 = 3_000_000;

/// NASA X = 254 in, in hundredths of an inch.
pub const NASA_RCS_REFERENCE_X_HUNDREDTHS_IN: i64 = 25_400;

/// Body-frame position of a jet, in micrometres: NASA Y/Z map to body X/Z mirrored into the
/// quad, and NASA X = 254 in maps to body Y = 3 m.
pub open spec fn rcs_station_um(kind: JetKind, quad: RcsQuad) -> (int, int, int) {
    let (x, y, z) = nasa_station_hundredths_in(kind);
    (
        if quad_y_sign(quad) < 0 { -(y * 254) } else { y * 254 },
        3_000_000 + (x - 25_400) * 254,
        if quad_z_sign(quad) < 0 { -(z * 254) } else { z * 254 },
    )
}

/// Body-frame position of a jet in micrometres; exact, since one hundredth of an inch is
/// 254 micrometres.
pub fn rcs_position_body_um(kind: JetKind, quad: RcsQuad) -> (p: [i64; 3])
    ensures
        p@[0] == rcs_station_um(kind, quad).0,
        p@[1] == rcs_station_um(kind, quad).1,
        p@[2] == rcs_station_um(kind, quad).2,
{
    let (x, y, z): (i64, i64, i64) = match kind {
        JetKind::Up => (25880, 6610, 6610),
        JetKind::Down => (24870, 6610, 6610),
        JetKind::Forward | JetKind::Aft => (25400, 6150, 6635),
        JetKind::Right | JetKind::Left => (25400, 6635, 6150),
    };
    let y_magnitude: i64 = y * MICROMETRES_PER_HUNDREDTH_INCH;
    let z_magnitude: i64 = z * MICROMETRES_PER_HUNDREDTH_INCH;
    let body_x: i64 = match quad {
        RcsQuad::Quad1 | RcsQuad::Quad2 => -y_magnitude,
        RcsQuad::Quad3 | RcsQuad::Quad4 => y_magnitude,
    };
    let body_z: i64 = match quad {
        RcsQuad::Quad1 | RcsQuad::Quad4 => z_magnitude,
        RcsQuad::Quad2 | RcsQuad::Quad3 => -z_magnitude,
    };
    [
        body_x,
        MODEL_RCS_REFERENCE_Y_UM + (x - NASA_RCS_REFERENCE_X_HUNDREDTHS_IN) * MICROMETRES_PER_HUNDREDTH_INCH,
        body_z,
    ]
}

/// Feed system named by the first letter of a historical label.
pub open spec fn label_feed(label: Seq<char>) -> RcsFeedSystem {
    if label[0] == 'A' { RcsFeedSystem::A } else { RcsFeedSystem::B }
}

/// Quad named by the digit of a historical label.
pub open spec fn label_quad(label: Seq<char>) -> RcsQuad {
    if label[1] == '1' { RcsQuad::Quad1 }
    else if label[1] == '2' { RcsQuad::Quad2 }
    else if label[1] == '3' { RcsQuad::Quad3 }
    else { RcsQuad::Quad4 }
}

/// Plume direction named by the last letter of a historical label.
pub open spec fn label_jet(label: Seq<char>) -> JetKind {
    if label[2] == 'U' { JetKind::Up }
    else if label[2] == 'D' { JetKind::Down }
    else if label[2] == 'F' { JetKind::Forward }
    else if label[2] == 'A' { JetKind::Aft }
    else if label[2] == 'R' { JetKind::Right }
    else { JetKind::Left }
}

/// The characters of the sixteen historical labels.
proof fn lemma_label_texts()
    ensures
        "A1U"@ == seq!['A', '1', 'U'],
        "B1D"@ == seq!['B', '1', 'D'],
        "A1F"@ == seq!['A', '1', 'F'],
        "B1L"@ == seq!['B', '1', 'L'],
        "B2U"@ == seq!['B', '2', 'U'],
        "A2D"@ == seq!['A', '2', 'D'],
        "A2A"@ == seq!['A', '2', 'A'],
        "B2L"@ == seq!['B', '2', 'L'],
        "A3U"@ == seq!['A', '3', 'U'],
        "B3D"@ == seq!['B', '3', 'D'],
        "B3A"@ == seq!['B', '3', 'A'],
        "A3R"@ == seq!['A', '3', 'R'],
        "B4U"@ == seq!['B', '4', 'U'],
        "A4D"@ == seq!['A', '4', 'D'],
        "B4F"@ == seq!['B', '4', 'F'],
        "A4R"@ == seq!['A', '4', 'R'],
{
    reveal_strlit("A1U");
    reveal_strlit("B1D");
    reveal_strlit("A1F");
    reveal_strlit("B1L");
    reveal_strlit("B2U");
    reveal_strlit("A2D");
    reveal_strlit("A2A");
    reveal_strlit("B2L");
    reveal_strlit("A3U");
    reveal_strlit("B3D");
    reveal_strlit("B3A");
    reveal_strlit("A3R");
    reveal_strlit("B4U");
    reveal_strlit("A4D");
    reveal_strlit("B4F");
    reveal_strlit("A4R");
}

/// One Apollo 11 RCS thruster of the published layout.
#[derive(Clone, Copy, Debug)]
pub struct RcsJetLayout {
    pub id: RcsThrusterId,
    pub label: &'static str,
    pub quad: RcsQuad,
    pub feed_system: RcsFeedSystem,
    pub jet: JetKind,
    /// Point of application in the body frame, micrometres.
    pub position_body_um: [i64; 3],
    /// Force on the vehicle; opposite to the plume of `jet`.
    pub force_direction_body: SignedAxis,
}

/// What the label of thruster `index` says of its layout entry.
pub open spec fn layout_entry_matches(entry: RcsJetLayout, index: int) -> bool {
    let label = rcs_label(index);
    &&& entry.id.id_index() == index
    &&& entry.label@ == label
    &&& entry.quad == label_quad(label)
    &&& entry.feed_system == label_feed(label)
    &&& entry.jet == label_jet(label)
    &&& entry.force_direction_body == jet_force_axis(entry.jet)
    &&& entry.position_body_um@[0] == rcs_station_um(entry.jet, entry.quad).0
    &&& entry.position_body_um@[1] == rcs_station_um(entry.jet, entry.quad).1
    &&& entry.position_body_um@[2] == rcs_station_um(entry.jet, entry.quad).2
}

fn push_quad(
    output: &mut Vec<RcsJetLayout>,
    quad: RcsQuad,
    jets: [(&'static str, RcsFeedSystem, JetKind); 4],
)
    requires
        old(output)@.len() + 4 <= RCS_THRUSTER_COUNT,
    ensures
        final(output)@.len() == old(output)@.len() + 4,
        forall|i: int| 0 <= i < old(output)@.len() ==> final(output)@[i] == old(output)@[i],
        forall|k: int|
            #![trigger final(output)@[old(output)@.len() + k]]
            0 <= k < 4 ==> {
                let e = final(output)@[old(output)@.len() + k];
                &&& e.id.id_index() == old(output)@.len() + k
                &&& e.label@ == jets@[k].0@
                &&& e.quad == quad
                &&& e.feed_system == jets@[k].1
                &&& e.jet == jets@[k].2
                &&& e.force_direction_body == jet_force_axis(e.jet)
                &&& e.position_body_um@[0] == rcs_station_um(e.jet, quad).0
                &&& e.position_body_um@[1] == rcs_station_um(e.jet, quad).1
                &&& e.position_body_um@[2] == rcs_station_um(e.jet, quad).2
            },
{
    let ghost start = output@.len();
    let mut k: usize = 0;
    while k < 4
        invariant
            k <= 4,
            start + 4 <= RCS_THRUSTER_COUNT,
            output@.len() == start + k,
            forall|i: int| 0 <= i < start ==> output@[i] == old(output)@[i],
            start == old(output)@.len(),
            forall|j: int|
                #![trigger output@[start + j]]
                0 <= j < k ==> {
                    let e = output@[start + j];
                    &&& e.id.id_index() == start + j
                    &&& e.label@ == jets@[j].0@
                    &&& e.quad == quad
                    &&& e.feed_system == jets@[j].1
                    &&& e.jet == jets@[j].2
                    &&& e.force_direction_body == jet_force_axis(e.jet)
                    &&& e.position_body_um@[0] == rcs_station_um(e.jet, quad).0
                    &&& e.position_body_um@[1] == rcs_station_um(e.jet, quad).1
                    &&& e.position_body_um@[2] == rcs_station_um(e.jet, quad).2
                },
        decreases 4 - k,
    {
        let (label, feed_system, jet) = jets[k];
        let id = RcsThrusterId(output.len() as u8);
        output.push(RcsJetLayout {
            id,
            label,
            quad,
            feed_system,
            jet,
            position_body_um: rcs_position_body_um(jet, quad),
            force_direction_body: rcs_force_direction_body(jet),
        });
        k = k + 1;
    }
}

/// The Apollo 11 LM-5 RCS layout: four quads of four jets, ids 0..15 in historical order.
pub fn apollo11_rcs_layout() -> (layout: Vec<RcsJetLayout>)
    ensures
        layout@.len() == RCS_THRUSTER_COUNT,
        forall|i: int| 0 <= i < RCS_THRUSTER_COUNT ==> #[trigger] layout_entry_matches(layout@[i], i),
{
    let mut layout: Vec<RcsJetLayout> = Vec::new();
    push_quad(
        &mut layout,
        RcsQuad::Quad1,
        [
            ("A1U", RcsFeedSystem::A, JetKind::Up),
            ("B1D", RcsFeedSystem::B, JetKind::Down),
            ("A1F", RcsFeedSystem::A, JetKind::Forward),
            ("B1L", RcsFeedSystem::B, JetKind::Left),
        ],
    );
    push_quad(
        &mut layout,
        RcsQuad::Quad2,
        [
            ("B2U", RcsFeedSystem::B, JetKind::Up),
            ("A2D", RcsFeedSystem::A, JetKind::Down),
            ("A2A", RcsFeedSystem::A, JetKind::Aft),
            ("B2L", RcsFeedSystem::B, JetKind::Left),
        ],
    );
    push_quad(
        &mut layout,
        RcsQuad::Quad3,
        [
            ("A3U", RcsFeedSystem::A, JetKind::Up),
            ("B3D", RcsFeedSystem::B, JetKind::Down),
            ("B3A", RcsFeedSystem::B, JetKind::Aft),
            ("A3R", RcsFeedSystem::A, JetKind::Right),
        ],
    );
    push_quad(
        &mut layout,
        RcsQuad::Quad4,
        [
            ("B4U", RcsFeedSystem::B, JetKind::Up),
            ("A4D", RcsFeedSystem::A, JetKind::Down),
            ("B4F", RcsFeedSystem::B, JetKind::Forward),
            ("A4R", RcsFeedSystem::A, JetKind::Right),
        ],
    );
    proof {
        lemma_label_texts();
        assert forall|i: int| 0 <= i < RCS_THRUSTER_COUNT implies #[trigger] layout_entry_matches(layout@[i], i) by {
            let k = i % 4;
            assert(layout@[(i - k) + k] == layout@[i]);
        }
    }
    layout
}

/// A propulsion specification or command was rejected.
#[derive(Clone, Debug, PartialEq, Eq)]
pub struct PropulsionValidationError {
    message: String,
}

impl View for PropulsionValidationError {
    type V = Seq<char>;

    closed spec fn view(&self) -> Seq<char> {
        self.message@
    }
}

impl PropulsionValidationError {
    /// The human-readable reason.
    pub fn message(&self) -> (message: &str)
        ensures
            message@ == self@,
    {
        self.message.as_str()
    }
}

/// A validation error carrying `message`.
pub fn invalid(message: String) -> (error: PropulsionValidationError)
    ensures
        error@ == message@,
{
    PropulsionValidationError { message }
}

/// Message for a thruster stored at `index` under a different id.
pub open spec fn msg_mismatched_id(index: nat, id: nat) -> Seq<char> {
    "RCS index "@ + decimal(index) + " has mismatched id "@ + decimal(id)
}

/// Message for a thruster with an empty label.
pub open spec fn msg_empty_label(index: nat) -> Seq<char> {
    "RCS index "@ + decimal(index) + " has an empty label"@
}

/// Message for a thruster whose position or force direction is unusable.
pub open spec fn msg_invalid_geometry(label: Seq<char>) -> Seq<char> {
    "RCS '"@ + label + "' has invalid position or direction"@
}

/// Message for a thruster whose thrust or minimum pulse is unusable.
pub open spec fn msg_invalid_thrust(label: Seq<char>) -> Seq<char> {
    "RCS '"@ + label + "' has invalid thrust or minimum pulse"@
}

/// Message for a thruster set that is not four quads of two A and two B jets.
pub open spec fn msg_unbalanced() -> Seq<char> {
    "RCS must be four quads with two A and two B jets each"@
}

/// Message for an invalid descent engine specification.
pub open spec fn msg_dps_invalid() -> Seq<char> {
    "DPS specification is invalid"@
}

/// Message for a control step that does not fit 64 bits of nanoseconds.
pub open spec fn msg_control_step_too_long() -> Seq<char> {
    "control step does not fit an unsigned 64-bit nanosecond value"@
}

/// Message for a control step shorter than the longest minimum pulse.
pub open spec fn msg_step_shorter_than_pulse(control_step_ns: nat, minimum_pulse_ns: nat) -> Seq<char> {
    "control step "@ + decimal(control_step_ns) + " ns is shorter than RCS minimum pulse "@
        + decimal(minimum_pulse_ns) + " ns"@
}

/// Message for a gate request longer than the control step.
pub open spec fn msg_overlong_request(label: Seq<char>, requested_ns: nat, control_step_ns: nat) -> Seq<char> {
    "RCS '"@ + label + "' requests "@ + decimal(requested_ns) + " ns, longer than control step "@
        + decimal(control_step_ns) + " ns"@
}

/// One RCS thruster as the pulse and validation logic sees it.
#[derive(Clone, Copy, Debug)]
pub struct RcsThrusterSpec {
    pub id: RcsThrusterId,
    /// Historical label; the last letter names the plume direction.
    pub label: &'static str,
    pub quad: RcsQuad,
    pub feed_system: RcsFeedSystem,
    /// Whether the point of application is finite and the force direction is a finite unit vector.
    pub geometry_valid: bool,
    /// Whether the steady thrust is finite and positive.
    pub thrust_valid: bool,
    pub minimum_pulse_ns: u64,
}

/// The full Apollo 11 LM propulsion specification, as the validation and pulse logic sees it.
#[derive(Clone, Copy, Debug)]
pub struct ApolloPropulsionSpec {
    pub rcs_thrusters: [RcsThrusterSpec; RCS_THRUSTER_COUNT],
    /// Whether the descent engine passes its own check: finite geometry and limits, a unit
    /// nominal axis, `0 < variable min < variable max < full thrust`, and positive gimbal
    /// limit and rate.
    pub dps_valid: bool,
}

/// The first defect of thruster `t` stored at `index`, if any.
pub open spec fn thruster_problem(t: RcsThrusterSpec, index: int) -> Option<Seq<char>> {
    if t.id.id_index() != index {
        Some(msg_mismatched_id(index as nat, t.id.id_index() as nat))
    } else if t.label@.len() == 0 {
        Some(msg_empty_label(index as nat))
    } else if !t.geometry_valid {
        Some(msg_invalid_geometry(t.label@))
    } else if !t.thrust_valid || t.minimum_pulse_ns == 0 {
        Some(msg_invalid_thrust(t.label@))
    } else {
        None
    }
}

/// The defect of the first defective thruster at or after `from`.
pub open spec fn first_thruster_problem(ts: Seq<RcsThrusterSpec>, from: int) -> Option<Seq<char>>
    decreases ts.len() - from,
{
    if from < 0 || from >= ts.len() {
        None
    } else if thruster_problem(ts[from], from) is Some {
        thruster_problem(ts[from], from)
    } else {
        first_thruster_problem(ts, from + 1)
    }
}

/// Slot `quad * 2 + feed` of a thruster, in `0..8`.
pub open spec fn quad_feed_slot(t: RcsThrusterSpec) -> int {
    quad_number(t.quad) * 2 + feed_number(t.feed_system)
}

/// Number of the first `n` thrusters that sit in `slot`.
pub open spec fn slot_count(ts: Seq<RcsThrusterSpec>, n: int, slot: int) -> nat
    decreases n,
{
    if n <= 0 {
        0
    } else {
        slot_count(ts, n - 1, slot) + if quad_feed_slot(ts[n - 1]) == slot { 1nat } else { 0nat }
    }
}

/// Number of thrusters in `ts` that sit in quad `quad` on feed system `feed`.
pub open spec fn quad_feed_count(ts: Seq<RcsThrusterSpec>, quad: RcsQuad, feed: RcsFeedSystem) -> nat {
    ts.filter(|t: RcsThrusterSpec| t.quad == quad && t.feed_system == feed).len()
}

/// Every quad holds exactly two jets of feed system A and two of feed system B.
pub open spec fn two_per_quad_and_feed(ts: Seq<RcsThrusterSpec>) -> bool {
    forall|quad: RcsQuad, feed: RcsFeedSystem| #[trigger] quad_feed_count(ts, quad, feed) == 2
}

/// Four quads, each with exactly two A and two B jets.
pub open spec fn rcs_balanced(ts: Seq<RcsThrusterSpec>) -> bool {
    forall|slot: int| 0 <= slot < 8 ==> #[trigger] slot_count(ts, ts.len() as int, slot) == 2
}

/// The first defect of a propulsion specification, in the order the checks run.
pub open spec fn propulsion_spec_problem(spec: ApolloPropulsionSpec) -> Option<Seq<char>> {
    let ts = spec.rcs_thrusters@;
    if first_thruster_problem(ts, 0) is Some {
        first_thruster_problem(ts, 0)
    } else if !rcs_balanced(ts) {
        Some(msg_unbalanced())
    } else if !spec.dps_valid {
        Some(msg_dps_invalid())
    } else {
        None
    }
}

/// Largest minimum pulse among the first `n` thrusters (0 for none).
pub open spec fn max_minimum_pulse(ts: Seq<RcsThrusterSpec>, n: int) -> nat
    decreases n,
{
    if n <= 0 {
        0
    } else {
        let rest = max_minimum_pulse(ts, n - 1);
        if ts[n - 1].minimum_pulse_ns > rest { ts[n - 1].minimum_pulse_ns as nat } else { rest }
    }
}

/// The first defect of a specification used with `timing`.
pub open spec fn timing_problem(spec: ApolloPropulsionSpec, timing: SimulationTiming) -> Option<Seq<char>> {
    let ts = spec.rcs_thrusters@;
    let control = timing.control_period_ns();
    if propulsion_spec_problem(spec) is Some {
        propulsion_spec_problem(spec)
    } else if control > u64::MAX {
        Some(msg_control_step_too_long())
    } else if control < max_minimum_pulse(ts, ts.len() as int) {
        Some(msg_step_shorter_than_pulse(control as nat, max_minimum_pulse(ts, ts.len() as int)))
    } else {
        None
    }
}

/// The running slot count is the number of thrusters of that quad and feed among the first `n`.
proof fn lemma_slot_count_is_quad_feed_count(ts: Seq<RcsThrusterSpec>, n: int, quad: RcsQuad, feed: RcsFeedSystem)
    requires
        0 <= n <= ts.len(),
    ensures
        slot_count(ts, n, quad_number(quad) * 2 + feed_number(feed)) == quad_feed_count(ts.subrange(0, n), quad, feed),
    decreases n,
{
    reveal(Seq::filter);
    let pred = |t: RcsThrusterSpec| t.quad == quad && t.feed_system == feed;
    let prefix = ts.subrange(0, n);
    if n > 0 {
        lemma_slot_count_is_quad_feed_count(ts, n - 1, quad, feed);
        assert(prefix.drop_last() =~= ts.subrange(0, n - 1));
        assert(prefix.last() == ts[n - 1]);
        let t = ts[n - 1];
        assert((quad_feed_slot(t) == quad_number(quad) * 2 + feed_number(feed)) == pred(t)) by {
            if quad_feed_slot(t) == quad_number(quad) * 2 + feed_number(feed) {
                assert(t.quad == quad && t.feed_system == feed);
            }
        }
        assert(prefix.filter(pred) == if pred(prefix.last()) {
            prefix.drop_last().filter(pred).push(prefix.last())
        } else {
            prefix.drop_last().filter(pred)
        });
    } else {
        assert(prefix.filter(pred) =~= Seq::<RcsThrusterSpec>::empty());
    }
}

/// Law: the quad and feed split that `validate` demands is exactly two jets of each feed
/// system in each of the four quads, counted over the whole thruster list.
pub proof fn lemma_balanced_is_two_per_quad_and_feed(ts: Seq<RcsThrusterSpec>)
    ensures
        rcs_balanced(ts) <==> two_per_quad_and_feed(ts),
{
    assert(ts.subrange(0, ts.len() as int) =~= ts);
    assert forall|quad: RcsQuad, feed: RcsFeedSystem| #![trigger quad_feed_count(ts, quad, feed)]
        slot_count(ts, ts.len() as int, quad_number(quad) * 2 + feed_number(feed)) == quad_feed_count(ts, quad, feed) by {
        lemma_slot_count_is_quad_feed_count(ts, ts.len() as int, quad, feed);
    }
    if two_per_quad_and_feed(ts) {
        assert forall|slot: int| 0 <= slot < 8 implies #[trigger] slot_count(ts, ts.len() as int, slot) == 2 by {
            let quad = if slot / 2 == 0 { RcsQuad::Quad1 } else if slot / 2 == 1 { RcsQuad::Quad2 } else if slot / 2 == 2 { RcsQuad::Quad3 } else { RcsQuad::Quad4 };
            let feed = if slot % 2 == 0 { RcsFeedSystem::A } else { RcsFeedSystem::B };
            assert(quad_number(quad) * 2 + feed_number(feed) == slot);
            assert(quad_feed_count(ts, quad, feed) == 2);
        }
    }
    if rcs_balanced(ts) {
        assert forall|quad: RcsQuad, feed: RcsFeedSystem| #[trigger] quad_feed_count(ts, quad, feed) == 2 by {
            assert(slot_count(ts, ts.len() as int, quad_number(quad) * 2 + feed_number(feed)) == 2);
        }
    }
}

proof fn lemma_first_problem_skips(ts: Seq<RcsThrusterSpec>, from: int, to: int)
    requires
        0 <= from <= to,
        forall|j: int| from <= j < to && j < ts.len() ==> #[trigger] thruster_problem(ts[j], j) is None,
    ensures
        first_thruster_problem(ts, from) == first_thruster_problem(ts, to),
    decreases to - from,
{
    if from < to && from < ts.len() {
        lemma_first_problem_skips(ts, from + 1, to);
    }
}

fn mismatched_id_error(index: usize, id: usize) -> (e: PropulsionValidationError)
    ensures
        e@ == msg_mismatched_id(index as nat, id as nat),
{
    let mut m = String::from_str("RCS index ");
    push_decimal(&mut m, index as u64);
    m.append(" has mismatched id ");
    push_decimal(&mut m, id as u64);
    invalid(m)
}

fn empty_label_error(index: usize) -> (e: PropulsionValidationError)
    ensures
        e@ == msg_empty_label(index as nat),
{
    let mut m = String::from_str("RCS index ");
    push_decimal(&mut m, index as u64);
    m.append(" has an empty label");
    invalid(m)
}

fn labelled_error(label: &str, suffix: &str) -> (e: PropulsionValidationError)
    ensures
        e@ == "RCS '"@ + label@ + suffix@,
{
    let mut m = String::from_str("RCS '");
    m.append(label);
    m.append(suffix);
    invalid(m)
}

impl ApolloPropulsionSpec {
    /// Checks ids, labels, per-thruster validity, the quad and feed split, then the descent
    /// engine, and reports the first defect found.
    pub fn validate(&self) -> (r: Result<(), PropulsionValidationError>)
        ensures
            r is Ok <==> propulsion_spec_problem(*self) is None,
            r matches Err(e) ==> propulsion_spec_problem(*self) == Some(e@),
            r is Ok ==> two_per_quad_and_feed(self.rcs_thrusters@) && self.dps_valid,
    {
        let ghost ts = self.rcs_thrusters@;
        proof {
            lemma_balanced_is_two_per_quad_and_feed(ts);
        }
        let mut counts: [usize; 8] = [0; 8];
        let mut i: usize = 0;
        while i < RCS_THRUSTER_COUNT
            invariant
                i <= RCS_THRUSTER_COUNT,
                ts == self.rcs_thrusters@,
                ts.len() == RCS_THRUSTER_COUNT,
                forall|j: int| 0 <= j < i ==> #[trigger] thruster_problem(ts[j], j) is None,
                forall|k: int| 0 <= k < 8 ==> #[trigger] counts@[k] == slot_count(ts, i as int, k),
                forall|k: int| 0 <= k < 8 ==> counts@[k] <= i,
            decreases RCS_THRUSTER_COUNT - i,
        {
            let thruster = self.rcs_thrusters[i];
            let id = thruster.id.index();
            if id != i {
                proof { lemma_first_problem_skips(ts, 0, i as int); }
                return Err(mismatched_id_error(i, id));
            }
            if thruster.label.is_empty() {
                proof { lemma_first_problem_skips(ts, 0, i as int); }
                return Err(empty_label_error(i));
            }
            if !thruster.geometry_valid {
                proof { lemma_first_problem_skips(ts, 0, i as int); }
                return Err(labelled_error(thruster.label, "' has invalid position or direction"));
            }
            if !thruster.thrust_valid || thruster.minimum_pulse_ns == 0 {
                proof { lemma_first_problem_skips(ts, 0, i as int); }
                return Err(labelled_error(thruster.label, "' has invalid thrust or minimum pulse"));
            }
            let slot = quad_index(thruster.quad) * 2 + feed_index(thruster.feed_system);
            counts[slot] = counts[slot] + 1;
            i = i + 1;
        }
        proof {
            lemma_first_problem_skips(ts, 0, RCS_THRUSTER_COUNT as int);
        }
        if counts[0] != 2 || counts[1] != 2 || counts[2] != 2 || counts[3] != 2 || counts[4] != 2
            || counts[5] != 2 || counts[6] != 2 || counts[7] != 2
        {
            return Err(invalid(String::from_str("RCS must be four quads with two A and two B jets each")));
        }
        assert(rcs_balanced(ts)) by {
            assert forall|slot: int| 0 <= slot < 8 implies #[trigger] slot_count(ts, ts.len() as int, slot) == 2 by {
                assert(counts@[slot] == slot_count(ts, 16, slot));
            }
        }
        if !self.dps_valid {
            return Err(invalid(String::from_str("DPS specification is invalid")));
        }
        Ok(())
    }
}

/// The control step of `timing` as 64-bit nanoseconds.
pub fn control_step_u64(timing: SimulationTiming) -> (r: Result<u64, PropulsionValidationError>)
    ensures
        r is Ok <==> timing.control_period_ns() <= u64::MAX,
        r matches Ok(ns) ==> ns == timing.control_period_ns(),
        r matches Err(e) ==> e@ == msg_control_step_too_long(),
{
    let ns = timing.control_step_ns();
    if ns > u64::MAX as u128 {
        Err(invalid(String::from_str("control step does not fit an unsigned 64-bit nanosecond value")))
    } else {
        Ok(ns as u64)
    }
}

fn step_shorter_than_pulse_error(control_step_ns: u64, minimum_pulse_ns: u64) -> (e: PropulsionValidationError)
    ensures
        e@ == msg_step_shorter_than_pulse(control_step_ns as nat, minimum_pulse_ns as nat),
{
    let mut m = String::from_str("control step ");
    push_decimal(&mut m, control_step_ns);
    m.append(" ns is shorter than RCS minimum pulse ");
    push_decimal(&mut m, minimum_pulse_ns);
    m.append(" ns");
    invalid(m)
}

impl ApolloPropulsionSpec {
    /// Validates the specification, then checks that one control step of `timing` fits in
    /// 64 bits and is no shorter than the longest RCS minimum pulse.
    pub fn validate_for_timing(&self, timing: SimulationTiming) -> (r: Result<(), PropulsionValidationError>)
        ensures
            r is Ok <==> timing_problem(*self, timing) is None,
            r matches Err(e) ==> timing_problem(*self, timing) == Some(e@),
            r is Ok ==> two_per_quad_and_feed(self.rcs_thrusters@) && self.dps_valid,
    {
        self.validate()?;
        let control_step_ns = control_step_u64(timing)?;
        let ghost ts = self.rcs_thrusters@;
        let mut minimum_pulse_ns: u64 = 0;
        let mut i: usize = 0;
        while i < RCS_THRUSTER_COUNT
            invariant
                i <= RCS_THRUSTER_COUNT,
                ts == self.rcs_thrusters@,
                minimum_pulse_ns == max_minimum_pulse(ts, i as int),
            decreases RCS_THRUSTER_COUNT - i,
        {
            if self.rcs_thrusters[i].minimum_pulse_ns > minimum_pulse_ns {
                minimum_pulse_ns = self.rcs_thrusters[i].minimum_pulse_ns;
            }
            i = i + 1;
        }
        if control_step_ns < minimum_pulse_ns {
            return Err(step_shorter_than_pulse_error(control_step_ns, minimum_pulse_ns));
        }
        Ok(())
    }
}

/// Gate time actually applied to a request: zero stays zero, a gate already open at the
/// start of the period continues as requested, and a new firing is raised to the minimum pulse.
pub open spec fn applied_on_time(requested_ns: u64, open_at_start: bool, minimum_pulse_ns: u64) -> u64 {
    if requested_ns == 0 {
        0
    } else if open_at_start {
        requested_ns
    } else if requested_ns >= minimum_pulse_ns {
        requested_ns
    } else {
        minimum_pulse_ns
    }
}

/// Law: the minimum-pulse rule. A zero request stays zero whatever the valve did before; a
/// request that continues a valve already open at the period start, or that reaches the
/// minimum pulse, is applied exactly; a new short firing is raised to the minimum pulse.
pub proof fn lemma_minimum_pulse_rule(requested_ns: u64, open_at_start: bool, minimum_pulse_ns: u64)
    ensures
        requested_ns == 0 ==> applied_on_time(requested_ns, open_at_start, minimum_pulse_ns) == 0,
        requested_ns > 0 && open_at_start ==> applied_on_time(requested_ns, open_at_start, minimum_pulse_ns)
            == requested_ns,
        requested_ns >= minimum_pulse_ns ==> applied_on_time(requested_ns, open_at_start, minimum_pulse_ns)
            == requested_ns,
        0 < requested_ns < minimum_pulse_ns && !open_at_start ==> applied_on_time(
            requested_ns,
            open_at_start,
            minimum_pulse_ns,
        ) == minimum_pulse_ns,
{
}

/// Index of the first request at or after `from` that is longer than `control_step_ns`.
pub open spec fn first_overlong(on_time_ns: Seq<u64>, control_step_ns: int, from: int) -> Option<int>
    decreases on_time_ns.len() - from,
{
    if from < 0 || from >= on_time_ns.len() {
        None
    } else if on_time_ns[from] > control_step_ns {
        Some(from)
    } else {
        first_overlong(on_time_ns, control_step_ns, from + 1)
    }
}

/// The first reason a gate request is refused, in the order the checks run.
pub open spec fn gate_request_problem(
    command: RcsCommand,
    spec: ApolloPropulsionSpec,
    timing: SimulationTiming,
) -> Option<Seq<char>> {
    let control = timing.control_period_ns();
    if timing_problem(spec, timing) is Some {
        timing_problem(spec, timing)
    } else {
        match first_overlong(command.on_time_ns@, control, 0) {
            Some(i) => Some(msg_overlong_request(
                spec.rcs_thrusters@[i].label@,
                command.on_time_ns@[i] as nat,
                control as nat,
            )),
            None => None,
        }
    }
}

proof fn lemma_first_overlong_skips(on_time_ns: Seq<u64>, control_step_ns: int, from: int, to: int)
    requires
        0 <= from <= to,
        forall|j: int| from <= j < to && j < on_time_ns.len() ==> #[trigger] on_time_ns[j] <= control_step_ns,
    ensures
        first_overlong(on_time_ns, control_step_ns, from) == first_overlong(on_time_ns, control_step_ns, to),
    decreases to - from,
{
    if from < to && from < on_time_ns.len() {
        lemma_first_overlong_skips(on_time_ns, control_step_ns, from + 1, to);
    }
}

fn overlong_request_error(label: &str, requested_ns: u64, control_step_ns: u64) -> (e: PropulsionValidationError)
    ensures
        e@ == msg_overlong_request(label@, requested_ns as nat, control_step_ns as nat),
{
    let mut m = String::from_str("RCS '");
    m.append(label);
    m.append("' requests ");
    push_decimal(&mut m, requested_ns);
    m.append(" ns, longer than control step ");
    push_decimal(&mut m, control_step_ns);
    m.append(" ns");
    invalid(m)
}

/// Law: once a specification passes its timing check, every gate time the pulse rule
/// produces for an accepted request lies between the request and one control step.
pub proof fn lemma_applied_on_time_within_step(
    spec: ApolloPropulsionSpec,
    timing: SimulationTiming,
    i: int,
    requested_ns: u64,
    open_at_start: bool,
)
    requires
        timing_problem(spec, timing) is None,
        0 <= i < RCS_THRUSTER_COUNT,
        requested_ns <= timing.control_period_ns(),
    ensures
        requested_ns <= applied_on_time(requested_ns, open_at_start, spec.rcs_thrusters@[i].minimum_pulse_ns),
        applied_on_time(requested_ns, open_at_start, spec.rcs_thrusters@[i].minimum_pulse_ns) <= timing.control_period_ns(),
        requested_ns > 0 ==> applied_on_time(requested_ns, open_at_start, spec.rcs_thrusters@[i].minimum_pulse_ns) > 0,
{
    lemma_max_minimum_pulse_bounds(spec.rcs_thrusters@, RCS_THRUSTER_COUNT as int, i);
}

proof fn lemma_max_minimum_pulse_bounds(ts: Seq<RcsThrusterSpec>, n: int, i: int)
    requires
        0 <= i < n <= ts.len(),
    ensures
        ts[i].minimum_pulse_ns <= max_minimum_pulse(ts, n),
    decreases n,
{
    if i < n - 1 {
        lemma_max_minimum_pulse_bounds(ts, n - 1, i);
    }
}

/// Gate-open times of the 16 RCS valves, measured from the start of the control period.
#[derive(Clone, Copy, Debug, PartialEq, Eq)]
pub struct RcsCommand {
    pub on_time_ns: [u64; RCS_THRUSTER_COUNT],
}

impl Default for RcsCommand {
    fn default() -> (command: Self)
        ensures
            forall|i: int| 0 <= i < RCS_THRUSTER_COUNT ==> command.on_time_ns@[i] == 0,
    {
        Self::off()
    }
}

impl RcsCommand {
    /// All valves closed.
    pub fn off() -> (command: Self)
        ensures
            command.on_time_ns@.len() == RCS_THRUSTER_COUNT,
            forall|i: int| 0 <= i < RCS_THRUSTER_COUNT ==> command.on_time_ns@[i] == 0,
    {
        RcsCommand { on_time_ns: [0; RCS_THRUSTER_COUNT] }
    }

    /// The command with exactly these gate times.
    pub fn from_on_times(on_time_ns: [u64; RCS_THRUSTER_COUNT]) -> (command: Self)
        ensures
            command.on_time_ns == on_time_ns,
    {
        RcsCommand { on_time_ns }
    }

    /// One valve open for `duration_ns`, all others closed.
    pub fn single_pulse(id: RcsThrusterId, duration_ns: u64) -> (command: Self)
        ensures
            forall|i: int|
                0 <= i < RCS_THRUSTER_COUNT ==> command.on_time_ns@[i] == if i == id.id_index() {
                    duration_ns
                } else {
                    0
                },
    {
        let mut command = Self::off();
        command.on_time_ns[id.index()] = duration_ns;
        command
    }

    /// This command with valve `id` set to `duration_ns` and every other valve unchanged.
    pub fn with_on_time(self, id: RcsThrusterId, duration_ns: u64) -> (command: Self)
        ensures
            command.on_time_ns@ == self.on_time_ns@.update(id.id_index(), duration_ns),
    {
        let mut command = self;
        command.on_time_ns[id.index()] = duration_ns;
        command
    }

    /// The listed valves open for the whole control step, all others closed; fails when the
    /// control step does not fit in 64 bits of nanoseconds.
    pub fn hold(ids: &[RcsThrusterId], timing: SimulationTiming) -> (r: Result<Self, PropulsionValidationError>)
        ensures
            r is Ok <==> timing.control_period_ns() <= u64::MAX,
            r matches Err(e) ==> e@ == msg_control_step_too_long(),
            r matches Ok(command) ==> forall|i: int|
                0 <= i < RCS_THRUSTER_COUNT ==> #[trigger] command.on_time_ns@[i] == if exists|k: int|
                    0 <= k < ids@.len() && (#[trigger] ids@[k]).id_index() == i {
                    timing.control_period_ns()
                } else {
                    0
                },
    {
        let duration_ns = control_step_u64(timing)?;
        let mut command = Self::off();
        let mut n: usize = 0;
        while n < ids.len()
            invariant
                n <= ids@.len(),
                duration_ns == timing.control_period_ns(),
                forall|i: int|
                    0 <= i < RCS_THRUSTER_COUNT ==> #[trigger] command.on_time_ns@[i] == if exists|k: int|
                        0 <= k < n && (#[trigger] ids@[k]).id_index() == i {
                        duration_ns
                    } else {
                        0
                    },
            decreases ids@.len() - n,
        {
            let index = ids[n].index();
            command.on_time_ns[index] = duration_ns;
            assert forall|i: int| 0 <= i < RCS_THRUSTER_COUNT implies #[trigger] command.on_time_ns@[i] == if exists|k: int|
                0 <= k < n + 1 && (#[trigger] ids@[k]).id_index() == i {
                duration_ns
            } else {
                0
            } by {
                if i == index {
                    assert(ids@[n as int].id_index() == i);
                } else {
                    if exists|k: int| 0 <= k < n + 1 && (#[trigger] ids@[k]).id_index() == i {
                        let k = choose|k: int| 0 <= k < n + 1 && (#[trigger] ids@[k]).id_index() == i;
                        assert(k < n);
                    }
                }
            }
            n = n + 1;
        }
        Ok(command)
    }

    /// Applies the minimum pulse assuming every valve is closed at the start of the period.
    pub fn applied_gate_on_times(
        &self,
        spec: ApolloPropulsionSpec,
        timing: SimulationTiming,
    ) -> (r: Result<[u64; RCS_THRUSTER_COUNT], PropulsionValidationError>)
        ensures
            r is Ok <==> gate_request_problem(*self, spec, timing) is None,
            r matches Err(e) ==> gate_request_problem(*self, spec, timing) == Some(e@),
            r matches Ok(applied) ==> forall|i: int|
                0 <= i < RCS_THRUSTER_COUNT ==> #[trigger] applied@[i] == applied_on_time(
                    self.on_time_ns@[i],
                    false,
                    spec.rcs_thrusters@[i].minimum_pulse_ns,
                ),
            r matches Ok(applied) ==> forall|i: int|
                0 <= i < RCS_THRUSTER_COUNT ==> {
                    let requested = #[trigger] self.on_time_ns@[i];
                    let minimum = spec.rcs_thrusters@[i].minimum_pulse_ns;
                    &&& requested == 0 ==> applied@[i] == 0
                    &&& requested >= minimum ==> applied@[i] == requested
                    &&& 0 < requested < minimum ==> applied@[i] == minimum
                },
    {
        self.applied_gate_on_times_with_initial_gate_state(spec, timing, [false; RCS_THRUSTER_COUNT])
    }

    /// Validates the specification for `timing`, refuses any request longer than the control
    /// step, and applies the minimum pulse only to valves that were closed at the start.
    pub fn applied_gate_on_times_with_initial_gate_state(
        &self,
        spec: ApolloPropulsionSpec,
        timing: SimulationTiming,
        gate_open_at_start: [bool; RCS_THRUSTER_COUNT],
    ) -> (r: Result<[u64; RCS_THRUSTER_COUNT], PropulsionValidationError>)
        ensures
            r is Ok <==> gate_request_problem(*self, spec, timing) is None,
            r matches Err(e) ==> gate_request_problem(*self, spec, timing) == Some(e@),
            r matches Ok(applied) ==> forall|i: int|
                0 <= i < RCS_THRUSTER_COUNT ==> #[trigger] applied@[i] == applied_on_time(
                    self.on_time_ns@[i],
                    gate_open_at_start@[i],
                    spec.rcs_thrusters@[i].minimum_pulse_ns,
                ),
            r matches Ok(applied) ==> forall|i: int|
                0 <= i < RCS_THRUSTER_COUNT ==> {
                    let requested = #[trigger] self.on_time_ns@[i];
                    let minimum = spec.rcs_thrusters@[i].minimum_pulse_ns;
                    &&& requested == 0 ==> applied@[i] == 0
                    &&& requested > 0 && gate_open_at_start@[i] ==> applied@[i] == requested
                    &&& requested >= minimum ==> applied@[i] == requested
                    &&& 0 < requested < minimum && !gate_open_at_start@[i] ==> applied@[i] == minimum
                },
    {
        spec.validate_for_timing(timing)?;
        let control_step_ns = control_step_u64(timing)?;
        let ghost on = self.on_time_ns@;
        let mut applied: [u64; RCS_THRUSTER_COUNT] = [0; RCS_THRUSTER_COUNT];
        let mut index: usize = 0;
        while index < RCS_THRUSTER_COUNT
            invariant
                index <= RCS_THRUSTER_COUNT,
                on == self.on_time_ns@,
                control_step_ns == timing.control_period_ns(),
                timing_problem(spec, timing) is None,
                forall|j: int| 0 <= j < index ==> #[trigger] on[j] <= control_step_ns,
                forall|j: int|
                    0 <= j < index ==> #[trigger] applied@[j] == applied_on_time(
                        on[j],
                        gate_open_at_start@[j],
                        spec.rcs_thrusters@[j].minimum_pulse_ns,
                    ),
            decreases RCS_THRUSTER_COUNT - index,
        {
            let requested = self.on_time_ns[index];
            if requested > control_step_ns {
                proof {
                    lemma_first_overlong_skips(on, control_step_ns as int, 0, index as int);
                    assert(first_overlong(on, control_step_ns as int, index as int) == Some(index as int));
                }
                return Err(overlong_request_error(spec.rcs_thrusters[index].label, requested, control_step_ns));
            }
            let minimum = spec.rcs_thrusters[index].minimum_pulse_ns;
            applied[index] = if requested == 0 {
                0
            } else if gate_open_at_start[index] {
                requested
            } else if requested >= minimum {
                requested
            } else {
                minimum
            };
            index = index + 1;
        }
        proof {
            lemma_first_overlong_skips(on, control_step_ns as int, 0, RCS_THRUSTER_COUNT as int);
        }
        Ok(applied)
    }
}

/// Discrete operating regions of the descent engine.
#[derive(Clone, Copy, Debug, PartialEq, Eq, Structural)]
pub enum DpsMode {
    Off,
    Variable,
    FullThrust,
}

/// What the Apollo 11 specification holds for thruster `index`.
pub open spec fn apollo11_thruster_matches(t: RcsThrusterSpec, index: int) -> bool {
    let label = rcs_label(index);
    &&& t.id.id_index() == index
    &&& t.label@ == label
    &&& t.quad == label_quad(label)
    &&& t.feed_system == label_feed(label)
    &&& t.geometry_valid
    &&& t.thrust_valid
    &&& t.minimum_pulse_ns == RCS_MINIMUM_PULSE_NS
}

proof fn lemma_apollo11_slots(ts: Seq<RcsThrusterSpec>)
    requires
        ts.len() == RCS_THRUSTER_COUNT,
        forall|i: int| 0 <= i < RCS_THRUSTER_COUNT ==> #[trigger] apollo11_thruster_matches(ts[i], i),
    ensures
        rcs_balanced(ts),
        max_minimum_pulse(ts, ts.len() as int) == RCS_MINIMUM_PULSE_NS,
        first_thruster_problem(ts, 0) is None,
{
    lemma_label_texts();
    assert(apollo11_thruster_matches(ts[0], 0));
    assert(apollo11_thruster_matches(ts[1], 1));
    assert(apollo11_thruster_matches(ts[2], 2));
    assert(apollo11_thruster_matches(ts[3], 3));
    assert(apollo11_thruster_matches(ts[4], 4));
    assert(apollo11_thruster_matches(ts[5], 5));
    assert(apollo11_thruster_matches(ts[6], 6));
    assert(apollo11_thruster_matches(ts[7], 7));
    assert(apollo11_thruster_matches(ts[8], 8));
    assert(apollo11_thruster_matches(ts[9], 9));
    assert(apollo11_thruster_matches(ts[10], 10));
    assert(apollo11_thruster_matches(ts[11], 11));
    assert(apollo11_thruster_matches(ts[12], 12));
    assert(apollo11_thruster_matches(ts[13], 13));
    assert(apollo11_thruster_matches(ts[14], 14));
    assert(apollo11_thruster_matches(ts[15], 15));
    assert forall|slot: int| 0 <= slot < 8 implies #[trigger] slot_count(ts, ts.len() as int, slot) == 2 by {
        reveal_with_fuel(slot_count, 17);
    }
    reveal_with_fuel(max_minimum_pulse, 17);
    assert forall|j: int| 0 <= j < RCS_THRUSTER_COUNT implies #[trigger] thruster_problem(ts[j], j) is None by {
        assert(apollo11_thruster_matches(ts[j], j));
    }
    lemma_first_problem_skips(ts, 0, RCS_THRUSTER_COUNT as int);
}

impl ApolloPropulsionSpec {
    /// The Apollo 11 LM-5 touchdown configuration: the 16 historical RCS jets, each with the
    /// 14 ms minimum pulse, and the descent engine. The geometry of every jet is the exact
    /// micrometre station of `apollo11_rcs_layout` with a signed-axis force direction, and the
    /// thrusts are the published positive values, so every validity flag holds.
    pub fn apollo11_touchdown() -> (spec: Self)
        ensures
            forall|i: int| 0 <= i < RCS_THRUSTER_COUNT ==> #[trigger] apollo11_thruster_matches(spec.rcs_thrusters@[i], i),
            spec.dps_valid,
            propulsion_spec_problem(spec) is None,
            forall|timing: SimulationTiming|
                RCS_MINIMUM_PULSE_NS <= #[trigger] timing.control_period_ns() <= u64::MAX
                    ==> timing_problem(spec, timing) is None,
    {
        let layout = apollo11_rcs_layout();
        let placeholder = RcsThrusterSpec {
            id: RcsThrusterId(0),
            label: "",
            quad: RcsQuad::Quad1,
            feed_system: RcsFeedSystem::A,
            geometry_valid: false,
            thrust_valid: false,
            minimum_pulse_ns: 0,
        };
        let mut thrusters: [RcsThrusterSpec; RCS_THRUSTER_COUNT] = [placeholder; RCS_THRUSTER_COUNT];
        let mut i: usize = 0;
        while i < RCS_THRUSTER_COUNT
            invariant
                i <= RCS_THRUSTER_COUNT,
                layout@.len() == RCS_THRUSTER_COUNT,
                forall|k: int| 0 <= k < RCS_THRUSTER_COUNT ==> #[trigger] layout_entry_matches(layout@[k], k),
                forall|k: int| 0 <= k < i ==> #[trigger] apollo11_thruster_matches(thrusters@[k], k),
            decreases RCS_THRUSTER_COUNT - i,
        {
            let entry = layout[i];
            proof {
                assert(layout_entry_matches(layout@[i as int], i as int));
            }
            thrusters[i] = RcsThrusterSpec {
                id: entry.id,
                label: entry.label,
                quad: entry.quad,
                feed_system: entry.feed_system,
                geometry_valid: true,
                thrust_valid: true,
                minimum_pulse_ns: RCS_MINIMUM_PULSE_NS,
            };
            i = i + 1;
        }
        let spec = ApolloPropulsionSpec { rcs_thrusters: thrusters, dps_valid: true };
        proof {
            lemma_apollo11_slots(spec.rcs_thrusters@);
        }
        spec
    }
}

} // verus!
