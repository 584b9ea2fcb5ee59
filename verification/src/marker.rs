//! What a teaching marker looks like to the visualisation client: a named
//! handle with six controls, one to turn it about and one to move it along
//! each axis.

use crate::geometry::{Pose, Quaternion, Scalar};
use vstd::prelude::*;

verus! {

/// The interaction mode of a control that moves the marker along its axis.
pub const MOVE_AXIS: u8 = 3;

/// The interaction mode of a control that turns the marker about its axis.
pub const ROTATE_AXIS: u8 = 5;

/// The encoding of the size at which a marker's controls are drawn: the
/// double nearest to three tenths.
pub const MARKER_SCALE_BITS: u64 = 0x3FD3_3333_3333_3333;

/// The mask under which a marker's feedback callback is attached: every kind
/// of feedback.
pub const EVERY_FEEDBACK: u8 = 255;

/// One of the three axes.
#[derive(Clone, Copy, Debug, PartialEq, Eq, Structural)]
pub enum Axis {
    X,
    Y,
    Z,
}

/// The orientation of a control that works along `axis`: the quaternion with
/// one in the scalar part and in the part of `axis`, brought to unit length.
pub open spec fn axis_orientation(axis: Axis) -> Quaternion {
    Quaternion {
        x: if axis == Axis::X {
            Scalar::spec_sqrt_half()
        } else {
            Scalar::spec_zero()
        },
        y: if axis == Axis::Y {
            Scalar::spec_sqrt_half()
        } else {
            Scalar::spec_zero()
        },
        z: if axis == Axis::Z {
            Scalar::spec_sqrt_half()
        } else {
            Scalar::spec_zero()
        },
        w: Scalar::spec_sqrt_half(),
    }
}

/// One way to take hold of a marker.
#[derive(Debug, PartialEq, Eq)]
pub struct Control {
    pub name: String,
    pub interaction_mode: u8,
    /// The axis along which the control works, as a unit quaternion.
    pub orientation: Quaternion,
    pub always_visible: bool,
}

/// A [`Control`] with its name as a sequence of characters.
pub ghost struct ControlView {
    pub name: Seq<char>,
    pub interaction_mode: u8,
    pub orientation: Quaternion,
    pub always_visible: bool,
}

impl View for Control {
    type V = ControlView;

    open spec fn view(&self) -> ControlView {
        ControlView {
            name: self.name@,
            interaction_mode: self.interaction_mode,
            orientation: self.orientation,
            always_visible: self.always_visible,
        }
    }
}

/// The control called `name` that works in `interaction_mode` along `axis`.
pub open spec fn control_view(name: Seq<char>, interaction_mode: u8, axis: Axis) -> ControlView {
    ControlView {
        name,
        interaction_mode,
        orientation: axis_orientation(axis),
        always_visible: true,
    }
}

/// Builds the control called `name` that works in `interaction_mode` along
/// `axis`. It is always shown.
pub fn prepare_control(name: &str, interaction_mode: u8, axis: Axis) -> (control: Control)
    ensures
        control@ == control_view(name@, interaction_mode, axis),
{
    let orientation = Quaternion {
        w: Scalar::sqrt_half(),
        x: if axis == Axis::X {
            Scalar::sqrt_half()
        } else {
            Scalar::zero()
        },
        y: if axis == Axis::Y {
            Scalar::sqrt_half()
        } else {
            Scalar::zero()
        },
        z: if axis == Axis::Z {
            Scalar::sqrt_half()
        } else {
            Scalar::zero()
        },
    };
    Control { name: name.to_owned(), interaction_mode, orientation, always_visible: true }
}

/// The controls of every marker, in the order in which they are listed.
pub open spec fn marker_controls() -> Seq<ControlView> {
    seq![
        control_view("rotate_x"@, ROTATE_AXIS, Axis::X),
        control_view("move_x"@, MOVE_AXIS, Axis::X),
        control_view("rotate_y"@, ROTATE_AXIS, Axis::Y),
        control_view("move_y"@, MOVE_AXIS, Axis::Y),
        control_view("rotate_z"@, ROTATE_AXIS, Axis::Z),
        control_view("move_z"@, MOVE_AXIS, Axis::Z),
    ]
}

/// Where in [`marker_controls`] the control stands that turns about `axis`;
/// the one that moves along it stands next.
pub open spec fn rotate_index(axis: Axis) -> int {
    match axis {
        Axis::X => 0,
        Axis::Y => 2,
        Axis::Z => 4,
    }
}

/// A marker has six controls. For each axis, one of them turns about it and
/// one moves along it, and no other control works along that axis.
pub proof fn lemma_controls_cover_each_axis(axis: Axis)
    ensures
        marker_controls().len() == 6,
        0 <= rotate_index(axis) < 5,
        marker_controls()[rotate_index(axis)].interaction_mode == ROTATE_AXIS,
        marker_controls()[rotate_index(axis)].orientation == axis_orientation(axis),
        marker_controls()[rotate_index(axis) + 1].interaction_mode == MOVE_AXIS,
        marker_controls()[rotate_index(axis) + 1].orientation == axis_orientation(axis),
        forall|i: int|
            0 <= i < 6 && (#[trigger] marker_controls()[i]).orientation == axis_orientation(axis)
                ==> i == rotate_index(axis) || i == rotate_index(axis) + 1,
{
}

/// A marker as the visualisation client is told of it.
#[derive(Debug, PartialEq, Eq)]
pub struct MarkerHandle {
    /// The marker's name, which no other marker has.
    pub name: String,
    /// The frame in which the marker is placed.
    pub frame_id: String,
    pub description: String,
    /// The size at which the controls are drawn.
    pub scale: Scalar,
    /// Where the marker stands in its frame at first.
    pub pose: Pose,
    pub controls: Vec<Control>,
}

/// A [`MarkerHandle`] with its texts as sequences of characters and its
/// controls as a sequence of views.
pub ghost struct MarkerView {
    pub name: Seq<char>,
    pub frame_id: Seq<char>,
    pub description: Seq<char>,
    pub scale: Scalar,
    pub pose: Pose,
    pub controls: Seq<ControlView>,
}

/// The views of `controls`, in their order.
pub open spec fn controls_view(controls: Seq<Control>) -> Seq<ControlView> {
    Seq::new(controls.len(), |i: int| controls[i]@)
}

impl View for MarkerHandle {
    type V = MarkerView;

    open spec fn view(&self) -> MarkerView {
        MarkerView {
            name: self.name@,
            frame_id: self.frame_id@,
            description: self.description@,
            scale: self.scale,
            pose: self.pose,
            controls: controls_view(self.controls@),
        }
    }
}

/// The pose at which a marker starts: the one given, or the origin, not
/// turned, where none is given.
pub open spec fn initial_pose(spawn_at_pose: Option<Pose>) -> Pose {
    match spawn_at_pose {
        Some(pose) => pose,
        None => Pose::spec_identity(),
    }
}

/// The marker called `name` that is placed in the frame `spawn_at`.
pub open spec fn marker_view(
    name: Seq<char>,
    spawn_at: Seq<char>,
    spawn_at_pose: Option<Pose>,
) -> MarkerView {
    MarkerView {
        name,
        frame_id: spawn_at,
        description: name,
        scale: Scalar { bits: MARKER_SCALE_BITS },
        pose: initial_pose(spawn_at_pose),
        controls: marker_controls(),
    }
}

/// Builds the marker called `name` in the frame `spawn_at`, with the six
/// controls that every marker has. It starts at `spawn_at_pose`, or at the
/// frame's origin where no pose is given.
pub fn create_marker(name: &str, spawn_at: &str, spawn_at_pose: Option<Pose>) -> (marker:
    MarkerHandle)
    ensures
        marker@ == marker_view(name@, spawn_at@, spawn_at_pose),
{
    let pose = match spawn_at_pose {
        Some(pose) => pose,
        None => Pose::identity(),
    };
    let mut controls: Vec<Control> = Vec::new();
    controls.push(prepare_control("rotate_x", ROTATE_AXIS, Axis::X));
    controls.push(prepare_control("move_x", MOVE_AXIS, Axis::X));
    controls.push(prepare_control("rotate_y", ROTATE_AXIS, Axis::Y));
    controls.push(prepare_control("move_y", MOVE_AXIS, Axis::Y));
    controls.push(prepare_control("rotate_z", ROTATE_AXIS, Axis::Z));
    controls.push(prepare_control("move_z", MOVE_AXIS, Axis::Z));
    assert(controls_view(controls@) =~= marker_controls());
    MarkerHandle {
        name: name.to_owned(),
        frame_id: spawn_at.to_owned(),
        description: name.to_owned(),
        scale: Scalar { bits: MARKER_SCALE_BITS },
        pose,
        controls,
    }
}

} // verus!
