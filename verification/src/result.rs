use vstd::prelude::*;

use crate::rotation::{iquat_identity, IQuat, Rotation};

verus! {

/// The full set of joint rotations and face scalars produced by one
/// solve of a frame. Rotations are quaternions at the fixed-point scale;
/// openness values are fixed-point scalars in the unit band.
#[derive(Clone, Copy, PartialEq, Eq, Structural, Debug)]
pub struct PoseSolverResult {
    pub upper_body: Rotation,
    pub lower_body: Rotation,
    pub neck: Rotation,
    pub left_hip: Rotation,
    pub right_hip: Rotation,
    pub left_foot: Rotation,
    pub right_foot: Rotation,
    pub left_upper_arm: Rotation,
    pub right_upper_arm: Rotation,
    pub left_lower_arm: Rotation,
    pub right_lower_arm: Rotation,
    pub left_wrist: Rotation,
    pub right_wrist: Rotation,
    pub left_thumb_cmc: Rotation,
    pub left_thumb_mcp: Rotation,
    pub left_index_finger_mcp: Rotation,
    pub left_index_finger_pip: Rotation,
    pub left_index_finger_dip: Rotation,
    pub left_middle_finger_mcp: Rotation,
    pub left_middle_finger_pip: Rotation,
    pub left_middle_finger_dip: Rotation,
    pub left_ring_finger_mcp: Rotation,
    pub left_ring_finger_pip: Rotation,
    pub left_ring_finger_dip: Rotation,
    pub left_pinky_finger_mcp: Rotation,
    pub left_pinky_finger_pip: Rotation,
    pub left_pinky_finger_dip: Rotation,
    pub right_thumb_cmc: Rotation,
    pub right_thumb_mcp: Rotation,
    pub right_index_finger_mcp: Rotation,
    pub right_index_finger_pip: Rotation,
    pub right_index_finger_dip: Rotation,
    pub right_middle_finger_mcp: Rotation,
    pub right_middle_finger_pip: Rotation,
    pub right_middle_finger_dip: Rotation,
    pub right_ring_finger_mcp: Rotation,
    pub right_ring_finger_pip: Rotation,
    pub right_ring_finger_dip: Rotation,
    pub right_pinky_finger_mcp: Rotation,
    pub right_pinky_finger_pip: Rotation,
    pub right_pinky_finger_dip: Rotation,
    pub left_eye_rotation: Rotation,
    pub right_eye_rotation: Rotation,
    pub left_eye_openness: i64,
    pub right_eye_openness: i64,
    pub mouth_openness: i64,
}

/// The mathematical model of a result: the same fields over unbounded
/// integers.
pub ghost struct ResultModel {
    pub upper_body: IQuat,
    pub lower_body: IQuat,
    pub neck: IQuat,
    pub left_hip: IQuat,
    pub right_hip: IQuat,
    pub left_foot: IQuat,
    pub right_foot: IQuat,
    pub left_upper_arm: IQuat,
    pub right_upper_arm: IQuat,
    pub left_lower_arm: IQuat,
    pub right_lower_arm: IQuat,
    pub left_wrist: IQuat,
    pub right_wrist: IQuat,
    pub left_thumb_cmc: IQuat,
    pub left_thumb_mcp: IQuat,
    pub left_index_finger_mcp: IQuat,
    pub left_index_finger_pip: IQuat,
    pub left_index_finger_dip: IQuat,
    pub left_middle_finger_mcp: IQuat,
    pub left_middle_finger_pip: IQuat,
    pub left_middle_finger_dip: IQuat,
    pub left_ring_finger_mcp: IQuat,
    pub left_ring_finger_pip: IQuat,
    pub left_ring_finger_dip: IQuat,
    pub left_pinky_finger_mcp: IQuat,
    pub left_pinky_finger_pip: IQuat,
    pub left_pinky_finger_dip: IQuat,
    pub right_thumb_cmc: IQuat,
    pub right_thumb_mcp: IQuat,
    pub right_index_finger_mcp: IQuat,
    pub right_index_finger_pip: IQuat,
    pub right_index_finger_dip: IQuat,
    pub right_middle_finger_mcp: IQuat,
    pub right_middle_finger_pip: IQuat,
    pub right_middle_finger_dip: IQuat,
    pub right_ring_finger_mcp: IQuat,
    pub right_ring_finger_pip: IQuat,
    pub right_ring_finger_dip: IQuat,
    pub right_pinky_finger_mcp: IQuat,
    pub right_pinky_finger_pip: IQuat,
    pub right_pinky_finger_dip: IQuat,
    pub left_eye_rotation: IQuat,
    pub right_eye_rotation: IQuat,
    pub left_eye_openness: int,
    pub right_eye_openness: int,
    pub mouth_openness: int,
}

impl View for PoseSolverResult {
    type V = ResultModel;

    open spec fn view(&self) -> ResultModel {
        ResultModel {
            upper_body: self.upper_body@,
            lower_body: self.lower_body@,
            neck: self.neck@,
            left_hip: self.left_hip@,
            right_hip: self.right_hip@,
            left_foot: self.left_foot@,
            right_foot: self.right_foot@,
            left_upper_arm: self.left_upper_arm@,
            right_upper_arm: self.right_upper_arm@,
            left_lower_arm: self.left_lower_arm@,
            right_lower_arm: self.right_lower_arm@,
            left_wrist: self.left_wrist@,
            right_wrist: self.right_wrist@,
            left_thumb_cmc: self.left_thumb_cmc@,
            left_thumb_mcp: self.left_thumb_mcp@,
            left_index_finger_mcp: self.left_index_finger_mcp@,
            left_index_finger_pip: self.left_index_finger_pip@,
            left_index_finger_dip: self.left_index_finger_dip@,
            left_middle_finger_mcp: self.left_middle_finger_mcp@,
            left_middle_finger_pip: self.left_middle_finger_pip@,
            left_middle_finger_dip: self.left_middle_finger_dip@,
            left_ring_finger_mcp: self.left_ring_finger_mcp@,
            left_ring_finger_pip: self.left_ring_finger_pip@,
            left_ring_finger_dip: self.left_ring_finger_dip@,
            left_pinky_finger_mcp: self.left_pinky_finger_mcp@,
            left_pinky_finger_pip: self.left_pinky_finger_pip@,
            left_pinky_finger_dip: self.left_pinky_finger_dip@,
            right_thumb_cmc: self.right_thumb_cmc@,
            right_thumb_mcp: self.right_thumb_mcp@,
            right_index_finger_mcp: self.right_index_finger_mcp@,
            right_index_finger_pip: self.right_index_finger_pip@,
            right_index_finger_dip: self.right_index_finger_dip@,
            right_middle_finger_mcp: self.right_middle_finger_mcp@,
            right_middle_finger_pip: self.right_middle_finger_pip@,
            right_middle_finger_dip: self.right_middle_finger_dip@,
            right_ring_finger_mcp: self.right_ring_finger_mcp@,
            right_ring_finger_pip: self.right_ring_finger_pip@,
            right_ring_finger_dip: self.right_ring_finger_dip@,
            right_pinky_finger_mcp: self.right_pinky_finger_mcp@,
            right_pinky_finger_pip: self.right_pinky_finger_pip@,
            right_pinky_finger_dip: self.right_pinky_finger_dip@,
            left_eye_rotation: self.left_eye_rotation@,
            right_eye_rotation: self.right_eye_rotation@,
            left_eye_openness: self.left_eye_openness as int,
            right_eye_openness: self.right_eye_openness as int,
            mouth_openness: self.mouth_openness as int,
        }
    }
}

/// The all-default result: every rotation the identity, every scalar
/// zero. This is what an empty body stream yields whole, and what every
/// field starts from before its stream is solved.
pub open spec fn default_model() -> ResultModel {
    ResultModel {
        upper_body: iquat_identity(),
        lower_body: iquat_identity(),
        neck: iquat_identity(),
        left_hip: iquat_identity(),
        right_hip: iquat_identity(),
        left_foot: iquat_identity(),
        right_foot: iquat_identity(),
        left_upper_arm: iquat_identity(),
        right_upper_arm: iquat_identity(),
        left_lower_arm: iquat_identity(),
        right_lower_arm: iquat_identity(),
        left_wrist: iquat_identity(),
        right_wrist: iquat_identity(),
        left_thumb_cmc: iquat_identity(),
        left_thumb_mcp: iquat_identity(),
        left_index_finger_mcp: iquat_identity(),
        left_index_finger_pip: iquat_identity(),
        left_index_finger_dip: iquat_identity(),
        left_middle_finger_mcp: iquat_identity(),
        left_middle_finger_pip: iquat_identity(),
        left_middle_finger_dip: iquat_identity(),
        left_ring_finger_mcp: iquat_identity(),
        left_ring_finger_pip: iquat_identity(),
        left_ring_finger_dip: iquat_identity(),
        left_pinky_finger_mcp: iquat_identity(),
        left_pinky_finger_pip: iquat_identity(),
        left_pinky_finger_dip: iquat_identity(),
        right_thumb_cmc: iquat_identity(),
        right_thumb_mcp: iquat_identity(),
        right_index_finger_mcp: iquat_identity(),
        right_index_finger_pip: iquat_identity(),
        right_index_finger_dip: iquat_identity(),
        right_middle_finger_mcp: iquat_identity(),
        right_middle_finger_pip: iquat_identity(),
        right_middle_finger_dip: iquat_identity(),
        right_ring_finger_mcp: iquat_identity(),
        right_ring_finger_pip: iquat_identity(),
        right_ring_finger_dip: iquat_identity(),
        right_pinky_finger_mcp: iquat_identity(),
        right_pinky_finger_pip: iquat_identity(),
        right_pinky_finger_dip: iquat_identity(),
        left_eye_rotation: iquat_identity(),
        right_eye_rotation: iquat_identity(),
        left_eye_openness: 0,
        right_eye_openness: 0,
        mouth_openness: 0,
    }
}

impl PoseSolverResult {
    /// The all-default result.
    pub fn new() -> (r: PoseSolverResult)
        ensures
            r@ == default_model(),
    {
        PoseSolverResult {
            upper_body: Rotation::default(),
            lower_body: Rotation::default(),
            neck: Rotation::default(),
            left_hip: Rotation::default(),
            right_hip: Rotation::default(),
            left_foot: Rotation::default(),
            right_foot: Rotation::default(),
            left_upper_arm: Rotation::default(),
            right_upper_arm: Rotation::default(),
            left_lower_arm: Rotation::default(),
            right_lower_arm: Rotation::default(),
            left_wrist: Rotation::default(),
            right_wrist: Rotation::default(),
            left_thumb_cmc: Rotation::default(),
            left_thumb_mcp: Rotation::default(),
            left_index_finger_mcp: Rotation::default(),
            left_index_finger_pip: Rotation::default(),
            left_index_finger_dip: Rotation::default(),
            left_middle_finger_mcp: Rotation::default(),
            left_middle_finger_pip: Rotation::default(),
            left_middle_finger_dip: Rotation::default(),
            left_ring_finger_mcp: Rotation::default(),
            left_ring_finger_pip: Rotation::default(),
            left_ring_finger_dip: Rotation::default(),
            left_pinky_finger_mcp: Rotation::default(),
            left_pinky_finger_pip: Rotation::default(),
            left_pinky_finger_dip: Rotation::default(),
            right_thumb_cmc: Rotation::default(),
            right_thumb_mcp: Rotation::default(),
            right_index_finger_mcp: Rotation::default(),
            right_index_finger_pip: Rotation::default(),
            right_index_finger_dip: Rotation::default(),
            right_middle_finger_mcp: Rotation::default(),
            right_middle_finger_pip: Rotation::default(),
            right_middle_finger_dip: Rotation::default(),
            right_ring_finger_mcp: Rotation::default(),
            right_ring_finger_pip: Rotation::default(),
            right_ring_finger_dip: Rotation::default(),
            right_pinky_finger_mcp: Rotation::default(),
            right_pinky_finger_pip: Rotation::default(),
            right_pinky_finger_dip: Rotation::default(),
            left_eye_rotation: Rotation::default(),
            right_eye_rotation: Rotation::default(),
            left_eye_openness: 0,
            right_eye_openness: 0,
            mouth_openness: 0,
        }
    }
}

} // verus!
