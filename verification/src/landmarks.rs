use vstd::prelude::*;

use crate::fixed::COORD_LIMIT;
use crate::vec3::{vbounded, Vec3};

verus! {

/// Number of points a tracked main-body stream carries.
pub const BODY_LEN: usize = 33;

/// Number of points a tracked hand stream carries.
pub const HAND_LEN: usize = 21;

/// Smallest face-mesh stream that covers every face id the solver reads.
pub const FACE_MIN_LEN: usize = 474;

/// The named slots of the main-body stream.
#[derive(Clone, Copy, PartialEq, Eq, Structural, Debug)]
pub enum MainBodyIndex {
    Nose,
    LeftEyeInner,
    LeftEye,
    LeftEyeOuter,
    RightEyeInner,
    RightEye,
    RightEyeOuter,
    LeftEar,
    RightEar,
    MouthLeft,
    MouthRight,
    LeftShoulder,
    RightShoulder,
    LeftElbow,
    RightElbow,
    LeftWrist,
    RightWrist,
    LeftPinky,
    RightPinky,
    LeftIndex,
    RightIndex,
    LeftThumb,
    RightThumb,
    LeftHip,
    RightHip,
    LeftKnee,
    RightKnee,
    LeftAnkle,
    RightAnkle,
    LeftHeel,
    RightHeel,
    LeftFootIndex,
    RightFootIndex,
}

/// The position of a main-body slot inside its stream.
pub open spec fn spec_body_slot(i: MainBodyIndex) -> int {
    match i {
        MainBodyIndex::Nose => 0,
        MainBodyIndex::LeftEyeInner => 1,
        MainBodyIndex::LeftEye => 2,
        MainBodyIndex::LeftEyeOuter => 3,
        MainBodyIndex::RightEyeInner => 4,
        MainBodyIndex::RightEye => 5,
        MainBodyIndex::RightEyeOuter => 6,
        MainBodyIndex::LeftEar => 7,
        MainBodyIndex::RightEar => 8,
        MainBodyIndex::MouthLeft => 9,
        MainBodyIndex::MouthRight => 10,
        MainBodyIndex::LeftShoulder => 11,
        MainBodyIndex::RightShoulder => 12,
        MainBodyIndex::LeftElbow => 13,
        MainBodyIndex::RightElbow => 14,
        MainBodyIndex::LeftWrist => 15,
        MainBodyIndex::RightWrist => 16,
        MainBodyIndex::LeftPinky => 17,
        MainBodyIndex::RightPinky => 18,
        MainBodyIndex::LeftIndex => 19,
        MainBodyIndex::RightIndex => 20,
        MainBodyIndex::LeftThumb => 21,
        MainBodyIndex::RightThumb => 22,
        MainBodyIndex::LeftHip => 23,
        MainBodyIndex::RightHip => 24,
        MainBodyIndex::LeftKnee => 25,
        MainBodyIndex::RightKnee => 26,
        MainBodyIndex::LeftAnkle => 27,
        MainBodyIndex::RightAnkle => 28,
        MainBodyIndex::LeftHeel => 29,
        MainBodyIndex::RightHeel => 30,
        MainBodyIndex::LeftFootIndex => 31,
        MainBodyIndex::RightFootIndex => 32,
    }
}

/// Executable position of a main-body slot.
pub fn body_slot(i: MainBodyIndex) -> (r: usize)
    ensures
        r == spec_body_slot(i),
        r < BODY_LEN,
{
    match i {
        MainBodyIndex::Nose => 0,
        MainBodyIndex::LeftEyeInner => 1,
        MainBodyIndex::LeftEye => 2,
        MainBodyIndex::LeftEyeOuter => 3,
        MainBodyIndex::RightEyeInner => 4,
        MainBodyIndex::RightEye => 5,
        MainBodyIndex::RightEyeOuter => 6,
        MainBodyIndex::LeftEar => 7,
        MainBodyIndex::RightEar => 8,
        MainBodyIndex::MouthLeft => 9,
        MainBodyIndex::MouthRight => 10,
        MainBodyIndex::LeftShoulder => 11,
        MainBodyIndex::RightShoulder => 12,
        MainBodyIndex::LeftElbow => 13,
        MainBodyIndex::RightElbow => 14,
        MainBodyIndex::LeftWrist => 15,
        MainBodyIndex::RightWrist => 16,
        MainBodyIndex::LeftPinky => 17,
        MainBodyIndex::RightPinky => 18,
        MainBodyIndex::LeftIndex => 19,
        MainBodyIndex::RightIndex => 20,
        MainBodyIndex::LeftThumb => 21,
        MainBodyIndex::RightThumb => 22,
        MainBodyIndex::LeftHip => 23,
        MainBodyIndex::RightHip => 24,
        MainBodyIndex::LeftKnee => 25,
        MainBodyIndex::RightKnee => 26,
        MainBodyIndex::LeftAnkle => 27,
        MainBodyIndex::RightAnkle => 28,
        MainBodyIndex::LeftHeel => 29,
        MainBodyIndex::RightHeel => 30,
        MainBodyIndex::LeftFootIndex => 31,
        MainBodyIndex::RightFootIndex => 32,
    }
}

/// The named slots of a hand stream.
#[derive(Clone, Copy, PartialEq, Eq, Structural, Debug)]
pub enum HandIndex {
    Wrist,
    ThumbCMC,
    ThumbMCP,
    ThumbIP,
    ThumbTip,
    IndexMCP,
    IndexPIP,
    IndexDIP,
    IndexTip,
    MiddleMCP,
    MiddlePIP,
    MiddleDIP,
    MiddleTip,
    RingMCP,
    RingPIP,
    RingDIP,
    RingTip,
    PinkyMCP,
    PinkyPIP,
    PinkyDIP,
    PinkyTip,
}

/// The position of a hand slot inside its stream.
pub open spec fn spec_hand_slot(i: HandIndex) -> int {
    match i {
        HandIndex::Wrist => 0,
        HandIndex::ThumbCMC => 1,
        HandIndex::ThumbMCP => 2,
        HandIndex::ThumbIP => 3,
        HandIndex::ThumbTip => 4,
        HandIndex::IndexMCP => 5,
        HandIndex::IndexPIP => 6,
        HandIndex::IndexDIP => 7,
        HandIndex::IndexTip => 8,
        HandIndex::MiddleMCP => 9,
        HandIndex::MiddlePIP => 10,
        HandIndex::MiddleDIP => 11,
        HandIndex::MiddleTip => 12,
        HandIndex::RingMCP => 13,
        HandIndex::RingPIP => 14,
        HandIndex::RingDIP => 15,
        HandIndex::RingTip => 16,
        HandIndex::PinkyMCP => 17,
        HandIndex::PinkyPIP => 18,
        HandIndex::PinkyDIP => 19,
        HandIndex::PinkyTip => 20,
    }
}

/// Executable position of a hand slot.
pub fn hand_slot(i: HandIndex) -> (r: usize)
    ensures
        r == spec_hand_slot(i),
        r < HAND_LEN,
{
    match i {
        HandIndex::Wrist => 0,
        HandIndex::ThumbCMC => 1,
        HandIndex::ThumbMCP => 2,
        HandIndex::ThumbIP => 3,
        HandIndex::ThumbTip => 4,
        HandIndex::IndexMCP => 5,
        HandIndex::IndexPIP => 6,
        HandIndex::IndexDIP => 7,
        HandIndex::IndexTip => 8,
        HandIndex::MiddleMCP => 9,
        HandIndex::MiddlePIP => 10,
        HandIndex::MiddleDIP => 11,
        HandIndex::MiddleTip => 12,
        HandIndex::RingMCP => 13,
        HandIndex::RingPIP => 14,
        HandIndex::RingDIP => 15,
        HandIndex::RingTip => 16,
        HandIndex::PinkyMCP => 17,
        HandIndex::PinkyPIP => 18,
        HandIndex::PinkyDIP => 19,
        HandIndex::PinkyTip => 20,
    }
}

/// The named points the solver reads from the face-mesh stream.
#[derive(Clone, Copy, PartialEq, Eq, Structural, Debug)]
pub enum FaceIndex {
    LeftEyeUpper,
    LeftEyeLower,
    LeftEyeLeft,
    LeftEyeRight,
    LeftEyeIris,
    RightEyeUpper,
    RightEyeLower,
    RightEyeLeft,
    RightEyeRight,
    RightEyeIris,
    UpperLipTop,
    LowerLipBottom,
    MouthLeft,
    MouthRight,
    UpperLipCenter,
    LowerLipCenter,
    LeftEar,
    RightEar,
}

/// The fixed face-mesh id of a face slot.
pub open spec fn spec_face_slot(i: FaceIndex) -> int {
    match i {
        FaceIndex::LeftEyeUpper => 159,
        FaceIndex::LeftEyeLower => 145,
        FaceIndex::LeftEyeLeft => 33,
        FaceIndex::LeftEyeRight => 133,
        FaceIndex::LeftEyeIris => 468,
        FaceIndex::RightEyeUpper => 386,
        FaceIndex::RightEyeLower => 374,
        FaceIndex::RightEyeLeft => 362,
        FaceIndex::RightEyeRight => 263,
        FaceIndex::RightEyeIris => 473,
        FaceIndex::UpperLipTop => 13,
        FaceIndex::LowerLipBottom => 14,
        FaceIndex::MouthLeft => 61,
        FaceIndex::MouthRight => 291,
        FaceIndex::UpperLipCenter => 0,
        FaceIndex::LowerLipCenter => 17,
        FaceIndex::LeftEar => 234,
        FaceIndex::RightEar => 454,
    }
}

/// Executable face-mesh id of a face slot.
pub fn face_slot(i: FaceIndex) -> (r: usize)
    ensures
        r == spec_face_slot(i),
        r < FACE_MIN_LEN,
{
    match i {
        FaceIndex::LeftEyeUpper => 159,
        FaceIndex::LeftEyeLower => 145,
        FaceIndex::LeftEyeLeft => 33,
        FaceIndex::LeftEyeRight => 133,
        FaceIndex::LeftEyeIris => 468,
        FaceIndex::RightEyeUpper => 386,
        FaceIndex::RightEyeLower => 374,
        FaceIndex::RightEyeLeft => 362,
        FaceIndex::RightEyeRight => 263,
        FaceIndex::RightEyeIris => 473,
        FaceIndex::UpperLipTop => 13,
        FaceIndex::LowerLipBottom => 14,
        FaceIndex::MouthLeft => 61,
        FaceIndex::MouthRight => 291,
        FaceIndex::UpperLipCenter => 0,
        FaceIndex::LowerLipCenter => 17,
        FaceIndex::LeftEar => 234,
        FaceIndex::RightEar => 454,
    }
}

/// Every point of a stream keeps its coordinates within the accepted
/// band.
pub open spec fn stream_points_ok(s: Seq<Vec3>) -> bool {
    forall|i: int| 0 <= i < s.len() ==> vbounded(#[trigger] s[i]@, COORD_LIMIT as int)
}

/// A main-body stream is either absent or carries exactly its full set
/// of in-band points.
pub open spec fn body_ok(s: Seq<Vec3>) -> bool {
    s.len() == 0 || (s.len() == BODY_LEN && stream_points_ok(s))
}

/// A hand stream is either absent or carries exactly its full set of
/// in-band points.
pub open spec fn hand_ok(s: Seq<Vec3>) -> bool {
    s.len() == 0 || (s.len() == HAND_LEN && stream_points_ok(s))
}

/// A face stream is either absent or covers every id the solver reads,
/// with in-band points.
pub open spec fn face_ok(s: Seq<Vec3>) -> bool {
    s.len() == 0 || (s.len() >= FACE_MIN_LEN && stream_points_ok(s))
}

/// Executable check that every point of a stream is in band.
pub fn check_stream_points(s: &Vec<Vec3>) -> (r: bool)
    ensures
        r == stream_points_ok(s@),
{
    let mut i: usize = 0;
    while i < s.len()
        invariant
            i <= s@.len(),
            forall|j: int| 0 <= j < i ==> vbounded(#[trigger] s@[j]@, COORD_LIMIT as int),
        decreases s@.len() - i,
    {
        let p = s[i];
        if p.x > COORD_LIMIT || p.x < -COORD_LIMIT || p.y > COORD_LIMIT || p.y < -COORD_LIMIT
            || p.z > COORD_LIMIT || p.z < -COORD_LIMIT {
            assert(!vbounded(s@[i as int]@, COORD_LIMIT as int));
            return false;
        }
        i = i + 1;
    }
    true
}

/// Executable check of the main-body stream shape.
pub fn check_body(s: &Vec<Vec3>) -> (r: bool)
    ensures
        r == body_ok(s@),
{
    s.len() == 0 || (s.len() == BODY_LEN && check_stream_points(s))
}

/// Executable check of a hand stream shape.
pub fn check_hand(s: &Vec<Vec3>) -> (r: bool)
    ensures
        r == hand_ok(s@),
{
    s.len() == 0 || (s.len() == HAND_LEN && check_stream_points(s))
}

/// Executable check of the face stream shape.
pub fn check_face(s: &Vec<Vec3>) -> (r: bool)
    ensures
        r == face_ok(s@),
{
    s.len() == 0 || (s.len() >= FACE_MIN_LEN && check_stream_points(s))
}

/// A main-body point by its named slot.
pub fn body_point(s: &Vec<Vec3>, i: MainBodyIndex) -> (r: Vec3)
    requires
        s@.len() == BODY_LEN,
    ensures
        r == s@[spec_body_slot(i)],
{
    s[body_slot(i)]
}

/// A hand point by its named slot.
pub fn hand_point(s: &Vec<Vec3>, i: HandIndex) -> (r: Vec3)
    requires
        s@.len() == HAND_LEN,
    ensures
        r == s@[spec_hand_slot(i)],
{
    s[hand_slot(i)]
}

/// A face point by its named slot.
pub fn face_point(s: &Vec<Vec3>, i: FaceIndex) -> (r: Vec3)
    requires
        s@.len() >= FACE_MIN_LEN,
    ensures
        r == s@[spec_face_slot(i)],
{
    s[face_slot(i)]
}

} // verus!
