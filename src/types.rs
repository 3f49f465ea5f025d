//! The observations that flow from the detector through the resolver to the
//! encoder.
use vstd::prelude::*;
use crate::geometry::{Pose, Scalar};

verus! {

/// One detected marker in one frame: its id and its four pixel corners
/// `[x, y]`, in the detector's fixed winding order.
#[derive(Clone, Copy, Debug)]
pub struct FiducialImageObservation {
    pub tag_id: u64,
    pub corners: [[Scalar; 2]; 4],
}

/// The two camera-to-marker hypotheses of a single square marker, each with
/// its reprojection error.
#[derive(Clone, Copy, PartialEq, Eq, Structural, Debug)]
pub struct FiducialPoseObservation {
    pub tag_id: u64,
    pub pose_0: Pose,
    pub error_0: Scalar,
    pub pose_1: Pose,
    pub error_1: Scalar,
}

/// The resolver's output: the contributing marker ids, the primary
/// field-to-camera pose with its reprojection error, and, for a single
/// ambiguous marker only, a secondary pose with its error.
#[derive(Clone, Debug)]
pub struct CameraPoseObservation {
    pub tag_ids: Vec<u64>,
    pub pose_0: Pose,
    pub error_0: Scalar,
    pub pose_1: Option<Pose>,
    pub error_1: Option<Scalar>,
}

impl CameraPoseObservation {
    /// A secondary pose comes with its error, and an error with its pose.
    pub open spec fn wf(&self) -> bool {
        self.pose_1.is_some() == self.error_1.is_some()
    }

    pub open spec fn has_secondary(&self) -> bool {
        self.pose_1.is_some()
    }
}

} // verus!
