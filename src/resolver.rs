//! Fiducial-to-pose resolution: matches the markers seen in a frame against
//! the field layout, picks the solver variant for the number of markers
//! matched, and turns the solver's hypotheses into a camera pose
//! observation.
use vstd::prelude::*;
use crate::geometry::{neg, Pose, Scalar, Vec3};
use crate::types::{CameraPoseObservation, FiducialImageObservation};

verus! {

/// A marker of the field layout and its pose in field coordinates.
#[derive(Clone, Copy, PartialEq, Eq, Structural, Debug)]
pub struct Tag {
    pub id: u64,
    pub pose: Pose,
}

/// The known field layout.
#[derive(Clone, Debug)]
pub struct TagLayout {
    pub tags: Vec<Tag>,
}

/// An observation whose marker the layout knows, with that marker's pose.
#[derive(Clone, Copy, Debug)]
pub struct MatchedFiducial {
    pub tag_id: u64,
    pub tag_pose: Pose,
    pub corners: [[Scalar; 2]; 4],
}

/// The pose-solver variant to run.
#[derive(Clone, Copy, PartialEq, Eq, Structural, Debug)]
pub enum SolverKind {
    /// The square planar variant that returns the two hypotheses of a single
    /// square marker.
    SquarePlanar,
    /// The general variant on points spread over several markers, which
    /// returns one camera-to-field transform.
    MultiPoint,
}

/// A field-to-camera pose hypothesis with its reprojection error.
#[derive(Clone, Copy, PartialEq, Eq, Structural, Debug)]
pub struct PoseHypothesis {
    pub pose: Pose,
    pub error: Scalar,
}

/// The numerical pose solver. Given the matched markers (their field poses
/// and pixel corners) and the variant to run, it returns the field-to-camera
/// hypotheses it found, first the best, or `None` when it fails.
pub trait PnpSolver {
    fn solve(&mut self, kind: SolverKind, matched: &Vec<MatchedFiducial>) -> Option<Vec<PoseHypothesis>>
        requires
            matched@.len() > 0,
            kind == solver_kind_for(matched@.len()),
    ;
}

/// The pose of the first marker of the layout with id `id`.
pub open spec fn layout_pose(tags: Seq<Tag>, id: u64) -> Option<Pose>
    decreases tags.len(),
{
    if tags.len() == 0 {
        None
    } else if tags[0].id == id {
        Some(tags[0].pose)
    } else {
        layout_pose(tags.drop_first(), id)
    }
}

/// The observations whose marker the layout knows, in order, each with its
/// marker's pose.
pub open spec fn matched_spec(obs: Seq<FiducialImageObservation>, tags: Seq<Tag>) -> Seq<MatchedFiducial>
    decreases obs.len(),
{
    if obs.len() == 0 {
        Seq::empty()
    } else {
        let prev = matched_spec(obs.drop_last(), tags);
        match layout_pose(tags, obs.last().tag_id) {
            Some(p) => prev.push(
                MatchedFiducial { tag_id: obs.last().tag_id, tag_pose: p, corners: obs.last().corners },
            ),
            None => prev,
        }
    }
}

/// The ids of the matched markers.
pub open spec fn matched_ids(m: Seq<MatchedFiducial>) -> Seq<u64> {
    m.map_values(|f: MatchedFiducial| f.tag_id)
}

/// The variant for `n` matched markers: none for none, the square planar
/// one for one, the multi-point one for more.
pub open spec fn solver_kind_for(n: nat) -> SolverKind {
    if n == 1 {
        SolverKind::SquarePlanar
    } else {
        SolverKind::MultiPoint
    }
}

/// How many hypotheses the variant must return for the result to be used.
pub open spec fn hypotheses_needed(n: nat) -> nat {
    if n == 1 {
        2
    } else {
        1
    }
}

/// The hypotheses of a solver outcome, as a sequence.
pub open spec fn outcome_view(outcome: Option<Vec<PoseHypothesis>>) -> Option<Seq<PoseHypothesis>> {
    match outcome {
        Some(h) => Some(h@),
        None => None,
    }
}

/// What resolution gives for the matched markers `m` and the solver outcome
/// `outcome`: nothing when nothing matched, the solver failed or returned
/// too few hypotheses; for one marker its two hypotheses as primary and
/// secondary; for several, the single hypothesis as primary.
pub open spec fn resolves_to(
    m: Seq<MatchedFiducial>,
    outcome: Option<Seq<PoseHypothesis>>,
    r: Option<CameraPoseObservation>,
) -> bool {
    if m.len() == 0 || outcome is None || outcome.unwrap().len() < hypotheses_needed(m.len()) {
        r is None
    } else {
        let h = outcome.unwrap();
        &&& r is Some
        &&& r.unwrap().tag_ids@ == matched_ids(m)
        &&& r.unwrap().pose_0 == h[0].pose
        &&& r.unwrap().error_0 == h[0].error
        &&& if m.len() == 1 {
            r.unwrap().pose_1 == Some(h[1].pose) && r.unwrap().error_1 == Some(h[1].error)
        } else {
            r.unwrap().pose_1 is None && r.unwrap().error_1 is None
        }
    }
}

proof fn lemma_layout_pose_skip(tags: Seq<Tag>, i: int, id: u64)
    requires
        0 <= i < tags.len(),
        tags[i].id != id,
    ensures
        layout_pose(tags.subrange(i, tags.len() as int), id) == layout_pose(
            tags.subrange(i + 1, tags.len() as int),
            id,
        ),
{
    assert(tags.subrange(i, tags.len() as int).drop_first() =~= tags.subrange(i + 1, tags.len() as int));
}

/// Positive zero.
pub open spec fn zero() -> Scalar {
    Scalar { bits: 0 }
}

/// The corners of a marker of half edge length `h` in its own frame, in the
/// detector's winding order: the marker lies in its local Y-Z plane, at
/// `(0, h, -h)`, `(0, -h, -h)`, `(0, -h, h)`, `(0, h, h)`.
pub open spec fn corner_offsets_spec(h: Scalar) -> Seq<Vec3> {
    seq![
        Vec3 { x: zero(), y: h, z: neg(h) },
        Vec3 { x: zero(), y: neg(h), z: neg(h) },
        Vec3 { x: zero(), y: neg(h), z: h },
        Vec3 { x: zero(), y: h, z: h },
    ]
}

/// The marker-frame corner offsets for a marker whose half edge length is
/// `half_size`; the field-frame corners are the marker's pose applied to
/// them.
pub fn corner_offsets(half_size: Scalar) -> (r: [Vec3; 4])
    ensures
        r@ == corner_offsets_spec(half_size),
{
    let z = Scalar { bits: 0 };
    let m = half_size.negate();
    let r = [
        Vec3 { x: z, y: half_size, z: m },
        Vec3 { x: z, y: m, z: m },
        Vec3 { x: z, y: m, z: half_size },
        Vec3 { x: z, y: half_size, z: half_size },
    ];
    assert(r@ =~= corner_offsets_spec(half_size));
    r
}

impl TagLayout {
    /// The field pose of the first marker with id `id`, if the layout has one.
    pub fn find(&self, id: u64) -> (r: Option<Pose>)
        ensures
            r == layout_pose(self.tags@, id),
    {
        let n = self.tags.len();
        let mut i: usize = 0;
        assert(self.tags@.subrange(0, n as int) =~= self.tags@);
        while i < n
            invariant
                n == self.tags@.len(),
                i <= n,
                layout_pose(self.tags@, id) == layout_pose(self.tags@.subrange(i as int, n as int), id),
            decreases n - i,
        {
            if self.tags[i].id == id {
                return Some(self.tags[i].pose);
            }
            proof {
                lemma_layout_pose_skip(self.tags@, i as int, id);
            }
            i = i + 1;
        }
        None
    }
}

impl SolverKind {
    /// The variant for `n` matched markers, or `None` when there are none.
    pub fn for_count(n: usize) -> (r: Option<SolverKind>)
        ensures
            n == 0 ==> r is None,
            n > 0 ==> r == Some(solver_kind_for(n as nat)),
    {
        if n == 0 {
            None
        } else if n == 1 {
            Some(SolverKind::SquarePlanar)
        } else {
            Some(SolverKind::MultiPoint)
        }
    }
}

/// The stateless resolver for any number of markers.
#[derive(Clone, Copy, PartialEq, Eq, Structural, Debug, Default)]
pub struct MultiTargetCameraPoseEstimator;

impl MultiTargetCameraPoseEstimator {
    /// Keeps the observations whose marker the layout knows, in order, each
    /// with its marker's field pose.
    pub fn match_observations(
        &self,
        image_observations: &Vec<FiducialImageObservation>,
        layout: &TagLayout,
    ) -> (r: Vec<MatchedFiducial>)
        ensures
            r@ == matched_spec(image_observations@, layout.tags@),
    {
        let mut out: Vec<MatchedFiducial> = Vec::new();
        let mut i: usize = 0;
        while i < image_observations.len()
            invariant
                i <= image_observations@.len(),
                out@ == matched_spec(image_observations@.subrange(0, i as int), layout.tags@),
            decreases image_observations@.len() - i,
        {
            let observation = image_observations[i];
            proof {
                let s = image_observations@.subrange(0, i + 1);
                assert(s.drop_last() =~= image_observations@.subrange(0, i as int));
                assert(s.last() == observation);
            }
            match layout.find(observation.tag_id) {
                Some(tag_pose) => {
                    out.push(
                        MatchedFiducial {
                            tag_id: observation.tag_id,
                            tag_pose,
                            corners: observation.corners,
                        },
                    );
                },
                None => {},
            }
            i = i + 1;
        }
        assert(image_observations@.subrange(0, image_observations@.len() as int) =~= image_observations@);
        out
    }

    /// Builds the observation from the matched markers and the solver's
    /// outcome (`None` when the solver failed).
    pub fn assemble(matched: &Vec<MatchedFiducial>, outcome: Option<Vec<PoseHypothesis>>) -> (r: Option<
        CameraPoseObservation,
    >)
        ensures
            resolves_to(matched@, outcome_view(outcome), r),
            r matches Some(o) ==> o.wf(),
    {
        let n = matched.len();
        if n == 0 {
            return None;
        }
        let hyps = match outcome {
            Some(h) => h,
            None => return None,
        };
        let needed: usize = if n == 1 { 2 } else { 1 };
        if hyps.len() < needed {
            return None;
        }
        let mut tag_ids: Vec<u64> = Vec::new();
        let mut i: usize = 0;
        while i < n
            invariant
                n == matched@.len(),
                i <= n,
                tag_ids@ == matched_ids(matched@.subrange(0, i as int)),
            decreases n - i,
        {
            tag_ids.push(matched[i].tag_id);
            assert(matched_ids(matched@.subrange(0, i + 1)) =~= matched_ids(matched@.subrange(0, i as int)).push(
                matched@[i as int].tag_id,
            ));
            i = i + 1;
        }
        assert(matched@.subrange(0, n as int) =~= matched@);
        if n == 1 {
            Some(
                CameraPoseObservation {
                    tag_ids,
                    pose_0: hyps[0].pose,
                    error_0: hyps[0].error,
                    pose_1: Some(hyps[1].pose),
                    error_1: Some(hyps[1].error),
                },
            )
        } else {
            Some(
                CameraPoseObservation {
                    tag_ids,
                    pose_0: hyps[0].pose,
                    error_0: hyps[0].error,
                    pose_1: None,
                    error_1: None,
                },
            )
        }
    }

    /// Resolves the camera pose of one frame. Observations of markers that
    /// the layout lacks are dropped; with none left there is no result. With
    /// one marker left the square planar solver runs and, when it returns
    /// both hypotheses, both are reported (primary and secondary); with two
    /// or more the multi-point solver runs and only a primary pose is
    /// reported. A solver failure gives no result.
    pub fn solve_camera_pose<S: PnpSolver>(
        &mut self,
        image_observations: Vec<FiducialImageObservation>,
        layout: &TagLayout,
        solver: &mut S,
    ) -> (r: Option<CameraPoseObservation>)
        ensures
            ({
                let m = matched_spec(image_observations@, layout.tags@);
                &&& m.len() == 0 ==> r is None
                &&& r matches Some(o) ==> {
                    &&& o.wf()
                    &&& o.tag_ids@ == matched_ids(m)
                    &&& m.len() >= 2 ==> o.pose_1 is None
                    &&& (exists|i: int, j: int|
                        0 <= i < m.len() && 0 <= j < m.len() && #[trigger] m[i].tag_id != #[trigger] m[j].tag_id)
                        ==> o.pose_1 is None
                    &&& m.len() == 1 ==> o.pose_1 is Some
                }
            }),
            exists|outcome: Option<Seq<PoseHypothesis>>|
                resolves_to(matched_spec(image_observations@, layout.tags@), outcome, r),
    {
        let matched = self.match_observations(&image_observations, layout);
        let kind = match SolverKind::for_count(matched.len()) {
            Some(k) => k,
            None => {
                assert(resolves_to(matched@, None, None));
                return None;
            },
        };
        let outcome = solver.solve(kind, &matched);
        let r = Self::assemble(&matched, outcome);
        assert(resolves_to(matched@, outcome_view(outcome), r));
        r
    }
}

} // verus!
