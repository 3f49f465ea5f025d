use watson_vision::geometry::{Pose, Quat, Scalar, Vec3};
use watson_vision::resolver::{
    MatchedFiducial, MultiTargetCameraPoseEstimator, PnpSolver, PoseHypothesis, SolverKind, Tag, TagLayout,
};
use watson_vision::types::FiducialImageObservation;

fn s(x: f64) -> Scalar {
    Scalar { bits: x.to_bits() }
}

fn pose(x: f64) -> Pose {
    Pose {
        translation: Vec3 { x: s(x), y: s(0.0), z: s(0.0) },
        rotation: Quat { w: s(1.0), x: s(0.0), y: s(0.0), z: s(0.0) },
    }
}

fn obs(id: u64) -> FiducialImageObservation {
    FiducialImageObservation { tag_id: id, corners: [[s(id as f64), s(1.0)]; 4] }
}

fn layout() -> TagLayout {
    TagLayout {
        tags: vec![Tag { id: 1, pose: pose(10.0) }, Tag { id: 2, pose: pose(20.0) }, Tag { id: 1, pose: pose(99.0) }],
    }
}

struct Scripted {
    answer: Option<Vec<PoseHypothesis>>,
    calls: Vec<(SolverKind, usize)>,
}

impl PnpSolver for Scripted {
    fn solve(&mut self, kind: SolverKind, matched: &Vec<MatchedFiducial>) -> Option<Vec<PoseHypothesis>> {
        self.calls.push((kind, matched.len()));
        self.answer.clone()
    }
}

fn hyp(x: f64, e: f64) -> PoseHypothesis {
    PoseHypothesis { pose: pose(x), error: s(e) }
}

fn scripted(answer: Option<Vec<PoseHypothesis>>) -> Scripted {
    Scripted { answer, calls: Vec::new() }
}

#[test]
fn layout_finds_first_marker_with_id() {
    assert_eq!(layout().find(1), Some(pose(10.0)));
    assert_eq!(layout().find(2), Some(pose(20.0)));
    assert_eq!(layout().find(3), None);
}

#[test]
fn unknown_markers_are_dropped() {
    let m = MultiTargetCameraPoseEstimator.match_observations(&vec![obs(7), obs(2), obs(9), obs(1)], &layout());
    let ids: Vec<u64> = m.iter().map(|f| f.tag_id).collect();
    assert_eq!(ids, vec![2, 1]);
    assert_eq!(m[0].tag_pose, pose(20.0));
    assert_eq!(m[1].tag_pose, pose(10.0));
    assert_eq!(m[0].corners[0][0], s(2.0));
}

#[test]
fn nothing_matched_gives_nothing() {
    let mut solver = scripted(Some(vec![hyp(1.0, 0.1), hyp(2.0, 0.2)]));
    let mut est = MultiTargetCameraPoseEstimator;
    assert!(est.solve_camera_pose(vec![], &layout(), &mut solver).is_none());
    assert!(est.solve_camera_pose(vec![obs(5), obs(6)], &layout(), &mut solver).is_none());
    assert!(solver.calls.is_empty());
}

#[test]
fn single_marker_reports_both_hypotheses() {
    let mut solver = scripted(Some(vec![hyp(1.0, 0.1), hyp(2.0, 0.2)]));
    let r = MultiTargetCameraPoseEstimator.solve_camera_pose(vec![obs(2), obs(4)], &layout(), &mut solver).unwrap();
    assert_eq!(solver.calls, vec![(SolverKind::SquarePlanar, 1)]);
    assert_eq!(r.tag_ids, vec![2]);
    assert_eq!(r.pose_0, pose(1.0));
    assert_eq!(r.error_0, s(0.1));
    assert_eq!(r.pose_1, Some(pose(2.0)));
    assert_eq!(r.error_1, Some(s(0.2)));
}

#[test]
fn single_marker_with_one_hypothesis_gives_nothing() {
    let mut solver = scripted(Some(vec![hyp(1.0, 0.1)]));
    assert!(MultiTargetCameraPoseEstimator.solve_camera_pose(vec![obs(1)], &layout(), &mut solver).is_none());
}

#[test]
fn several_markers_report_primary_only() {
    let mut solver = scripted(Some(vec![hyp(3.0, 0.3), hyp(4.0, 0.4)]));
    let r = MultiTargetCameraPoseEstimator
        .solve_camera_pose(vec![obs(1), obs(8), obs(2)], &layout(), &mut solver)
        .unwrap();
    assert_eq!(solver.calls, vec![(SolverKind::MultiPoint, 2)]);
    assert_eq!(r.tag_ids, vec![1, 2]);
    assert_eq!(r.pose_0, pose(3.0));
    assert_eq!(r.error_0, s(0.3));
    assert_eq!(r.pose_1, None);
    assert_eq!(r.error_1, None);
}

#[test]
fn solver_failure_gives_nothing() {
    let mut solver = scripted(None);
    assert!(MultiTargetCameraPoseEstimator.solve_camera_pose(vec![obs(1)], &layout(), &mut solver).is_none());
    let mut solver = scripted(Some(vec![]));
    assert!(MultiTargetCameraPoseEstimator.solve_camera_pose(vec![obs(1), obs(2)], &layout(), &mut solver).is_none());
}

#[test]
fn solver_kind_by_count() {
    assert_eq!(SolverKind::for_count(0), None);
    assert_eq!(SolverKind::for_count(1), Some(SolverKind::SquarePlanar));
    assert_eq!(SolverKind::for_count(5), Some(SolverKind::MultiPoint));
}

#[test]
fn assemble_takes_hypotheses_in_order() {
    let matched = MultiTargetCameraPoseEstimator.match_observations(&vec![obs(2)], &layout());
    let r = MultiTargetCameraPoseEstimator::assemble(&matched, Some(vec![hyp(5.0, 0.5), hyp(6.0, 0.6), hyp(7.0, 0.7)]))
        .unwrap();
    assert_eq!(r.pose_0, pose(5.0));
    assert_eq!(r.pose_1, Some(pose(6.0)));
}

#[test]
fn corner_offsets_follow_winding_order() {
    let c = watson_vision::resolver::corner_offsets(s(0.05));
    let f = |x: Scalar| f64::from_bits(x.bits);
    let got: Vec<(f64, f64, f64)> = c.iter().map(|v| (f(v.x), f(v.y), f(v.z))).collect();
    assert_eq!(got, vec![(0.0, 0.05, -0.05), (0.0, -0.05, -0.05), (0.0, -0.05, 0.05), (0.0, 0.05, 0.05)]);
    assert_eq!(c[0].x.bits, 0);
}
