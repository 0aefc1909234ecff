use vors_session::camera_path::CameraPath;
use vors_session::error::SessionError;
use vors_session::display::GrayImage;
use vors_session::frames::Association;
use vors_session::geometry::{Frame, Point3, Pose};
use vors_session::point_cloud::{PointCloud, Section};
use vors_session::session::WasmTracker;
use vors_session::tracker::TrackerReport;

fn point(x: f32, y: f32, z: f32) -> Point3 {
    Point3 { x: x.to_bits(), y: y.to_bits(), z: z.to_bits() }
}

fn pose(x: f32, y: f32, z: f32) -> Pose {
    Pose {
        translation: point(x, y, z),
        qx: 0f32.to_bits(),
        qy: 0f32.to_bits(),
        qz: 0f32.to_bits(),
        qw: 1f32.to_bits(),
    }
}

fn report(timestamp: f64, at: Pose, points_3d: Vec<Point3>) -> TrackerReport {
    TrackerReport {
        frame: Frame { timestamp: timestamp.to_bits(), pose: at },
        keyframe_img: GrayImage { width: 2, height: 1, pixels: vec![10, 20] },
        keyframe_candidates: vec![(1, 0)],
        points_3d,
    }
}

fn associations(n: usize) -> Vec<Association> {
    (0..n)
        .map(|i| Association {
            depth_timestamp: (i as f64).to_bits(),
            depth_file_path: format!("depth/{}.png", i),
            color_timestamp: (i as f64).to_bits(),
            color_file_path: format!("rgb/{}.png", i),
        })
        .collect()
}

fn tracking_session(n: usize, first: TrackerReport) -> WasmTracker {
    let mut session = WasmTracker::new();
    assert_eq!(session.init("fr1", Some(associations(n)), first), Ok(n));
    session
}

fn floats(bits: &[u32]) -> Vec<f32> {
    bits.iter().map(|b| f32::from_bits(*b)).collect()
}

#[test]
fn point_cloud_new_is_empty_and_zeroed() {
    let cloud = PointCloud::new(4);
    assert_eq!(cloud.points().len(), 12);
    assert!(cloud.points().iter().all(|v| *v == 0));
    assert_eq!(cloud.end(), 0);
    assert_eq!(cloud.nb_sections(), 0);
}

#[test]
fn point_cloud_reset_kf_zero_fails_with_empty_section_history() {
    let mut cloud = PointCloud::new(4);
    assert_eq!(cloud.reset_kf(0), Err(SessionError::EmptySectionHistory));
    assert_eq!(cloud.end(), 0);
    assert_eq!(cloud.nb_sections(), 0);
}

#[test]
fn point_cloud_reset_kf_zero_fails_and_keeps_sections() {
    let mut cloud = PointCloud::new(4);
    cloud.push_section(&vec![point(1.0, 2.0, 3.0)]);
    assert_eq!(cloud.reset_kf(0), Err(SessionError::EmptySectionHistory));
    assert_eq!(cloud.end(), 3);
    assert_eq!(cloud.nb_sections(), 1);
}

#[test]
fn point_cloud_push_section_lays_points_out_flat() {
    let mut cloud = PointCloud::new(4);
    let end = cloud.push_section(&vec![point(1.0, 2.0, 3.0), point(4.0, 5.0, 6.0)]);
    assert_eq!(end, 6);
    assert_eq!(cloud.section(0), Section { start: 0, end: 6 });
    assert_eq!(floats(&cloud.points()[0..6]), vec![1.0, 2.0, 3.0, 4.0, 5.0, 6.0]);
    assert!(cloud.points()[6..].iter().all(|v| *v == 0));
    let end = cloud.push_section(&vec![point(7.0, 8.0, 9.0)]);
    assert_eq!(end, 9);
    assert_eq!(cloud.section(1), Section { start: 6, end: 9 });
    assert_eq!(floats(&cloud.points()[6..9]), vec![7.0, 8.0, 9.0]);
    assert_eq!(floats(&cloud.points()[0..6]), vec![1.0, 2.0, 3.0, 4.0, 5.0, 6.0]);
}

#[test]
fn point_cloud_empty_section_is_recorded() {
    let mut cloud = PointCloud::new(1);
    assert_eq!(cloud.push_section(&vec![]), 0);
    assert_eq!(cloud.section(0), Section { start: 0, end: 0 });
    assert_eq!(cloud.reset_kf(1), Ok(0));
}

#[test]
fn point_cloud_reset_kf_truncates_to_the_last_kept_section() {
    let mut cloud = PointCloud::new(6);
    cloud.push_section(&vec![point(1.0, 1.0, 1.0)]);
    cloud.push_section(&vec![point(2.0, 2.0, 2.0), point(3.0, 3.0, 3.0)]);
    cloud.push_section(&vec![point(4.0, 4.0, 4.0)]);
    assert_eq!(cloud.end(), 12);
    assert_eq!(cloud.reset_kf(2), Ok(9));
    assert_eq!(cloud.nb_sections(), 2);
    assert_eq!(cloud.end(), 9);
    assert_eq!(cloud.section(1), Section { start: 3, end: 9 });
    assert_eq!(cloud.reset_kf(1), Ok(3));
    assert_eq!(cloud.nb_sections(), 1);
    // The next section starts where the rewind left the end.
    assert_eq!(cloud.push_section(&vec![point(5.0, 5.0, 5.0)]), 6);
    assert_eq!(cloud.section(1), Section { start: 3, end: 6 });
    assert_eq!(floats(&cloud.points()[3..6]), vec![5.0, 5.0, 5.0]);
}

#[test]
fn point_cloud_sections_never_overlap() {
    let mut cloud = PointCloud::new(10);
    for n in [2usize, 0, 3, 1] {
        cloud.push_section(&vec![point(1.0, 1.0, 1.0); n]);
    }
    for i in 0..cloud.nb_sections() {
        let s = cloud.section(i);
        assert!(s.start <= s.end);
        if i > 0 {
            assert!(cloud.section(i - 1).end <= s.start);
        }
    }
}

#[test]
fn point_cloud_tick_records_only_on_keyframe_change() {
    let mut session = tracking_session(3, report(0.0, pose(0.0, 0.0, 0.0), vec![point(1.0, 2.0, 3.0)]));
    let mut cloud = PointCloud::new(4);
    // Initialization flags a keyframe.
    assert_eq!(cloud.tick(&session), 3);
    assert_eq!(cloud.section(0), Section { start: 0, end: 3 });
    session.track(1, false, report(1.0, pose(1.0, 0.0, 0.0), vec![point(9.0, 9.0, 9.0)]));
    assert_eq!(cloud.tick(&session), 3);
    assert_eq!(cloud.nb_sections(), 1);
    session.track(2, true, report(2.0, pose(2.0, 0.0, 0.0), vec![point(4.0, 5.0, 6.0), point(7.0, 8.0, 9.0)]));
    assert_eq!(cloud.tick(&session), 9);
    assert_eq!(cloud.section(1), Section { start: 3, end: 9 });
    assert_eq!(floats(&cloud.points()[0..9]), vec![1.0, 2.0, 3.0, 4.0, 5.0, 6.0, 7.0, 8.0, 9.0]);
}

#[test]
fn point_cloud_tick_without_tracker_changes_nothing() {
    let session = WasmTracker::new();
    let mut cloud = PointCloud::new(2);
    assert_eq!(cloud.tick(&session), 0);
    assert_eq!(cloud.nb_sections(), 0);
}

#[test]
fn camera_path_new_is_zeroed() {
    let path = CameraPath::new(3);
    assert_eq!(path.poses().len(), 9);
    assert!(path.poses().iter().all(|v| *v == 0));
    assert_eq!(path.end(), 0);
    assert_eq!(path.nb_keyframes(), 0);
}

#[test]
fn camera_path_tick_writes_translation_and_advances_by_three() {
    let mut session = tracking_session(3, report(0.0, pose(0.5, 1.5, 2.5), vec![]));
    let mut path = CameraPath::new(3);
    session.track(1, false, report(1.0, pose(1.0, 2.0, 3.0), vec![]));
    path.tick(&session);
    assert_eq!(path.end(), 3);
    assert_eq!(floats(&path.poses()[0..3]), vec![1.0, 2.0, 3.0]);
    assert_eq!(path.nb_keyframes(), 0);
    session.track(2, true, report(2.0, pose(4.0, 5.0, 6.0), vec![]));
    path.tick(&session);
    assert_eq!(path.end(), 6);
    assert_eq!(floats(&path.poses()[0..6]), vec![1.0, 2.0, 3.0, 4.0, 5.0, 6.0]);
    assert_eq!(path.nb_keyframes(), 1);
    assert_eq!(path.index_kf(0), 1);
}

#[test]
fn camera_path_keyframe_offsets_increase_and_follow_the_session() {
    let mut session = tracking_session(8, report(0.0, pose(0.0, 0.0, 0.0), vec![]));
    let mut path = CameraPath::new(8);
    let changes = [false, true, false, true, true, false, true];
    for (i, change) in changes.iter().enumerate() {
        session.track(i + 1, *change, report(i as f64, pose(i as f32, 0.0, 0.0), vec![]));
        path.tick(&session);
        assert_eq!(path.nb_keyframes(), session.nb_keyframes() - 1);
    }
    assert_eq!(path.nb_keyframes(), 4);
    let ticks: Vec<usize> = (0..4).map(|k| path.index_kf(k)).collect();
    assert_eq!(ticks, vec![1, 3, 4, 6]);
    for k in 1..ticks.len() {
        assert!(ticks[k - 1] < ticks[k]);
    }
}

#[test]
fn camera_path_reset_kf_returns_the_tick_before_the_keyframe() {
    let mut session = tracking_session(8, report(0.0, pose(0.0, 0.0, 0.0), vec![]));
    let mut path = CameraPath::new(8);
    let changes = [false, true, false, true, false];
    for (i, change) in changes.iter().enumerate() {
        session.track(i + 1, *change, report(i as f64, pose(i as f32, 0.0, 0.0), vec![]));
        path.tick(&session);
    }
    assert_eq!(path.end(), 15);
    assert_eq!(path.index_kf(1), 3);
    assert_eq!(path.reset_kf(1), 2);
    assert_eq!(path.end(), 9);
    assert_eq!(path.nb_keyframes(), 1);
    assert_eq!(path.index_kf(0), 1);
    // Recording resumes at the rewound offset.
    session.track(4, true, report(9.0, pose(7.0, 8.0, 9.0), vec![]));
    path.tick(&session);
    assert_eq!(floats(&path.poses()[9..12]), vec![7.0, 8.0, 9.0]);
    assert_eq!(path.index_kf(1), 3);
    assert_eq!(path.end(), 12);
}

#[test]
fn recorders_know_when_they_are_full() {
    let mut cloud = PointCloud::new(2);
    assert!(cloud.has_room(2));
    assert!(!cloud.has_room(3));
    assert!(!cloud.has_room(usize::MAX));
    cloud.push_section(&vec![point(1.0, 1.0, 1.0)]);
    assert!(cloud.has_room(1));
    assert!(cloud.has_room(0));
    assert!(!cloud.has_room(2));

    let mut session = tracking_session(3, report(0.0, pose(0.0, 0.0, 0.0), vec![]));
    let mut path = CameraPath::new(1);
    assert!(path.has_room());
    session.track(1, false, report(1.0, pose(1.0, 0.0, 0.0), vec![]));
    path.tick(&session);
    assert!(!path.has_room());
}

#[test]
fn camera_path_follows_the_session_through_a_rewind() {
    let mut session = tracking_session(8, report(0.0, pose(0.0, 0.0, 0.0), vec![]));
    let mut path = CameraPath::new(8);
    let changes = [false, true, false, true, false];
    for (i, change) in changes.iter().enumerate() {
        session.track(i + 1, *change, report(i as f64, pose(i as f32, 0.0, 0.0), vec![]));
        path.tick(&session);
    }
    assert_eq!(session.nb_keyframes(), 3);
    assert_eq!(path.nb_keyframes(), 2);
    // Rewind to before the keyframe that began at tick 3: the tracker is
    // rebuilt on the keyframe before it.
    let last_tracked_tick = path.reset_kf(1);
    assert_eq!(last_tracked_tick, 2);
    session.reset_at(2, 3, 2, report(2.0, pose(2.0, 0.0, 0.0), vec![]));
    assert_eq!(path.nb_keyframes(), session.nb_keyframes() - 1);
    session.track(4, true, report(4.0, pose(4.0, 0.0, 0.0), vec![]));
    path.tick(&session);
    assert_eq!(path.nb_keyframes(), session.nb_keyframes() - 1);
    assert_eq!(path.index_kf(1), 3);
}
