use vors_session::display::{highlight_candidates, overlay_fits_in, update_kf_data, GrayImage};
use vors_session::error::SessionError;
use vors_session::frames::Association;
use vors_session::geometry::{Frame, Point3, Pose};
use vors_session::session::{WasmTracker, DISPLAY_BYTES};
use vors_session::tracker::{
    create_camera, CameraProfile, Config, TrackerReport, CANDIDATES_DIFF_THRESHOLD, NB_LEVELS,
};

fn pose_at(x: f32) -> Pose {
    Pose {
        translation: Point3 { x: x.to_bits(), y: 0f32.to_bits(), z: 0f32.to_bits() },
        qx: 0f32.to_bits(),
        qy: 0f32.to_bits(),
        qz: 0f32.to_bits(),
        qw: 1f32.to_bits(),
    }
}

fn keyframe(shade: u8) -> GrayImage {
    GrayImage { width: 3, height: 2, pixels: vec![shade, shade + 1, shade + 2, shade + 3, shade + 4, shade + 5] }
}

fn report_of(step: usize) -> TrackerReport {
    TrackerReport {
        frame: Frame { timestamp: (step as f64 * 0.5).to_bits(), pose: pose_at(step as f32) },
        keyframe_img: keyframe(10 * step as u8),
        keyframe_candidates: vec![(step % 3, step % 2), (2, 1)],
        points_3d: vec![],
    }
}

fn table(n: usize) -> Vec<Association> {
    (0..n)
        .map(|i| Association {
            depth_timestamp: (i as f64).to_bits(),
            depth_file_path: format!("depth/{}.png", i),
            color_timestamp: (i as f64).to_bits(),
            color_file_path: format!("rgb/{}.png", i),
        })
        .collect()
}

fn started(n: usize) -> WasmTracker {
    let mut session = WasmTracker::new();
    assert_eq!(session.init("fr1", Some(table(n)), report_of(0)), Ok(n));
    session
}

#[test]
fn create_camera_knows_the_four_profiles() {
    assert_eq!(create_camera("fr1"), Ok(CameraProfile::Fr1));
    assert_eq!(create_camera("fr2"), Ok(CameraProfile::Fr2));
    assert_eq!(create_camera("fr3"), Ok(CameraProfile::Fr3));
    assert_eq!(create_camera("icl"), Ok(CameraProfile::IclNuim));
}

#[test]
fn create_camera_rejects_other_identifiers() {
    assert_eq!(create_camera(""), Err(SessionError::UnknownCameraProfile));
    assert_eq!(create_camera("FR1"), Err(SessionError::UnknownCameraProfile));
    assert_eq!(create_camera("fr10"), Err(SessionError::UnknownCameraProfile));
    assert_eq!(create_camera("tum"), Err(SessionError::UnknownCameraProfile));
}

#[test]
fn new_session_is_uninitialized() {
    let session = WasmTracker::new();
    assert!(session.tracker().is_none());
    assert!(!session.change_keyframe());
    assert_eq!(session.nb_frames(), 0);
    assert_eq!(session.nb_keyframes(), 0);
    assert_eq!(session.nb_poses(), 0);
    assert_eq!(session.nb_p3p_poses(), 0);
    assert_eq!(session.memory_pos().len(), 0);
    assert_eq!(DISPLAY_BYTES, 320 * 240 * 4);
    assert_eq!(session.current_keyframe_data().len(), DISPLAY_BYTES);
    assert_eq!(session.reference_keyframe_data().len(), DISPLAY_BYTES);
    assert!(session.current_keyframe_data().iter().all(|b| *b == 0));
    assert!(session.reference_keyframe_data().iter().all(|b| *b == 0));
}

#[test]
fn allocate_and_write_memory() {
    let mut session = WasmTracker::new();
    session.allocate(6);
    assert_eq!(session.memory_pos(), &vec![0, 0, 0, 0, 0, 0]);
    session.write_memory(2, &[7, 8, 9]);
    assert_eq!(session.memory_pos(), &vec![0, 0, 7, 8, 9, 0]);
    session.write_memory(0, &[]);
    assert_eq!(session.memory_pos(), &vec![0, 0, 7, 8, 9, 0]);
    session.allocate(2);
    assert_eq!(session.memory_pos(), &vec![0, 0]);
}

#[test]
fn init_reports_unknown_camera_profile_first_and_changes_nothing() {
    let mut session = WasmTracker::new();
    assert_eq!(session.init("fr9", None, report_of(0)), Err(SessionError::UnknownCameraProfile));
    assert_eq!(session.init("fr9", Some(table(2)), report_of(0)), Err(SessionError::UnknownCameraProfile));
    assert!(session.tracker().is_none());
    assert!(!session.change_keyframe());
    assert_eq!(session.nb_frames(), 0);
    assert_eq!(session.nb_poses(), 0);
    assert_eq!(session.nb_keyframes(), 0);
    assert!(session.current_keyframe_data().iter().all(|b| *b == 0));
}

#[test]
fn init_reports_malformed_association_file_and_changes_nothing() {
    let mut session = WasmTracker::new();
    assert_eq!(session.init("fr2", None, report_of(0)), Err(SessionError::MalformedAssociationFile));
    assert!(session.tracker().is_none());
    assert_eq!(session.nb_frames(), 0);
    assert_eq!(session.nb_poses(), 0);
    assert_eq!(session.nb_keyframes(), 0);
}

#[test]
fn init_seeds_the_histories_and_returns_the_frame_count() {
    let mut session = WasmTracker::new();
    assert_eq!(session.init("icl", Some(table(5)), report_of(0)), Ok(5));
    assert_eq!(session.nb_frames(), 5);
    assert_eq!(session.nb_keyframes(), 1);
    assert_eq!(session.nb_poses(), 1);
    assert_eq!(session.pose_at(0), pose_at(0.0));
    assert_eq!(session.keyframe(0).pixels, vec![0, 1, 2, 3, 4, 5]);
    assert_eq!(session.keyframe(0).width, 3);
    assert_eq!(session.keyframe_candidates(0), &vec![(0, 0), (2, 1)]);
    assert!(session.change_keyframe());
    assert_eq!(session.association(3).depth_file_path, "depth/3.png");
    let tracker = session.tracker().unwrap();
    assert_eq!(
        tracker.config,
        Config { nb_levels: 6, candidates_diff_threshold: 7, camera: CameraProfile::IclNuim }
    );
    assert_eq!(NB_LEVELS, 6);
    assert_eq!(CANDIDATES_DIFF_THRESHOLD, 7);
    assert_eq!(tracker.state.frame.pose, pose_at(0.0));
    // The first keyframe is shown in the current display buffer.
    assert_eq!(
        &session.current_keyframe_data()[0..24],
        &[0, 0, 0, 255, 1, 1, 1, 255, 2, 2, 2, 255, 3, 3, 3, 255, 4, 4, 4, 255, 5, 5, 5, 255]
    );
    assert!(session.current_keyframe_data()[24..].iter().all(|b| *b == 0));
    assert!(session.reference_keyframe_data().iter().all(|b| *b == 0));
}

#[test]
fn pose_history_holds_one_pose_per_track_call_plus_the_seed() {
    let mut session = started(10);
    for step in 1..10 {
        let frame = session.track(step, step % 4 == 0, report_of(step));
        assert_eq!(frame, Frame { timestamp: (step as f64 * 0.5).to_bits(), pose: pose_at(step as f32) });
        assert_eq!(session.nb_poses(), 1 + step);
        assert_eq!(session.pose_at(step), pose_at(step as f32));
    }
    assert_eq!(session.pose_at(0), pose_at(0.0));
}

#[test]
fn track_appends_keyframe_and_candidates_only_on_change() {
    let mut session = started(4);
    session.track(1, false, report_of(1));
    assert!(!session.change_keyframe());
    assert_eq!(session.nb_keyframes(), 1);
    session.track(2, true, report_of(2));
    assert!(session.change_keyframe());
    assert_eq!(session.nb_keyframes(), 2);
    assert_eq!(session.keyframe(1).pixels, vec![20, 21, 22, 23, 24, 25]);
    assert_eq!(session.keyframe_candidates(1), &vec![(2, 0), (2, 1)]);
    assert_eq!(session.keyframe_candidates(0), &vec![(0, 0), (2, 1)]);
    session.track(3, false, report_of(3));
    assert_eq!(session.nb_keyframes(), 2);
    assert_eq!(session.tracker().unwrap().state.frame.pose, pose_at(3.0));
    assert_eq!(session.tracker().unwrap().config.camera, CameraProfile::Fr1);
    // Tracking does not touch the display buffers.
    assert_eq!(&session.current_keyframe_data()[0..4], &[0, 0, 0, 255]);
}

#[test]
fn every_keyframe_has_its_candidate_set() {
    let mut session = started(8);
    for step in 1..8 {
        session.track(step, step % 2 == 1, report_of(step));
        for index in 0..session.nb_keyframes() {
            assert_eq!(session.keyframe_candidates(index).len(), 2);
        }
    }
    assert_eq!(session.nb_keyframes(), 5);
    session.reset_at(2, 3, 2, report_of(2));
    assert_eq!(session.nb_keyframes(), 2);
    assert_eq!(session.keyframe_candidates(1), &vec![(1, 1), (2, 1)]);
}

#[test]
fn reset_at_truncates_histories_and_restarts_at_the_base_pose() {
    let mut session = started(8);
    for step in 1..6 {
        session.track(step, step % 2 == 0, report_of(step));
    }
    assert_eq!(session.nb_poses(), 6);
    assert_eq!(session.nb_keyframes(), 3);
    let mut rebuilt = report_of(7);
    rebuilt.frame.pose = pose_at(99.0);
    session.reset_at(2, 3, 2, rebuilt);
    assert_eq!(session.nb_poses(), 4);
    assert_eq!(session.nb_keyframes(), 2);
    assert_eq!(session.pose_at(3), pose_at(3.0));
    assert_eq!(session.keyframe(1).pixels, vec![20, 21, 22, 23, 24, 25]);
    assert!(session.change_keyframe());
    // The tracker restarts at the historical pose of the base frame.
    let tracker = session.tracker().unwrap();
    assert_eq!(tracker.state.frame.pose, pose_at(2.0));
    assert_eq!(tracker.state.frame.timestamp, 3.5f64.to_bits());
    assert_eq!(tracker.state.keyframe_img.pixels, vec![70, 71, 72, 73, 74, 75]);
    assert_eq!(tracker.config.camera, CameraProfile::Fr1);
    // Its keyframe is shown in the current display buffer.
    assert_eq!(&session.current_keyframe_data()[0..8], &[70, 70, 70, 255, 71, 71, 71, 255]);
}

#[test]
fn reset_at_can_keep_everything_or_no_keyframe() {
    let mut session = started(4);
    session.track(1, true, report_of(1));
    session.reset_at(1, 1, 2, report_of(1));
    assert_eq!(session.nb_poses(), 2);
    assert_eq!(session.nb_keyframes(), 2);
    session.reset_at(0, 0, 0, report_of(0));
    assert_eq!(session.nb_poses(), 1);
    assert_eq!(session.nb_keyframes(), 0);
    assert!(session.tracker().is_some());
}

#[test]
fn rewind_and_replay_reproduces_the_histories() {
    let mut session = started(10);
    session.track(1, false, report_of(1));
    session.track(2, true, report_of(2));
    // The session stands at frame 2 with 2 keyframes.
    let changes = [false, true, false, true];
    for (i, change) in changes.iter().enumerate() {
        session.track(3 + i, *change, report_of(3 + i));
    }
    let poses: Vec<Pose> = (0..session.nb_poses()).map(|i| session.pose_at(i)).collect();
    let keyframes: Vec<Vec<u8>> = (0..session.nb_keyframes()).map(|i| session.keyframe(i).pixels.clone()).collect();
    let candidates: Vec<Vec<(usize, usize)>> =
        (0..session.nb_keyframes()).map(|i| session.keyframe_candidates(i).clone()).collect();
    assert_eq!(poses.len(), 7);
    assert_eq!(keyframes.len(), 4);

    session.reset_at(2, 2, 2, report_of(2));
    assert_eq!(session.nb_poses(), 3);
    assert_eq!(session.nb_keyframes(), 2);
    for (i, change) in changes.iter().enumerate() {
        session.track(3 + i, *change, report_of(3 + i));
    }
    assert_eq!(session.nb_poses(), 7);
    assert_eq!(session.nb_keyframes(), 4);
    let poses_again: Vec<Pose> = (0..session.nb_poses()).map(|i| session.pose_at(i)).collect();
    let keyframes_again: Vec<Vec<u8>> =
        (0..session.nb_keyframes()).map(|i| session.keyframe(i).pixels.clone()).collect();
    let candidates_again: Vec<Vec<(usize, usize)>> =
        (0..session.nb_keyframes()).map(|i| session.keyframe_candidates(i).clone()).collect();
    assert_eq!(poses_again, poses);
    assert_eq!(keyframes_again, keyframes);
    assert_eq!(candidates_again, candidates);
}

#[test]
fn pick_current_kf_data_expands_gray_to_four_channels() {
    let mut session = started(3);
    session.track(1, true, report_of(1));
    session.pick_current_kf_data(1);
    assert_eq!(
        &session.current_keyframe_data()[0..24],
        &[10, 10, 10, 255, 11, 11, 11, 255, 12, 12, 12, 255, 13, 13, 13, 255, 14, 14, 14, 255, 15, 15, 15, 255]
    );
    assert!(session.current_keyframe_data()[24..].iter().all(|b| *b == 0));
    assert!(session.reference_keyframe_data().iter().all(|b| *b == 0));
}

#[test]
fn pick_current_kf_data_twice_gives_identical_buffers() {
    let mut session = started(3);
    session.track(1, true, report_of(1));
    session.pick_current_kf_data(1);
    let once = session.current_keyframe_data().clone();
    session.pick_current_kf_data(1);
    assert_eq!(session.current_keyframe_data(), &once);
    session.pick_current_kf_data(0);
    session.pick_current_kf_data(0);
    assert_eq!(&session.current_keyframe_data()[0..4], &[0, 0, 0, 255]);
    assert_eq!(&session.current_keyframe_data()[24..], &once[24..]);
}

#[test]
fn pick_reference_kf_data_highlights_candidates_in_red() {
    let mut session = started(3);
    session.track(1, true, report_of(1));
    assert!(session.can_pick_reference(1));
    session.pick_reference_kf_data(1);
    // Candidates of keyframe 1 are (1, 1) and (2, 1): pixels 4 and 5 of a row of 3.
    assert_eq!(
        &session.reference_keyframe_data()[0..24],
        &[10, 10, 10, 255, 11, 11, 11, 255, 12, 12, 12, 255, 13, 13, 13, 255, 255, 0, 0, 255, 255, 0, 0, 255]
    );
    assert!(session.reference_keyframe_data()[24..].iter().all(|b| *b == 0));
    assert_eq!(&session.current_keyframe_data()[0..4], &[0, 0, 0, 255]);
}

#[test]
fn can_pick_reference_refuses_candidates_beyond_the_buffer() {
    let mut session = WasmTracker::new();
    let mut first = report_of(0);
    first.keyframe_img = GrayImage { width: 320, height: 241, pixels: vec![1; 320 * 241] };
    first.keyframe_candidates = vec![(319, 239), (0, 240)];
    assert_eq!(session.init("fr1", Some(table(1)), first), Ok(1));
    assert!(!session.can_pick_reference(0));
    let mut second = report_of(1);
    second.keyframe_img = GrayImage { width: 320, height: 240, pixels: vec![1; 320 * 240] };
    second.keyframe_candidates = vec![(319, 239)];
    session.track(0, true, second);
    assert!(session.can_pick_reference(1));
    session.pick_reference_kf_data(1);
    assert_eq!(&session.reference_keyframe_data()[DISPLAY_BYTES - 4..], &[255, 0, 0, 255]);
    assert_eq!(&session.reference_keyframe_data()[DISPLAY_BYTES - 8..DISPLAY_BYTES - 4], &[1, 1, 1, 255]);
}

#[test]
fn update_kf_data_stops_at_the_shorter_of_image_and_buffer() {
    let mut buffer = vec![9u8; 8];
    update_kf_data(&mut buffer, &GrayImage { width: 3, height: 1, pixels: vec![1, 2, 3] });
    assert_eq!(buffer, vec![1, 1, 1, 255, 2, 2, 2, 255]);
    let mut buffer = vec![9u8; 10];
    update_kf_data(&mut buffer, &GrayImage { width: 1, height: 1, pixels: vec![5] });
    assert_eq!(buffer, vec![5, 5, 5, 255, 9, 9, 9, 9, 9, 9]);
    let mut buffer: Vec<u8> = vec![];
    update_kf_data(&mut buffer, &GrayImage { width: 1, height: 1, pixels: vec![5] });
    assert_eq!(buffer, Vec::<u8>::new());
}

#[test]
fn highlight_candidates_leaves_opacity_and_other_cells() {
    let mut buffer: Vec<u8> = (0..24).collect();
    assert!(overlay_fits_in(buffer.len(), 3, &vec![(1, 0), (2, 1), (1, 0)]));
    highlight_candidates(&mut buffer, 3, &vec![(1, 0), (2, 1), (1, 0)]);
    assert_eq!(
        buffer,
        vec![0, 1, 2, 3, 255, 0, 0, 7, 8, 9, 10, 11, 12, 13, 14, 15, 16, 17, 18, 19, 255, 0, 0, 23]
    );
    assert!(!overlay_fits_in(24, 3, &vec![(0, 2)]));
    assert!(overlay_fits_in(23, 3, &vec![(2, 1)]));
    assert!(!overlay_fits_in(22, 3, &vec![(2, 1)]));
    assert!(overlay_fits_in(0, 3, &vec![]));
    assert!(!overlay_fits_in(2, 3, &vec![(0, 0)]));
    assert!(!overlay_fits_in(100, usize::MAX, &vec![(usize::MAX, usize::MAX)]));
}
