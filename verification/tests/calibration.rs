//! Tests for the streaming averager and the calibration engine.

use spoof_detect::averager::MotionAverager;
use spoof_detect::axes::DataPoint;
use spoof_detect::axes::DataPointType;
use spoof_detect::calibration::CalibrationEngine;

#[test]
fn averager_tracks_running_mean() {
    let mut avg = MotionAverager::new(2, 5);
    avg.step(DataPoint { x: 1, y: 2, z: 3 });
    avg.step(DataPoint { x: 2, y: 3, z: 4 });
    avg.step(DataPoint { x: 3, y: 4, z: 5 });
    avg.step(DataPoint { x: 4, y: 5, z: 6 });
    avg.step(DataPoint { x: 5, y: 6, z: 7 });
    let m = avg.mean();
    assert_eq!(m.x, 3);
    assert_eq!(m.y, 4);
    assert_eq!(m.z, 5);
}

#[test]
fn averager_counter_resets_on_a_jump() {
    let mut avg = MotionAverager::new(2, 3);
    // A steady stream builds up consistency.
    avg.step(DataPoint { x: 0, y: 0, z: 0 });
    avg.step(DataPoint { x: 0, y: 0, z: 0 });
    assert!(!avg.is_found());
    // A jump moves the mean by more than the tolerance and resets the count,
    // so the mean is still not found three samples later.
    avg.step(DataPoint { x: 100, y: 100, z: 100 });
    assert!(!avg.is_found());
    avg.step(DataPoint { x: 100, y: 100, z: 100 });
    avg.step(DataPoint { x: 100, y: 100, z: 100 });
    assert!(!avg.is_found());
}

#[test]
fn averager_with_zero_required_iterations_locks_at_once() {
    let mut avg = MotionAverager::new(2, 0);
    avg.step(DataPoint { x: 17, y: -17, z: 170 });
    assert!(avg.is_found());
    let m = avg.mean();
    assert_eq!(m.x, 17);
    assert_eq!(m.y, -17);
    assert_eq!(m.z, 170);
}

#[test]
fn stable_stream_converges_and_removes_gravity_bias() {
    // A perfectly stable platform: every acceleration sample reads one g on
    // the z axis, every angular-rate sample is constant.
    let mut engine = CalibrationEngine::new(2, 5);
    let accel = DataPoint { x: 1000, y: 2000, z: 17000 };
    let gyro = DataPoint { x: 10, y: 20, z: 30 };
    let mut iterations: u32 = 0;
    // The first sample moves the mean from zero; the required five stable
    // iterations follow, so convergence takes six samples.
    while !engine.is_complete() && iterations < 100 {
        engine.step(accel, gyro);
        iterations += 1;
    }
    assert!(engine.is_complete());
    assert_eq!(iterations, 6);
    let outcome = engine.finish();
    assert!(outcome.accel_converged);
    assert!(outcome.gyro_converged);
    assert_eq!(outcome.accel_offset.x(), 1000);
    assert_eq!(outcome.accel_offset.y(), 2000);
    // The one-g sensitivity constant is removed from the z axis.
    assert_eq!(outcome.accel_offset.z(), 17000 - 16384);
    assert_eq!(outcome.gyro_offset.x(), 10);
    assert_eq!(outcome.gyro_offset.y(), 20);
    assert_eq!(outcome.gyro_offset.z(), 30);
}

#[test]
fn timeout_locks_best_effort_means_unadjusted() {
    // The caller's time budget runs out after two samples, well before the
    // required stable iterations: finish reports the running means as they
    // stand, with the convergence flags cleared and no gravity adjustment.
    let mut engine = CalibrationEngine::new(2, 5);
    let accel = DataPoint { x: 100, y: 200, z: 16384 };
    let gyro = DataPoint { x: 1, y: 2, z: 3 };
    engine.step(accel, gyro);
    engine.step(accel, gyro);
    assert!(!engine.is_complete());
    let outcome = engine.finish();
    assert!(!outcome.accel_converged);
    assert!(!outcome.gyro_converged);
    assert_eq!(outcome.accel_offset.x(), 100);
    assert_eq!(outcome.accel_offset.y(), 200);
    assert_eq!(outcome.accel_offset.z(), 16384);
    assert_eq!(outcome.gyro_offset.x(), 1);
    assert_eq!(outcome.gyro_offset.y(), 2);
    assert_eq!(outcome.gyro_offset.z(), 3);
}

#[test]
fn converged_group_freezes_while_the_other_runs_on() {
    // The angular-rate stream is steady while the acceleration stream keeps
    // jumping: the gyro group converges and freezes, the accel group does
    // not.
    let mut engine = CalibrationEngine::new(2, 3);
    let gyro = DataPoint { x: 5, y: 5, z: 5 };
    let mut flip = false;
    for _ in 0..20 {
        let accel = if flip {
            DataPoint { x: 0, y: 0, z: 0 }
        } else {
            DataPoint { x: 1000, y: 1000, z: 1000 }
        };
        flip = !flip;
        engine.step(accel, gyro);
    }
    let outcome = engine.finish();
    assert!(!outcome.accel_converged);
    assert!(outcome.gyro_converged);
    assert_eq!(outcome.gyro_offset.x(), 5);
}
