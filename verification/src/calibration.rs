//! Steady-state zero-offset calibration for the inertial sensor.
//!
//! During calibration the platform rests still while the engine feeds one
//! acceleration sample and one angular-rate sample per iteration into its two
//! averagers. An axis group stops being evaluated once its mean is found; the
//! caller keeps stepping until both groups have converged or its time budget
//! runs out, then locks whatever `finish` reports. Because the sensor rests
//! under gravity, the steady-state acceleration mean carries a one-g bias on
//! the z axis, which is removed when the converged offset is locked.

use vstd::prelude::*;

use crate::averager::MotionAverager;
use crate::averager::COUNT_CAP;
use crate::axes::AccelPoint;
use crate::axes::DataPoint;
use crate::axes::DataPointType;
use crate::axes::GyroPoint;

verus! {

/// The sensor's fixed acceleration sensitivity: raw counts per g at the
/// configured range, the bias one g of gravity adds to the resting z axis.
pub const ACCEL_SENSITIVITY: i16 = 16384;

/// Default per-axis tolerance between successive means, in raw counts.
pub const CALIB_DIFF: i16 = 2;

/// Default number of consecutive stable iterations that lock the mean.
pub const CALIB_CONSISTENT: u8 = 5;

/// Default calibration time budget in milliseconds.
pub const CALIB_TIME: u64 = 10000;

/// The resting z-axis mean with the one-g sensitivity bias removed, clamped
/// to the sample range where the exact difference would fall below it.
pub open spec fn gravity_adjusted(z: int) -> int {
    if z - ACCEL_SENSITIVITY < i16::MIN {
        i16::MIN as int
    } else {
        z - ACCEL_SENSITIVITY
    }
}

/// The two offsets a calibration run locks, and whether each axis group
/// actually converged; a group that ran out of time reports its best-effort
/// running mean with its flag cleared.
pub struct CalibrationOutcome {
    /// Offset to subtract from raw acceleration samples.
    pub accel_offset: AccelPoint,
    /// Offset to subtract from raw angular-rate samples.
    pub gyro_offset: GyroPoint,
    /// Whether the acceleration mean stabilized before the time budget ran
    /// out.
    pub accel_converged: bool,
    /// Whether the angular-rate mean stabilized before the time budget ran
    /// out.
    pub gyro_converged: bool,
}

/// Convergence-based zero-offset search over the two sample kinds.
pub struct CalibrationEngine {
    /// Averager for the acceleration samples.
    pub accel: MotionAverager,
    /// Averager for the angular-rate samples.
    pub gyro: MotionAverager,
}

impl CalibrationEngine {
    /// Internal consistency of both averagers.
    pub open spec fn wf(&self) -> bool {
        self.accel.wf() && self.gyro.wf()
    }

    /// A fresh engine, as a mathematical value.
    pub open spec fn fresh(tolerance: i16, required: u8) -> CalibrationEngine {
        CalibrationEngine {
            accel: MotionAverager::fresh(tolerance, required),
            gyro: MotionAverager::fresh(tolerance, required),
        }
    }

    /// The state reached by feeding one sample pair: each axis group that has
    /// not yet converged folds its sample in; a group whose averager has
    /// reached the sample cap is left as it stands.
    pub open spec fn stepped(self, a: DataPoint, g: DataPoint) -> CalibrationEngine {
        CalibrationEngine {
            accel: if self.accel.count < COUNT_CAP {
                self.accel.stepped(a)
            } else {
                self.accel
            },
            gyro: if self.gyro.count < COUNT_CAP {
                self.gyro.stepped(g)
            } else {
                self.gyro
            },
        }
    }

    /// The state reached by feeding `n` copies of the same sample pair.
    pub open spec fn stepped_n(self, a: DataPoint, g: DataPoint, n: nat) -> CalibrationEngine
        decreases n,
    {
        if n == 0 {
            self
        } else {
            self.stepped_n(a, g, (n - 1) as nat).stepped(a, g)
        }
    }

    /// A fresh engine with the given stabilization parameters.
    pub fn new(tolerance: i16, required: u8) -> (r: CalibrationEngine)
        ensures
            r == CalibrationEngine::fresh(tolerance, required),
            r.wf(),
    {
        CalibrationEngine {
            accel: MotionAverager::new(tolerance, required),
            gyro: MotionAverager::new(tolerance, required),
        }
    }

    /// Feeds one acceleration sample and one angular-rate sample; an axis
    /// group whose mean has already been found is left untouched.
    pub fn step(&mut self, accel_sample: DataPoint, gyro_sample: DataPoint)
        requires
            old(self).wf(),
        ensures
            *final(self) == old(self).stepped(accel_sample, gyro_sample),
            final(self).wf(),
    {
        if self.accel.count < COUNT_CAP {
            self.accel.step(accel_sample);
        }
        if self.gyro.count < COUNT_CAP {
            self.gyro.step(gyro_sample);
        }
    }

    /// Whether both axis groups have converged, so that further stepping
    /// would change nothing.
    pub fn is_complete(&self) -> (r: bool)
        ensures
            r == (self.accel.found && self.gyro.found),
    {
        self.accel.is_found() && self.gyro.is_found()
    }

    /// Locks the offsets: the current means, with the one-g bias removed from
    /// the z axis of an acceleration mean that converged. A group that did
    /// not converge reports its best-effort running mean unadjusted, with its
    /// flag cleared so the caller can report the calibration timeout.
    pub fn finish(&self) -> (r: CalibrationOutcome)
        requires
            self.wf(),
        ensures
            r.accel_converged == self.accel.found,
            r.gyro_converged == self.gyro.found,
            r.accel_offset.sx() == self.accel.mean_x(),
            r.accel_offset.sy() == self.accel.mean_y(),
            self.accel.found ==> r.accel_offset.sz() == gravity_adjusted(self.accel.mean_z()),
            !self.accel.found ==> r.accel_offset.sz() == self.accel.mean_z(),
            r.gyro_offset.sx() == self.gyro.mean_x(),
            r.gyro_offset.sy() == self.gyro.mean_y(),
            r.gyro_offset.sz() == self.gyro.mean_z(),
    {
        let am = self.accel.mean();
        let accel_found = self.accel.is_found();
        let az: i16 = if accel_found {
            let adjusted: i32 = am.z as i32 - ACCEL_SENSITIVITY as i32;
            if adjusted < -32768 {
                -32768
            } else {
                adjusted as i16
            }
        } else {
            am.z
        };
        let gm = self.gyro.mean();
        CalibrationOutcome {
            accel_offset: AccelPoint::Accel(DataPoint { x: am.x, y: am.y, z: az }),
            gyro_offset: GyroPoint::Gyro(gm),
            accel_converged: accel_found,
            gyro_converged: self.gyro.is_found(),
        }
    }
}

/// A stepped averager has folded in at most one sample per step.
proof fn lemma_stepped_n_count(a0: MotionAverager, s: DataPoint, n: nat)
    requires
        a0.count + n <= COUNT_CAP,
    ensures
        a0.stepped_n(s, n).count <= a0.count + n,
    decreases n,
{
    if n > 0 {
        lemma_stepped_n_count(a0, s, (n - 1) as nat);
    }
}

/// Below the sample cap, stepping the engine steps each averager: the
/// engine's cap guard never fires on a stream that fits the cap.
proof fn lemma_engine_tracks_averagers(
    tolerance: i16,
    required: u8,
    a: DataPoint,
    g: DataPoint,
    n: nat,
)
    requires
        n <= COUNT_CAP,
    ensures
        CalibrationEngine::fresh(tolerance, required).stepped_n(a, g, n).accel
            == MotionAverager::fresh(tolerance, required).stepped_n(a, n),
        CalibrationEngine::fresh(tolerance, required).stepped_n(a, g, n).gyro
            == MotionAverager::fresh(tolerance, required).stepped_n(g, n),
    decreases n,
{
    if n > 0 {
        lemma_engine_tracks_averagers(tolerance, required, a, g, (n - 1) as nat);
        lemma_stepped_n_count(
            MotionAverager::fresh(tolerance, required),
            a,
            (n - 1) as nat,
        );
        lemma_stepped_n_count(
            MotionAverager::fresh(tolerance, required),
            g,
            (n - 1) as nat,
        );
    }
}

/// On a perfectly stable sample stream, calibration converges within the
/// required number of consecutive stable iterations after the first sample,
/// and both means settle on the stream values themselves — so `finish` locks
/// the acceleration offset at the stream mean with the one-g sensitivity
/// constant removed from the z axis, and the angular-rate offset at the
/// stream mean itself.
pub proof fn lemma_stable_stream_calibration(
    tolerance: i16,
    required: u8,
    a: DataPoint,
    g: DataPoint,
    n: nat,
)
    requires
        tolerance >= 1,
        required < n <= COUNT_CAP,
    ensures
        ({
            let e = CalibrationEngine::fresh(tolerance, required).stepped_n(a, g, n);
            &&& e.wf()
            &&& e.accel.found
            &&& e.gyro.found
            &&& e.accel.mean_x() == a.x
            &&& e.accel.mean_y() == a.y
            &&& e.accel.mean_z() == a.z
            &&& a.z - ACCEL_SENSITIVITY >= i16::MIN ==> gravity_adjusted(e.accel.mean_z()) == a.z
                - ACCEL_SENSITIVITY
            &&& e.gyro.mean_x() == g.x
            &&& e.gyro.mean_y() == g.y
            &&& e.gyro.mean_z() == g.z
        }),
{
    lemma_engine_tracks_averagers(tolerance, required, a, g, n);
    crate::averager::lemma_constant_stream_converges(tolerance, required, a, n);
    crate::averager::lemma_constant_stream_converges(tolerance, required, g, n);
}

} // verus!
