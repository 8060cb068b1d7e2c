//! The spoofing-detection state machine.
//!
//! The run moves linearly through three phases: calibrate the inertial
//! sensor, wait for a first satellite fix, then track. Each tracking round
//! compares the great-circle distance between the fresh satellite fix and the
//! dead-reckoned prediction against a threshold derived from the fix's
//! horizontal precision; a distance beyond the threshold raises the spoofing
//! verdict. The caller performs the device work and the floating-point
//! geodesy, hands the resulting distance and threshold in as whole
//! millimeters, and acts on the decisions made here.
//!
//! Two behaviours the reference design leaves open are explicit
//! configuration: whether a missed initial fix halts the run or tracking
//! starts from a degraded position, and whether a raised verdict halts
//! tracking or the loop keeps watching.

use vstd::prelude::*;

verus! {

/// Where the run stands.
#[derive(Clone, Copy, Debug, PartialEq, Eq, Structural)]
pub enum Phase {
    /// Converging on the inertial sensor's zero offsets.
    Calibrating,
    /// Polling the satellite driver for a first valid fix.
    AwaitingFix,
    /// Alternating dead reckoning and fix comparison.
    Tracking,
    /// The run has stopped, by policy or for want of a first fix.
    Halted,
}

/// The run's policy choices.
#[derive(Clone, Copy, Debug, PartialEq, Eq, Structural)]
pub struct DetectorConfig {
    /// Halt the run when the initial fix wait times out; when false, tracking
    /// starts from whatever fallback position the caller supplies.
    pub require_initial_fix: bool,
    /// Halt tracking on a raised spoofing verdict; when false, the verdict is
    /// reported and the loop keeps watching.
    pub halt_on_spoof: bool,
}

/// One tracking round's outcome.
#[derive(Clone, Copy, Debug, PartialEq, Eq, Structural)]
pub enum Verdict {
    /// The fix lies within the precision threshold of the prediction.
    Nominal,
    /// The fix lies beyond the threshold: the signal is being spoofed.
    SpoofDetected,
}

/// The orchestrator: tracks the phase of the run and decides each round.
pub struct SpoofDetector {
    /// Where the run stands.
    pub phase: Phase,
    /// The run's policy choices.
    pub config: DetectorConfig,
}

impl SpoofDetector {
    /// A fresh run, about to calibrate.
    pub fn new(config: DetectorConfig) -> (r: SpoofDetector)
        ensures
            r.phase is Calibrating,
            r.config == config,
    {
        SpoofDetector { phase: Phase::Calibrating, config }
    }

    /// Ends the calibration phase. A calibration that timed out before
    /// converging is reported by the caller but never fatal: the run proceeds
    /// to the fix wait with best-effort offsets either way.
    pub fn calibration_done(&mut self)
        requires
            old(self).phase is Calibrating,
        ensures
            final(self).phase is AwaitingFix,
            final(self).config == old(self).config,
    {
        self.phase = Phase::AwaitingFix;
    }

    /// Ends the initial fix wait. Without a fix the run halts or proceeds
    /// degraded, exactly as configured.
    pub fn fix_wait_done(&mut self, got_fix: bool)
        requires
            old(self).phase is AwaitingFix,
        ensures
            final(self).config == old(self).config,
            got_fix ==> final(self).phase is Tracking,
            !got_fix && old(self).config.require_initial_fix ==> final(self).phase is Halted,
            !got_fix && !old(self).config.require_initial_fix ==> final(self).phase is Tracking,
    {
        if got_fix || !self.config.require_initial_fix {
            self.phase = Phase::Tracking;
        } else {
            self.phase = Phase::Halted;
        }
    }

    /// Decides one tracking round: the verdict is spoofing exactly when the
    /// distance between the fix and the prediction exceeds the threshold. A
    /// raised verdict halts the run only under the configured policy.
    pub fn assess(&mut self, distance_mm: u64, threshold_mm: u64) -> (v: Verdict)
        requires
            old(self).phase is Tracking,
        ensures
            final(self).config == old(self).config,
            v == (if distance_mm > threshold_mm {
                Verdict::SpoofDetected
            } else {
                Verdict::Nominal
            }),
            final(self).phase == (if distance_mm > threshold_mm && old(self).config.halt_on_spoof {
                Phase::Halted
            } else {
                Phase::Tracking
            }),
    {
        if distance_mm > threshold_mm {
            if self.config.halt_on_spoof {
                self.phase = Phase::Halted;
            }
            Verdict::SpoofDetected
        } else {
            Verdict::Nominal
        }
    }

    /// Where the run stands.
    pub fn phase(&self) -> (p: Phase)
        ensures
            p == self.phase,
    {
        self.phase
    }
}

} // verus!
