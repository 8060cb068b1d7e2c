//! Convergence-based streaming averager for three-axis samples.
//!
//! The averager folds one sample per iteration into exact running sums and
//! keeps the truncating arithmetic mean. After each sample the new mean is
//! compared axis by axis with the mean after the previous sample: when every
//! axis moves by less than the configured tolerance the consistency counter
//! grows, otherwise it resets. Once the counter reaches the configured number
//! of required consecutive stable iterations the mean is declared found and
//! the averager freezes. Only accumulators are retained, so memory use does
//! not grow with the number of samples.

use vstd::prelude::*;

use vstd::arithmetic::div_mod::lemma_div_multiples_vanish;

use crate::axes::div_trunc;
use crate::axes::DataPoint;

verus! {

/// Cap on the number of samples one averager will fold in. Sums of 16-bit
/// counts stay well inside 64 bits below this cap, and no bus could deliver
/// this many samples during one calibration run.
pub const COUNT_CAP: u64 = 0x4000_0000_0000;

/// Does `b` lie within `tol` of `a`, strictly, as the stabilization rule asks?
pub open spec fn within_tolerance(a: int, b: int, tol: int) -> bool {
    -tol < a - b < tol
}

/// Streaming arithmetic-mean estimator with a stabilization detector.
pub struct MotionAverager {
    /// Exact running sum of the x components.
    pub sum_x: i64,
    /// Exact running sum of the y components.
    pub sum_y: i64,
    /// Exact running sum of the z components.
    pub sum_z: i64,
    /// Number of samples folded in so far.
    pub count: u64,
    /// The mean after the previous sample; all zero before the first sample.
    pub prev_mean: DataPoint,
    /// Consecutive iterations in which the mean stayed within tolerance.
    pub consistent: u8,
    /// Strict per-axis bound on the change of the mean between iterations.
    pub tolerance: i16,
    /// Number of consecutive stable iterations that declare the mean found.
    pub required: u8,
    /// Whether the mean has been declared found; a found averager freezes.
    pub found: bool,
}

impl MotionAverager {
    /// The x axis of the current mean (zero before the first sample).
    pub open spec fn mean_x(&self) -> int {
        if self.count == 0 {
            0
        } else {
            div_trunc(self.sum_x as int, self.count as int)
        }
    }

    /// The y axis of the current mean (zero before the first sample).
    pub open spec fn mean_y(&self) -> int {
        if self.count == 0 {
            0
        } else {
            div_trunc(self.sum_y as int, self.count as int)
        }
    }

    /// The z axis of the current mean (zero before the first sample).
    pub open spec fn mean_z(&self) -> int {
        if self.count == 0 {
            0
        } else {
            div_trunc(self.sum_z as int, self.count as int)
        }
    }

    /// Internal consistency: sums are bounded by the sample range times the
    /// count, the stored previous mean is the current mean, and the counter
    /// has room to grow while the mean is not yet found.
    pub open spec fn wf(&self) -> bool {
        &&& self.count <= COUNT_CAP
        &&& -32768 * self.count <= self.sum_x as int <= 32767 * self.count
        &&& -32768 * self.count <= self.sum_y as int <= 32767 * self.count
        &&& -32768 * self.count <= self.sum_z as int <= 32767 * self.count
        &&& self.prev_mean.x as int == self.mean_x()
        &&& self.prev_mean.y as int == self.mean_y()
        &&& self.prev_mean.z as int == self.mean_z()
        &&& (!self.found ==> self.consistent < self.required || self.consistent == 0)
    }

    /// The state reached from `self` by folding in the sample `s`: one
    /// mathematical step of the streaming rule. A found averager is frozen.
    pub open spec fn stepped(self, s: DataPoint) -> MotionAverager {
        if self.found {
            self
        } else {
            let c = self.count + 1;
            let sx = self.sum_x + s.x;
            let sy = self.sum_y + s.y;
            let sz = self.sum_z + s.z;
            let mx = div_trunc(sx, c);
            let my = div_trunc(sy, c);
            let mz = div_trunc(sz, c);
            let stable = within_tolerance(self.prev_mean.x as int, mx, self.tolerance as int)
                && within_tolerance(self.prev_mean.y as int, my, self.tolerance as int)
                && within_tolerance(self.prev_mean.z as int, mz, self.tolerance as int);
            let cons = if stable {
                self.consistent + 1
            } else {
                0
            };
            MotionAverager {
                sum_x: sx as i64,
                sum_y: sy as i64,
                sum_z: sz as i64,
                count: c as u64,
                prev_mean: DataPoint { x: mx as i16, y: my as i16, z: mz as i16 },
                consistent: cons as u8,
                tolerance: self.tolerance,
                required: self.required,
                found: cons >= self.required,
            }
        }
    }

    /// The state reached from `self` by folding in `n` copies of the sample
    /// `s`.
    pub open spec fn stepped_n(self, s: DataPoint, n: nat) -> MotionAverager
        decreases n,
    {
        if n == 0 {
            self
        } else {
            self.stepped_n(s, (n - 1) as nat).stepped(s)
        }
    }

    /// A fresh averager, as a mathematical value: nothing folded in, mean not
    /// found.
    pub open spec fn fresh(tolerance: i16, required: u8) -> MotionAverager {
        MotionAverager {
            sum_x: 0,
            sum_y: 0,
            sum_z: 0,
            count: 0,
            prev_mean: DataPoint { x: 0i16, y: 0i16, z: 0i16 },
            consistent: 0,
            tolerance,
            required,
            found: false,
        }
    }

    /// A fresh averager: nothing folded in, mean not found.
    pub fn new(tolerance: i16, required: u8) -> (r: MotionAverager)
        ensures
            r == MotionAverager::fresh(tolerance, required),
            r.wf(),
    {
        MotionAverager {
            sum_x: 0,
            sum_y: 0,
            sum_z: 0,
            count: 0,
            prev_mean: DataPoint { x: 0, y: 0, z: 0 },
            consistent: 0,
            tolerance,
            required,
            found: false,
        }
    }

    /// Folds one sample into the running mean and re-evaluates the
    /// stabilization rule; does nothing once the mean has been found.
    pub fn step(&mut self, s: DataPoint)
        requires
            old(self).wf(),
            old(self).count < COUNT_CAP,
        ensures
            *final(self) == old(self).stepped(s),
            final(self).wf(),
    {
        if self.found {
            return ;
        }
        let c: u64 = self.count + 1;
        let sx: i64 = self.sum_x + s.x as i64;
        let sy: i64 = self.sum_y + s.y as i64;
        let sz: i64 = self.sum_z + s.z as i64;
        let mx = mean_axis(sx, c);
        let my = mean_axis(sy, c);
        let mz = mean_axis(sz, c);
        let tol: i32 = self.tolerance as i32;
        let dx: i32 = self.prev_mean.x as i32 - mx as i32;
        let dy: i32 = self.prev_mean.y as i32 - my as i32;
        let dz: i32 = self.prev_mean.z as i32 - mz as i32;
        let stable = -tol < dx && dx < tol && -tol < dy && dy < tol && -tol < dz && dz < tol;
        let cons: u8 = if stable {
            self.consistent + 1
        } else {
            0
        };
        let found = cons >= self.required;
        self.sum_x = sx;
        self.sum_y = sy;
        self.sum_z = sz;
        self.count = c;
        self.prev_mean = DataPoint { x: mx, y: my, z: mz };
        self.consistent = cons;
        self.found = found;
    }

    /// The current mean as a sample; all zero before the first sample.
    pub fn mean(&self) -> (r: DataPoint)
        requires
            self.wf(),
        ensures
            r.x as int == self.mean_x(),
            r.y as int == self.mean_y(),
            r.z as int == self.mean_z(),
    {
        if self.count == 0 {
            DataPoint { x: 0, y: 0, z: 0 }
        } else {
            DataPoint {
                x: mean_axis(self.sum_x, self.count),
                y: mean_axis(self.sum_y, self.count),
                z: mean_axis(self.sum_z, self.count),
            }
        }
    }

    /// Whether the mean has stabilized and been declared found.
    pub fn is_found(&self) -> (r: bool)
        ensures
            r == self.found,
    {
        self.found
    }
}

/// Truncating division of an exact axis sum by the positive sample count; the
/// mean of 16-bit samples always fits back into 16 bits.
fn mean_axis(sum: i64, count: u64) -> (r: i16)
    requires
        0 < count <= COUNT_CAP,
        -32768 * count <= sum as int <= 32767 * count,
    ensures
        r as int == div_trunc(sum as int, count as int),
{
    let q = sum / (count as i64);
    proof {
        crate::axes::lemma_div_trunc_in_axis_range(sum as int, count as int);
    }
    q as i16
}

/// An exact multiple divides back to itself under truncating division.
proof fn lemma_div_trunc_exact(a: int, k: int)
    requires
        k >= 1,
    ensures
        div_trunc(a * k, k) == a,
{
    if a >= 0 {
        assert(a * k >= 0 && a * k == k * a) by (nonlinear_arith)
            requires
                a >= 0,
                k >= 1,
        ;
        lemma_div_multiples_vanish(a, k);
    } else {
        assert(a * k < 0 && -(a * k) == k * (-a)) by (nonlinear_arith)
            requires
                a < 0,
                k >= 1,
        ;
        lemma_div_multiples_vanish(-a, k);
    }
}

/// On a perfectly stable stream the running mean is the stream value itself
/// after every sample, and the mean is declared found after at most one
/// sample more than the required number of consecutive stable iterations.
pub proof fn lemma_constant_stream_converges(tolerance: i16, required: u8, s: DataPoint, n: nat)
    requires
        tolerance >= 1,
        1 <= n <= COUNT_CAP,
    ensures
        ({
            let a = MotionAverager::fresh(tolerance, required).stepped_n(s, n);
            &&& a.wf()
            &&& 1 <= a.count <= n
            &&& a.sum_x as int == a.count * s.x
            &&& a.sum_y as int == a.count * s.y
            &&& a.sum_z as int == a.count * s.z
            &&& a.mean_x() == s.x
            &&& a.mean_y() == s.y
            &&& a.mean_z() == s.z
            &&& a.tolerance == tolerance
            &&& a.required == required
            &&& (!a.found ==> a.count == n && a.consistent + 1 >= n)
            &&& (n > required ==> a.found)
        }),
    decreases n,
{
    let a0 = MotionAverager::fresh(tolerance, required);
    if n == 1 {
        assert(a0.stepped_n(s, 0) == a0);
        assert(a0.stepped_n(s, 1) == a0.stepped(s));
        lemma_div_trunc_exact(s.x as int, 1);
        lemma_div_trunc_exact(s.y as int, 1);
        lemma_div_trunc_exact(s.z as int, 1);
        assert(s.x as int * 1 == s.x as int);
        assert(s.y as int * 1 == s.y as int);
        assert(s.z as int * 1 == s.z as int);
    } else {
        lemma_constant_stream_converges(tolerance, required, s, (n - 1) as nat);
        let ap = a0.stepped_n(s, (n - 1) as nat);
        let a = ap.stepped(s);
        assert(a0.stepped_n(s, n) == a);
        if ap.found {
            assert(a == ap);
        } else {
            let c = ap.count + 1;
            assert(ap.count * s.x + s.x == c * s.x && ap.count * s.y + s.y == c * s.y && ap.count
                * s.z + s.z == c * s.z) by (nonlinear_arith)
                requires
                    c == ap.count + 1,
            ;
            assert(-32768 * c <= c * s.x <= 32767 * c) by (nonlinear_arith)
                requires
                    c >= 1,
                    -32768 <= s.x <= 32767,
            ;
            assert(-32768 * c <= c * s.y <= 32767 * c) by (nonlinear_arith)
                requires
                    c >= 1,
                    -32768 <= s.y <= 32767,
            ;
            assert(-32768 * c <= c * s.z <= 32767 * c) by (nonlinear_arith)
                requires
                    c >= 1,
                    -32768 <= s.z <= 32767,
            ;
            lemma_div_trunc_exact(s.x as int, c);
            lemma_div_trunc_exact(s.y as int, c);
            lemma_div_trunc_exact(s.z as int, c);
            assert(s.x as int * c == c * s.x && s.y as int * c == c * s.y && s.z as int * c == c
                * s.z) by (nonlinear_arith);
        }
    }
}

} // verus!
