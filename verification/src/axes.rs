//! Three-axis raw sensor samples and their component-wise arithmetic.
//!
//! The inertial sensor reports acceleration and angular rate as three signed
//! 16-bit counts, read from the bus as six big-endian bytes. `DataPoint` is
//! the bare sample; `AccelPoint` and `GyroPoint` tag a sample with its kind so
//! that an acceleration offset can never be confused with an angular-rate
//! offset. `get_average` is the integer-truncating arithmetic mean used by the
//! calibration pipeline.

use vstd::prelude::*;

verus! {

/// Truncating integer division (the semantics of `/` on Rust's signed
/// integers), written over mathematical integers.
pub open spec fn div_trunc(a: int, b: int) -> int {
    if a >= 0 {
        a / b
    } else {
        -((-a) / b)
    }
}

/// The signed 16-bit value encoded big-endian by the two bytes `hi`, `lo`.
pub open spec fn be_i16(hi: u8, lo: u8) -> int {
    let v = hi as int * 256 + lo as int;
    if v < 32768 {
        v
    } else {
        v - 65536
    }
}

/// A raw three-axis sample in sensor counts.
#[derive(Clone, Copy, Debug)]
pub struct DataPoint {
    pub x: i16,
    pub y: i16,
    pub z: i16,
}

/// The capability shared by every three-axis sample type: construction from
/// raw counts and component access, with the components mirrored as
/// mathematical integers for use in contracts.
pub trait DataPointType: Sized {
    /// The x component as a mathematical integer.
    spec fn sx(&self) -> int;

    /// The y component as a mathematical integer.
    spec fn sy(&self) -> int;

    /// The z component as a mathematical integer.
    spec fn sz(&self) -> int;

    fn new(x: i16, y: i16, z: i16) -> (r: Self)
        ensures
            r.sx() == x as int,
            r.sy() == y as int,
            r.sz() == z as int,
    ;

    fn x(&self) -> (r: i16)
        ensures
            r as int == self.sx(),
    ;

    fn y(&self) -> (r: i16)
        ensures
            r as int == self.sy(),
    ;

    fn z(&self) -> (r: i16)
        ensures
            r as int == self.sz(),
    ;
}

impl DataPointType for DataPoint {
    open spec fn sx(&self) -> int {
        self.x as int
    }

    open spec fn sy(&self) -> int {
        self.y as int
    }

    open spec fn sz(&self) -> int {
        self.z as int
    }

    fn new(x: i16, y: i16, z: i16) -> (r: Self) {
        DataPoint { x, y, z }
    }

    fn x(&self) -> (r: i16) {
        self.x
    }

    fn y(&self) -> (r: i16) {
        self.y
    }

    fn z(&self) -> (r: i16) {
        self.z
    }
}

impl Default for DataPoint {
    /// The all-zero sample.
    fn default() -> (r: Self)
        ensures
            r.x == 0,
            r.y == 0,
            r.z == 0,
    {
        DataPoint { x: 0, y: 0, z: 0 }
    }
}

impl DataPoint {
    /// Component-wise sum of two samples.
    pub fn add(self, other: Self) -> (r: Self)
        requires
            i16::MIN <= self.x + other.x <= i16::MAX,
            i16::MIN <= self.y + other.y <= i16::MAX,
            i16::MIN <= self.z + other.z <= i16::MAX,
        ensures
            r.x == self.x + other.x,
            r.y == self.y + other.y,
            r.z == self.z + other.z,
    {
        DataPoint { x: self.x + other.x, y: self.y + other.y, z: self.z + other.z }
    }

    /// Component-wise difference of two samples.
    pub fn sub(self, other: Self) -> (r: Self)
        requires
            i16::MIN <= self.x - other.x <= i16::MAX,
            i16::MIN <= self.y - other.y <= i16::MAX,
            i16::MIN <= self.z - other.z <= i16::MAX,
        ensures
            r.x == self.x - other.x,
            r.y == self.y - other.y,
            r.z == self.z - other.z,
    {
        DataPoint { x: self.x - other.x, y: self.y - other.y, z: self.z - other.z }
    }

    /// Component-wise truncating division by a scalar.
    pub fn div(self, divisor: i16) -> (r: Self)
        requires
            divisor != 0,
            divisor == -1 ==> self.x != i16::MIN && self.y != i16::MIN && self.z != i16::MIN,
        ensures
            r.x == div_trunc(self.x as int, divisor as int),
            r.y == div_trunc(self.y as int, divisor as int),
            r.z == div_trunc(self.z as int, divisor as int),
    {
        proof {
            lemma_div_trunc_i16_range(self.x as int, divisor as int);
            lemma_div_trunc_i16_range(self.y as int, divisor as int);
            lemma_div_trunc_i16_range(self.z as int, divisor as int);
        }
        DataPoint { x: self.x / divisor, y: self.y / divisor, z: self.z / divisor }
    }
}

/// An acceleration sample or offset, in raw sensor counts.
#[derive(Clone, Copy, Debug)]
pub enum AccelPoint {
    Accel(DataPoint),
}

impl DataPointType for AccelPoint {
    open spec fn sx(&self) -> int {
        match *self {
            AccelPoint::Accel(d) => d.x as int,
        }
    }

    open spec fn sy(&self) -> int {
        match *self {
            AccelPoint::Accel(d) => d.y as int,
        }
    }

    open spec fn sz(&self) -> int {
        match *self {
            AccelPoint::Accel(d) => d.z as int,
        }
    }

    fn new(x: i16, y: i16, z: i16) -> (r: Self) {
        AccelPoint::Accel(DataPoint { x, y, z })
    }

    fn x(&self) -> (r: i16) {
        match *self {
            AccelPoint::Accel(d) => d.x,
        }
    }

    fn y(&self) -> (r: i16) {
        match *self {
            AccelPoint::Accel(d) => d.y,
        }
    }

    fn z(&self) -> (r: i16) {
        match *self {
            AccelPoint::Accel(d) => d.z,
        }
    }
}

impl Default for AccelPoint {
    /// The all-zero acceleration sample.
    fn default() -> (r: Self)
        ensures
            r.sx() == 0,
            r.sy() == 0,
            r.sz() == 0,
    {
        AccelPoint::Accel(DataPoint { x: 0, y: 0, z: 0 })
    }
}

impl AccelPoint {
    /// Component-wise sum of two acceleration samples.
    pub fn add(self, other: Self) -> (r: Self)
        requires
            i16::MIN <= self.sx() + other.sx() <= i16::MAX,
            i16::MIN <= self.sy() + other.sy() <= i16::MAX,
            i16::MIN <= self.sz() + other.sz() <= i16::MAX,
        ensures
            r.sx() == self.sx() + other.sx(),
            r.sy() == self.sy() + other.sy(),
            r.sz() == self.sz() + other.sz(),
    {
        match (self, other) {
            (AccelPoint::Accel(a), AccelPoint::Accel(b)) => AccelPoint::Accel(a.add(b)),
        }
    }

    /// Component-wise difference of two acceleration samples.
    pub fn sub(self, other: Self) -> (r: Self)
        requires
            i16::MIN <= self.sx() - other.sx() <= i16::MAX,
            i16::MIN <= self.sy() - other.sy() <= i16::MAX,
            i16::MIN <= self.sz() - other.sz() <= i16::MAX,
        ensures
            r.sx() == self.sx() - other.sx(),
            r.sy() == self.sy() - other.sy(),
            r.sz() == self.sz() - other.sz(),
    {
        match (self, other) {
            (AccelPoint::Accel(a), AccelPoint::Accel(b)) => AccelPoint::Accel(a.sub(b)),
        }
    }

    /// Component-wise truncating division by a scalar.
    pub fn div(self, divisor: i16) -> (r: Self)
        requires
            divisor != 0,
            divisor == -1 ==> self.sx() != i16::MIN && self.sy() != i16::MIN && self.sz()
                != i16::MIN,
        ensures
            r.sx() == div_trunc(self.sx(), divisor as int),
            r.sy() == div_trunc(self.sy(), divisor as int),
            r.sz() == div_trunc(self.sz(), divisor as int),
    {
        match self {
            AccelPoint::Accel(a) => AccelPoint::Accel(a.div(divisor)),
        }
    }
}

/// An angular-rate sample or offset, in raw sensor counts.
#[derive(Clone, Copy, Debug)]
pub enum GyroPoint {
    Gyro(DataPoint),
}

impl DataPointType for GyroPoint {
    open spec fn sx(&self) -> int {
        match *self {
            GyroPoint::Gyro(d) => d.x as int,
        }
    }

    open spec fn sy(&self) -> int {
        match *self {
            GyroPoint::Gyro(d) => d.y as int,
        }
    }

    open spec fn sz(&self) -> int {
        match *self {
            GyroPoint::Gyro(d) => d.z as int,
        }
    }

    fn new(x: i16, y: i16, z: i16) -> (r: Self) {
        GyroPoint::Gyro(DataPoint { x, y, z })
    }

    fn x(&self) -> (r: i16) {
        match *self {
            GyroPoint::Gyro(d) => d.x,
        }
    }

    fn y(&self) -> (r: i16) {
        match *self {
            GyroPoint::Gyro(d) => d.y,
        }
    }

    fn z(&self) -> (r: i16) {
        match *self {
            GyroPoint::Gyro(d) => d.z,
        }
    }
}

impl Default for GyroPoint {
    /// The all-zero angular-rate sample.
    fn default() -> (r: Self)
        ensures
            r.sx() == 0,
            r.sy() == 0,
            r.sz() == 0,
    {
        GyroPoint::Gyro(DataPoint { x: 0, y: 0, z: 0 })
    }
}

impl GyroPoint {
    /// Component-wise sum of two angular-rate samples.
    pub fn add(self, other: Self) -> (r: Self)
        requires
            i16::MIN <= self.sx() + other.sx() <= i16::MAX,
            i16::MIN <= self.sy() + other.sy() <= i16::MAX,
            i16::MIN <= self.sz() + other.sz() <= i16::MAX,
        ensures
            r.sx() == self.sx() + other.sx(),
            r.sy() == self.sy() + other.sy(),
            r.sz() == self.sz() + other.sz(),
    {
        match (self, other) {
            (GyroPoint::Gyro(a), GyroPoint::Gyro(b)) => GyroPoint::Gyro(a.add(b)),
        }
    }

    /// Component-wise difference of two angular-rate samples.
    pub fn sub(self, other: Self) -> (r: Self)
        requires
            i16::MIN <= self.sx() - other.sx() <= i16::MAX,
            i16::MIN <= self.sy() - other.sy() <= i16::MAX,
            i16::MIN <= self.sz() - other.sz() <= i16::MAX,
        ensures
            r.sx() == self.sx() - other.sx(),
            r.sy() == self.sy() - other.sy(),
            r.sz() == self.sz() - other.sz(),
    {
        match (self, other) {
            (GyroPoint::Gyro(a), GyroPoint::Gyro(b)) => GyroPoint::Gyro(a.sub(b)),
        }
    }

    /// Component-wise truncating division by a scalar.
    pub fn div(self, divisor: i16) -> (r: Self)
        requires
            divisor != 0,
            divisor == -1 ==> self.sx() != i16::MIN && self.sy() != i16::MIN && self.sz()
                != i16::MIN,
        ensures
            r.sx() == div_trunc(self.sx(), divisor as int),
            r.sy() == div_trunc(self.sy(), divisor as int),
            r.sz() == div_trunc(self.sz(), divisor as int),
    {
        match self {
            GyroPoint::Gyro(a) => GyroPoint::Gyro(a.div(divisor)),
        }
    }
}

/// Decodes one six-byte register read into a sample: three big-endian signed
/// 16-bit integers, exactly as the inertial sensor lays them out.
pub fn decode_axes(data: &[u8; 6]) -> (r: DataPoint)
    ensures
        r.x == be_i16(data[0], data[1]),
        r.y == be_i16(data[2], data[3]),
        r.z == be_i16(data[4], data[5]),
{
    DataPoint {
        x: be_i16_exec(data[0], data[1]),
        y: be_i16_exec(data[2], data[3]),
        z: be_i16_exec(data[4], data[5]),
    }
}

/// Reads one big-endian signed 16-bit integer from two bytes.
fn be_i16_exec(hi: u8, lo: u8) -> (r: i16)
    ensures
        r as int == be_i16(hi, lo),
{
    let v: u32 = (hi as u32) * 256 + (lo as u32);
    if v >= 32768 {
        ((v as i32) - 65536) as i16
    } else {
        v as i16
    }
}

/// The sum of the x components of the first `n` samples of `s`.
pub open spec fn sum_sx<T: DataPointType>(s: Seq<T>, n: int) -> int
    decreases n,
{
    if n <= 0 {
        0
    } else {
        sum_sx(s, n - 1) + s[n - 1].sx()
    }
}

/// The sum of the y components of the first `n` samples of `s`.
pub open spec fn sum_sy<T: DataPointType>(s: Seq<T>, n: int) -> int
    decreases n,
{
    if n <= 0 {
        0
    } else {
        sum_sy(s, n - 1) + s[n - 1].sy()
    }
}

/// The sum of the z components of the first `n` samples of `s`.
pub open spec fn sum_sz<T: DataPointType>(s: Seq<T>, n: int) -> int
    decreases n,
{
    if n <= 0 {
        0
    } else {
        sum_sz(s, n - 1) + s[n - 1].sz()
    }
}

/// The arithmetic mean of a batch of samples, axis by axis, with truncating
/// integer division; the all-zero sample when the batch is empty.
///
/// The length bound keeps the running 32-bit sums exact, as the sensor's bus
/// could never deliver more samples than that in one calibration batch.
pub fn get_average<T: DataPointType>(points: &Vec<T>) -> (avg: T)
    requires
        points@.len() <= 65536,
    ensures
        points@.len() == 0 ==> avg.sx() == 0 && avg.sy() == 0 && avg.sz() == 0,
        points@.len() > 0 ==> {
            let n = points@.len() as int;
            &&& avg.sx() == div_trunc(sum_sx(points@, n), n)
            &&& avg.sy() == div_trunc(sum_sy(points@, n), n)
            &&& avg.sz() == div_trunc(sum_sz(points@, n), n)
        },
{
    if points.len() == 0 {
        return T::new(0, 0, 0);
    }
    let len = points.len() as i32;
    let mut sum_x: i32 = 0;
    let mut sum_y: i32 = 0;
    let mut sum_z: i32 = 0;
    let mut i: usize = 0;
    while i < points.len()
        invariant
            points@.len() <= 65536,
            0 <= i <= points@.len(),
            sum_x == sum_sx(points@, i as int),
            sum_y == sum_sy(points@, i as int),
            sum_z == sum_sz(points@, i as int),
            -32768 * i <= sum_x <= 32767 * i,
            -32768 * i <= sum_y <= 32767 * i,
            -32768 * i <= sum_z <= 32767 * i,
        decreases points@.len() - i,
    {
        let p = &points[i];
        sum_x = sum_x + p.x() as i32;
        sum_y = sum_y + p.y() as i32;
        sum_z = sum_z + p.z() as i32;
        i = i + 1;
    }
    let mx = div_i32_to_i16(sum_x, len);
    let my = div_i32_to_i16(sum_y, len);
    let mz = div_i32_to_i16(sum_z, len);
    T::new(mx, my, mz)
}

/// Truncating division of an exact 32-bit axis sum by a positive count; the
/// quotient of a mean always fits back into the 16-bit axis range.
fn div_i32_to_i16(sum: i32, len: i32) -> (r: i16)
    requires
        len > 0,
        -32768 * len <= sum <= 32767 * len,
    ensures
        r as int == div_trunc(sum as int, len as int),
{
    let q = sum / len;
    proof {
        lemma_div_trunc_in_axis_range(sum as int, len as int);
    }
    q as i16
}

/// A truncating quotient of two 16-bit axis values stays in the axis range,
/// except for the lone wrapping case of the most negative value divided by
/// minus one.
proof fn lemma_div_trunc_i16_range(a: int, b: int)
    requires
        -32768 <= a <= 32767,
        b != 0,
        !(a == -32768 && b == -1),
    ensures
        -32768 <= div_trunc(a, b) <= 32767,
{
    if a >= 0 {
        if b > 0 {
            assert(0 <= a / b <= a) by (nonlinear_arith)
                requires
                    a >= 0,
                    b >= 1,
            ;
        } else {
            assert(-a <= a / b <= 0) by (nonlinear_arith)
                requires
                    a >= 0,
                    b <= -1,
            ;
        }
    } else {
        let p = -a;
        if b > 0 {
            assert(0 <= p / b <= p) by (nonlinear_arith)
                requires
                    p >= 0,
                    b >= 1,
            ;
        } else {
            assert(-p <= p / b <= 0) by (nonlinear_arith)
                requires
                    p >= 0,
                    b <= -1,
            ;
            if b <= -2 {
                assert(p / b >= -16384) by (nonlinear_arith)
                    requires
                        0 <= p <= 32768,
                        b <= -2,
                ;
            }
        }
    }
}

/// A truncating quotient of a sum bounded by `len` copies of the axis range
/// stays in the axis range.
pub(crate) proof fn lemma_div_trunc_in_axis_range(sum: int, len: int)
    requires
        len > 0,
        -32768 * len <= sum <= 32767 * len,
    ensures
        -32768 <= div_trunc(sum, len) <= 32767,
{
    if sum >= 0 {
        assert(sum / len <= 32767) by (nonlinear_arith)
            requires
                len > 0,
                0 <= sum <= 32767 * len,
        ;
        assert(sum / len >= 0) by (nonlinear_arith)
            requires
                len > 0,
                sum >= 0,
        ;
    } else {
        assert((-sum) / len <= 32768) by (nonlinear_arith)
            requires
                len > 0,
                0 <= -sum <= 32768 * len,
        ;
        assert((-sum) / len >= 0) by (nonlinear_arith)
            requires
                len > 0,
                -sum >= 0,
        ;
    }
}

} // verus!
