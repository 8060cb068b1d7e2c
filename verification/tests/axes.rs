//! Tests for the three-axis sample arithmetic and the batch average.

use spoof_detect::axes::get_average;
use spoof_detect::axes::decode_axes;
use spoof_detect::axes::AccelPoint;
use spoof_detect::axes::DataPoint;
use spoof_detect::axes::DataPointType;
use spoof_detect::axes::GyroPoint;

#[test]
fn test_get_average() {
    let points = vec![
        DataPoint { x: 1, y: 2, z: 3 },
        DataPoint { x: 2, y: 3, z: 4 },
        DataPoint { x: 3, y: 4, z: 5 },
        DataPoint { x: 4, y: 5, z: 6 },
        DataPoint { x: 5, y: 6, z: 7 },
    ];
    let avg = get_average(&points);
    assert_eq!(avg.x, 3);
    assert_eq!(avg.y, 4);
    assert_eq!(avg.z, 5);
}

#[test]
fn test_add_datapoint() {
    let p1 = DataPoint { x: 1, y: 2, z: 3 };
    let p2 = DataPoint { x: 2, y: 3, z: 4 };
    let p3 = p1.add(p2);
    assert_eq!(p3.x, 3);
    assert_eq!(p3.y, 5);
    assert_eq!(p3.z, 7);
}

#[test]
fn test_sub_datapoint() {
    let p1 = DataPoint { x: 1, y: 2, z: 3 };
    let p2 = DataPoint { x: 2, y: 3, z: 4 };
    let p3 = p2.sub(p1);
    assert_eq!(p3.x, 1);
    assert_eq!(p3.y, 1);
    assert_eq!(p3.z, 1);
}

#[test]
fn test_div_datapoint() {
    let p1 = DataPoint { x: 12, y: 24, z: 36 };
    let p2 = p1.div(2);
    assert_eq!(p2.x, 6);
    assert_eq!(p2.y, 12);
    assert_eq!(p2.z, 18);
}

#[test]
fn div_truncates_toward_zero() {
    let p = DataPoint { x: -7, y: -8, z: 7 };
    let q = p.div(2);
    assert_eq!(q.x, -3);
    assert_eq!(q.y, -4);
    assert_eq!(q.z, 3);
    let r = p.div(-2);
    assert_eq!(r.x, 3);
    assert_eq!(r.y, 4);
    assert_eq!(r.z, -3);
}

#[test]
fn average_of_empty_batch_is_zero() {
    let points: Vec<DataPoint> = Vec::new();
    let avg = get_average(&points);
    assert_eq!(avg.x, 0);
    assert_eq!(avg.y, 0);
    assert_eq!(avg.z, 0);
}

#[test]
fn average_truncates_per_axis() {
    let points = vec![DataPoint { x: 1, y: -1, z: 7 }, DataPoint { x: 2, y: -2, z: 8 }];
    let avg = get_average(&points);
    assert_eq!(avg.x, 1);
    assert_eq!(avg.y, -1);
    assert_eq!(avg.z, 7);
}

#[test]
fn tagged_points_share_the_arithmetic() {
    let a = AccelPoint::new(10, -20, 30);
    let b = AccelPoint::new(5, 5, 5);
    let sum = a.add(b);
    assert_eq!(sum.x(), 15);
    assert_eq!(sum.y(), -15);
    assert_eq!(sum.z(), 35);
    let diff = a.sub(b);
    assert_eq!(diff.z(), 25);
    let half = a.div(2);
    assert_eq!(half.x(), 5);
    let g = GyroPoint::new(9, -9, 0);
    let gd = g.div(3);
    assert_eq!(gd.x(), 3);
    assert_eq!(gd.y(), -3);
    assert_eq!(gd.z(), 0);
}

#[test]
fn decode_axes_reads_big_endian_signed() {
    let d = decode_axes(&[0x80, 0x00, 0x00, 0x01, 0xFF, 0xFF]);
    assert_eq!(d.x, -32768);
    assert_eq!(d.y, 1);
    assert_eq!(d.z, -1);
    let e = decode_axes(&[0x7F, 0xFF, 0x00, 0x00, 0x12, 0x34]);
    assert_eq!(e.x, 32767);
    assert_eq!(e.y, 0);
    assert_eq!(e.z, 0x1234);
}
