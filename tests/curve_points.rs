use synthy::curve::{CurvePoint, CurvePoints, EditError, MIN_GAP};
use synthy::voice::default_points;
use synthy::UNIT;

fn xs(p: &CurvePoints) -> Vec<u32> {
    (0..p.len()).map(|i| p.at(i).x).collect()
}

#[test]
fn default_shape_is_valid() {
    let p = default_points();
    assert!(p.is_valid());
    assert_eq!(xs(&p), vec![0, 500_000, 1_000_000, 2_000_000, 3_000_000]);
    assert_eq!(p.get(1), Some(CurvePoint { x: 500_000, y: UNIT, curve: 0 }));
    assert_eq!(p.get(5), None);
}

#[test]
fn point_from_pair_is_linear() {
    assert_eq!(CurvePoint::from((3u32, 4u32)), CurvePoint { x: 3, y: 4, curve: 0 });
    assert_eq!(CurvePoint::from((3u32, 4u32, -5i32)), CurvePoint { x: 3, y: 4, curve: -5 });
}

#[test]
fn removing_first_point_is_refused() {
    let mut p = default_points();
    assert_eq!(p.remove_point(0), Err(EditError::EndPoint));
    assert_eq!(p.to_tuples(), default_points().to_tuples());
}

#[test]
fn removing_last_point_is_refused() {
    let mut p = CurvePoints::new(vec![CurvePoint::from((0u32, 0u32)), CurvePoint::from((10u32, 5u32))]);
    assert_eq!(p.remove_point(1), Err(EditError::EndPoint));
    assert_eq!(p.remove_point(0), Err(EditError::EndPoint));
    assert_eq!(p.len(), 2);
    assert_eq!(p.remove_point(2), Err(EditError::OutOfRange));
}

#[test]
fn removing_inner_point() {
    let mut p = default_points();
    assert_eq!(p.remove_point(2), Ok(CurvePoint { x: 1_000_000, y: 700_000, curve: 0 }));
    assert_eq!(xs(&p), vec![0, 500_000, 2_000_000, 3_000_000]);
    assert!(p.is_valid());
}

#[test]
fn inserting_points() {
    let mut p = default_points();
    assert_eq!(p.insert_point(0, 0, 0), Err(EditError::OutOfRange));
    assert_eq!(p.insert_point(5, 4_000_000, 0), Err(EditError::OutOfRange));
    assert_eq!(p.insert_point(2, 1_500_000, 0), Err(EditError::Misordered));
    assert_eq!(p.insert_point(2, 700_000, UNIT + 1), Err(EditError::InvalidPoint));
    assert_eq!(p.len(), 5);
    assert_eq!(p.insert_point(2, 700_000, 900_000), Ok(()));
    assert_eq!(p.get(2), Some(CurvePoint { x: 700_000, y: 900_000, curve: 0 }));
    assert_eq!(p.len(), 6);
    assert!(p.is_valid());
}

#[test]
fn setting_points() {
    let mut p = default_points();
    assert_eq!(p.set_point(0, 1, 0, 0), Err(EditError::Misordered));
    assert_eq!(p.set_point(1, 1_200_000, 0, 0), Err(EditError::Misordered));
    assert_eq!(p.set_point(1, 600_000, 0, -(UNIT as i32) - 1), Err(EditError::InvalidPoint));
    assert_eq!(p.set_point(9, 600_000, 0, 0), Err(EditError::OutOfRange));
    assert_eq!(p.set_point(4, 5_000_000, 0, 0), Ok(()));
    assert_eq!(p.set_point(1, 600_000, 800_000, -400_000), Ok(()));
    assert_eq!(p.get(1), Some(CurvePoint { x: 600_000, y: 800_000, curve: -400_000 }));
    assert!(p.is_valid());
}

#[test]
fn validity() {
    assert!(!CurvePoints::new(vec![CurvePoint::from((0u32, 0u32))]).is_valid());
    assert!(!CurvePoints::new(vec![CurvePoint::from((1u32, 0u32)), CurvePoint::from((2u32, 0u32))]).is_valid());
    assert!(!CurvePoints::new(vec![
        CurvePoint::from((0u32, 0u32)),
        CurvePoint::from((5u32, 0u32)),
        CurvePoint::from((4u32, 0u32)),
    ])
    .is_valid());
    assert!(!CurvePoints::new(vec![CurvePoint::from((0u32, 0u32, 2_000_000i32)), CurvePoint::from((2u32, 0u32))]).is_valid());
    assert!(CurvePoints::new(vec![CurvePoint::from((0u32, 0u32)), CurvePoint::from((0u32, UNIT))]).is_valid());
}

#[test]
fn replacing_points() {
    let mut p = default_points();
    assert_eq!(p.replace(vec![CurvePoint::from((0u32, 0u32))]), Err(EditError::InvalidPoint));
    assert_eq!(p.len(), 5);
    assert_eq!(p.replace(vec![CurvePoint::from((0u32, 1u32)), CurvePoint::from((7u32, 2u32))]), Ok(()));
    assert_eq!(p.to_tuples(), vec![(0, 1, 0), (7, 2, 0)]);
}

#[test]
fn tuples_round_trip() {
    let mut p = default_points();
    p.set_point(2, 1_100_000, 650_000, 330_000).unwrap();
    let t = p.to_tuples();
    assert_eq!(t[2], (1_100_000, 650_000, 330_000));
    let back = CurvePoints::from_tuples(&t);
    assert_eq!(back.to_tuples(), t);
    for i in 0..p.len() {
        assert_eq!(back.at(i), p.at(i));
    }
}

#[test]
fn dragging_keeps_points_apart() {
    let mut p = default_points();
    // Toward the left neighbour: stops short of it.
    assert_eq!(p.drag_point(2, 0, 300_000, 4_000_000), Ok(()));
    assert_eq!(p.get(2), Some(CurvePoint { x: 500_000 + MIN_GAP, y: 300_000, curve: 0 }));
    // Past the right neighbour, and above full scale.
    assert_eq!(p.drag_point(2, 9_000_000, 2 * UNIT, 4_000_000), Ok(()));
    assert_eq!(p.get(2), Some(CurvePoint { x: 2_000_000 - MIN_GAP, y: UNIT, curve: 0 }));
    assert!(p.is_valid());
}

#[test]
fn dragging_pins_the_ends() {
    let mut p = default_points();
    assert_eq!(p.drag_point(0, 400_000, 500_000, 4_000_000), Ok(()));
    assert_eq!(p.get(0), Some(CurvePoint { x: 0, y: 0, curve: 0 }));
    assert_eq!(p.drag_point(4, 3_500_000, 500_000, 4_000_000), Ok(()));
    assert_eq!(p.get(4), Some(CurvePoint { x: 3_500_000, y: 0, curve: 0 }));
    assert_eq!(p.drag_point(4, 9_000_000, 0, 4_000_000), Ok(()));
    assert_eq!(p.get(4).unwrap().x, 3_990_000);
    assert_eq!(p.drag_point(7, 0, 0, 4_000_000), Err(EditError::OutOfRange));
}

#[test]
fn dragging_without_room_is_refused() {
    let mut p = CurvePoints::new(vec![
        CurvePoint::from((0u32, 0u32)),
        CurvePoint::from((5_000u32, 0u32)),
        CurvePoint::from((10_000u32, 0u32)),
    ]);
    assert_eq!(p.drag_point(1, 5_000, 0, 100_000), Err(EditError::Misordered));
    assert_eq!(p.get(1), Some(CurvePoint { x: 5_000, y: 0, curve: 0 }));
}
