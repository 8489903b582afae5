use beat_pong::geometry::{point_in_rect, radius_offset, HitRectangle};
use beat_pong::state::Side;

#[test]
fn radius_offset_is_eleven_tenths_rounded_up() {
    assert_eq!(radius_offset(5_000), 5_500);
    assert_eq!(radius_offset(0), 0);
    assert_eq!(radius_offset(10), 11);
}

#[test]
fn radius_offset_strictly_pads_every_positive_radius() {
    // The inflation factor is strictly above one even where 11/10 of the
    // radius is not a whole number of units: the offset rounds up.
    assert_eq!(radius_offset(1), 2);
    assert_eq!(radius_offset(5), 6);
    assert_eq!(radius_offset(9), 10);
    for radius in 1..200 {
        assert!(radius_offset(radius) > radius);
    }
}

#[test]
fn hit_rectangle_left_side_inflates_by_offset() {
    let rect = HitRectangle::new(20_000, 50_000, 10_000, 40_000, 5_000, &Side::Left);
    assert_eq!(rect.left.0, 14_500);
    assert_eq!(rect.right.0, 35_500);
    assert_eq!(rect.bottom.0, 44_500);
    assert_eq!(rect.top.0, 95_500);
}

#[test]
fn hit_rectangle_top_side_swaps_width_and_height() {
    let rect = HitRectangle::new(20_000, 50_000, 10_000, 40_000, 5_000, &Side::Top);
    assert_eq!(rect.left.0, 14_500);
    assert_eq!(rect.right.0, 65_500);
    assert_eq!(rect.bottom.0, 44_500);
    assert_eq!(rect.top.0, 65_500);
}

#[test]
fn containment_is_inclusive_on_every_boundary() {
    let rect = HitRectangle::new(20_000, 50_000, 10_000, 40_000, 5_000, &Side::Left);
    // Exactly on each of the four boundary lines counts as contact.
    assert!(point_in_rect(14_500, 50_000, &rect));
    assert!(point_in_rect(35_500, 50_000, &rect));
    assert!(point_in_rect(25_000, 44_500, &rect));
    assert!(point_in_rect(25_000, 95_500, &rect));
    // Corners too.
    assert!(point_in_rect(14_500, 44_500, &rect));
    assert!(point_in_rect(35_500, 95_500, &rect));
    // One unit outside is no contact.
    assert!(!point_in_rect(35_501, 50_000, &rect));
    assert!(!point_in_rect(14_499, 50_000, &rect));
    assert!(!point_in_rect(25_000, 44_499, &rect));
    assert!(!point_in_rect(25_000, 95_501, &rect));
}
