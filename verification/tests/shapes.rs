use sulis::geometry::{Footprint, Point};
use sulis::module::ObjectSize;
use sulis::shape::{is_centered_covering, is_in_circle, is_in_cone, is_on_line, Shape};

fn sizes_for_shapes() -> Vec<ObjectSize> {
    vec![
        ObjectSize { id: String::from("1by1"), footprint: Footprint { width: 1, height: 1 } },
        ObjectSize { id: String::from("2by2"), footprint: Footprint { width: 2, height: 2 } },
        ObjectSize { id: String::from("3by3"), footprint: Footprint { width: 3, height: 3 } },
    ]
}

fn covered_tiles(shape: &Shape, cursor: Point, from: i32, to: i32) -> Vec<(i32, i32)> {
    let sizes = sizes_for_shapes();
    let mut tiles = Vec::new();
    for y in from..=to {
        for x in from..=to {
            if shape.is_covering(&sizes, cursor, x, y) {
                tiles.push((x, y));
            }
        }
    }
    tiles
}

#[test]
fn circle_of_radius_zero_covers_the_origin_only() {
    let shape = Shape::Circle { radius: 0 };
    assert_eq!(covered_tiles(&shape, Point::new(4, -2), -10, 10), vec![(4, -2)]);
}

#[test]
fn circle_of_radius_three_covers_exactly_the_tiles_within_three() {
    let shape = Shape::Circle { radius: 3 };
    let cursor = Point::new(10, 20);
    let sizes = sizes_for_shapes();
    let mut count = 0;
    for y in 10..=30 {
        for x in 0..=20 {
            let dx = (x - 10) as f64;
            let dy = (y - 20) as f64;
            let within = (dx * dx + dy * dy).sqrt() <= 3.0;
            assert_eq!(shape.is_covering(&sizes, cursor, x, y), within);
            if within {
                count += 1;
            }
        }
    }
    assert_eq!(count, 29);
}

#[test]
fn circle_covers_a_tile_exactly_on_its_boundary() {
    assert!(is_in_circle(0, 0, 3, 3, 0));
    assert!(is_in_circle(0, 0, 3, 0, -3));
    assert!(!is_in_circle(0, 0, 3, 4, 0));
    assert!(is_in_circle(0, 0, 3, 2, 2));
    assert!(!is_in_circle(0, 0, 3, 3, 1));
    assert!(is_in_circle(0, 0, 5, 3, 4));
    assert!(is_in_circle(0, 0, 5, -4, 3));
    assert!(!is_in_circle(0, 0, 5, 4, 4));
    assert!(is_in_circle(7, 7, 5, 10, 11));
    assert!(!is_in_circle(7, 7, 5, 10, 12));
}

#[test]
fn circle_test_does_not_overflow_at_the_ends_of_the_map() {
    assert!(!is_in_circle(i32::MIN, i32::MIN, 3, i32::MAX, i32::MAX));
    assert!(is_in_circle(i32::MIN, 0, u32::MAX, i32::MAX, 0));
    assert!(!is_in_circle(i32::MIN, 0, u32::MAX - 1, i32::MAX, 0));
    assert!(!is_in_circle(i32::MIN, i32::MIN, u32::MAX, i32::MAX, i32::MAX));
    assert!(is_in_circle(i32::MAX, i32::MAX, 0, i32::MAX, i32::MAX));
}

#[test]
fn single_covers_the_tile_under_the_cursor() {
    assert_eq!(covered_tiles(&Shape::Single, Point::new(1, 2), -5, 5), vec![(1, 2)]);
}

#[test]
fn cone_covers_the_wedge_towards_the_cursor() {
    // half angle of 45 degrees: tangent 1 / 1
    let east = Shape::Cone { origin_x: 0, origin_y: 0, radius: 2, spread_num: 1, spread_den: 1 };
    assert_eq!(
        covered_tiles(&east, Point::new(5, 0), -4, 4),
        vec![(1, -1), (0, 0), (1, 0), (2, 0), (1, 1)]
    );
    let north = covered_tiles(&east, Point::new(0, -9), -4, 4);
    assert_eq!(north, vec![(0, -2), (-1, -1), (0, -1), (1, -1), (0, 0)]);
    // a narrow cone: tangent 1 / 2
    let narrow = Shape::Cone { origin_x: 0, origin_y: 0, radius: 4, spread_num: 1, spread_den: 2 };
    let sizes = sizes_for_shapes();
    assert!(narrow.is_covering(&sizes, Point::new(1, 0), 4, 0));
    assert!(narrow.is_covering(&sizes, Point::new(1, 0), 2, 1));
    assert!(!narrow.is_covering(&sizes, Point::new(1, 0), 1, 1));
    assert!(!narrow.is_covering(&sizes, Point::new(1, 0), 5, 0));
    assert!(!narrow.is_covering(&sizes, Point::new(1, 0), -1, 0));
    // with the cursor on the origin the cone is the whole circle
    assert_eq!(
        covered_tiles(&east, Point::new(0, 0), -4, 4),
        covered_tiles(&Shape::Circle { radius: 2 }, Point::new(0, 0), -4, 4)
    );
    assert!(is_in_cone(3, 3, 4, 4, 3, 0, 1, 5, 5));
    assert!(!is_in_cone(3, 3, 4, 4, 3, 0, 1, 5, 4));
    assert!(!is_in_cone(i32::MIN, 0, i32::MAX, 0, 10, u32::MAX, 1, i32::MAX, 0));
    assert!(is_in_cone(i32::MIN, 0, i32::MAX, 0, u32::MAX, u32::MAX, u32::MAX, i32::MAX, 0));
}

#[test]
fn line_covers_the_tiles_from_the_origin_to_the_cursor() {
    let one = Footprint { width: 1, height: 1 };
    let mut tiles = Vec::new();
    for y in -1..=4 {
        for x in -1..=7 {
            if is_on_line(one, 0, 0, 6, 3, x, y) {
                tiles.push((x, y));
            }
        }
    }
    // steps 0..=6 stand at (0,0) (1,1) (2,1) (3,2) (4,2) (5,3) (6,3)
    assert_eq!(tiles, vec![(0, 0), (1, 1), (2, 1), (3, 2), (4, 2), (5, 3), (6, 3)]);
    assert!(is_on_line(one, 2, 2, 2, 2, 2, 2));
    assert!(!is_on_line(one, 2, 2, 2, 2, 3, 2));
    assert!(is_on_line(one, 0, 0, -3, 0, -2, 0));
    assert!(!is_on_line(one, 0, 0, -3, 0, -4, 0));
    assert!(is_on_line(one, 0, 0, -2, -4, -1, -2));
    assert!(is_on_line(one, 0, 0, -1, -2, 0, -1));
    assert!(!is_on_line(one, 0, 0, -1, -2, -1, -1));
    let two = Footprint { width: 2, height: 2 };
    assert!(is_on_line(two, 0, 0, 3, 0, 4, 1));
    assert!(!is_on_line(two, 0, 0, 3, 0, 5, 0));
    assert!(!is_on_line(two, 0, 0, 3, 0, 0, 2));
    assert!(!is_on_line(Footprint { width: 0, height: 1 }, 0, 0, 3, 0, 1, 0));
    let shape = Shape::Line { size: String::from("1by1"), origin_x: 0, origin_y: 0 };
    assert_eq!(
        covered_tiles(&shape, Point::new(2, -2), -3, 3),
        vec![(2, -2), (1, -1), (0, 0)]
    );
}

#[test]
fn object_size_covers_the_footprint_about_the_cursor() {
    let shape = Shape::ObjectSize { size: String::from("3by3") };
    assert_eq!(
        covered_tiles(&shape, Point::new(0, 0), -3, 3),
        vec![(-1, -1), (0, -1), (1, -1), (-1, 0), (0, 0), (1, 0), (-1, 1), (0, 1), (1, 1)]
    );
    let even = Shape::ObjectSize { size: String::from("2by2") };
    assert_eq!(
        covered_tiles(&even, Point::new(5, 5), 0, 9),
        vec![(4, 4), (5, 4), (4, 5), (5, 5)]
    );
    assert!(is_centered_covering(Footprint { width: 1, height: 1 }, i32::MIN, 0, i32::MIN, 0));
    assert!(!is_centered_covering(Footprint { width: 0, height: 0 }, 0, 0, 0, 0));
    assert!(is_centered_covering(Footprint { width: u32::MAX, height: 1 }, 0, 0, i32::MIN + 1, 0));
    assert!(!is_centered_covering(Footprint { width: u32::MAX, height: 1 }, 0, 0, i32::MIN, 0));
}

#[test]
fn a_shape_of_an_unknown_object_size_covers_nothing() {
    let line = Shape::Line { size: String::from("4by4"), origin_x: 0, origin_y: 0 };
    let object = Shape::ObjectSize { size: String::from("") };
    assert!(covered_tiles(&line, Point::new(0, 0), -3, 3).is_empty());
    assert!(covered_tiles(&object, Point::new(0, 0), -3, 3).is_empty());
}

#[test]
fn footprints_cover_the_tiles_right_and_down_from_where_they_stand() {
    let two = Footprint { width: 2, height: 3 };
    let at = Point::new(4, 4);
    assert!(two.is_covering(at, 4, 4));
    assert!(two.is_covering(at, 5, 6));
    assert!(!two.is_covering(at, 6, 4));
    assert!(!two.is_covering(at, 4, 7));
    assert!(!two.is_covering(at, 3, 4));
    assert!(!two.is_covering(at, 4, 3));
    let wide = Footprint { width: u32::MAX, height: u32::MAX };
    assert!(wide.is_covering(Point::new(i32::MIN, i32::MIN), i32::MAX - 1, i32::MAX - 1));
    assert!(!wide.is_covering(Point::new(i32::MIN, i32::MIN), i32::MAX, i32::MAX));
    assert!(wide.is_covering(Point::new(i32::MAX, i32::MAX), i32::MAX, i32::MAX));
}
