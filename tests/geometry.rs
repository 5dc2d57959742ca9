use pong::geometry::{check_collision_circle_rec, isqrt, Circle, Rectangle, Vector2, SCALE, UNIT_TOLERANCE};

fn px(v: i64) -> i64 {
    v * SCALE
}

fn is_unit(v: &Vector2) -> bool {
    let s = (v.x as i128) * (v.x as i128) + (v.y as i128) * (v.y as i128);
    let lo = ((SCALE - UNIT_TOLERANCE) as i128).pow(2);
    let hi = ((SCALE + UNIT_TOLERANCE) as i128).pow(2);
    lo <= s && s <= hi
}

#[test]
fn isqrt_rounds_down() {
    assert_eq!(isqrt(0), 0);
    assert_eq!(isqrt(24), 4);
    assert_eq!(isqrt(25), 5);
    assert_eq!(isqrt(u128::MAX), u64::MAX as u128);
}

#[test]
fn length_of_three_four_five() {
    let v = Vector2::new(px(3), px(4));
    assert_eq!(v.length(), px(5));
}

#[test]
fn normalize_exact_triangle() {
    let mut v = Vector2::new(px(3), px(4));
    v.normalize();
    assert_eq!(v, Vector2::new(600_000, 800_000));
}

#[test]
fn normalize_diagonal_has_unit_length() {
    let mut v = Vector2::new(px(1), -px(1));
    v.normalize();
    assert!(is_unit(&v));
    assert!(v.x > 0 && v.y < 0);
    assert_eq!(v.x, -v.y);
}

#[test]
fn normalize_at_epsilon_keeps_precision() {
    let mut v = Vector2::new(6, 8);
    v.normalize();
    assert_eq!(v, Vector2::new(600_000, 800_000));
}

#[test]
fn normalize_below_epsilon_is_identity() {
    let mut v = Vector2::new(3, 4);
    v.normalize();
    assert_eq!(v, Vector2::new(3, 4));
    let mut z = Vector2::new(0, 0);
    z.normalize();
    assert_eq!(z, Vector2::new(0, 0));
}

#[test]
fn normalize_huge_vector() {
    let mut v = Vector2::new(i64::MAX, i64::MIN);
    v.normalize();
    assert!(is_unit(&v));
}

#[test]
fn add_and_scale() {
    let a = Vector2::new(px(2), -px(3));
    let b = Vector2::new(px(1), px(1));
    assert_eq!(a.add(b), Vector2::new(px(3), -px(2)));
    assert_eq!(a.mul(SCALE / 2), Vector2::new(px(1), -1_500_000));
    let mut c = a;
    c.add_assign(b);
    assert_eq!(c, Vector2::new(px(3), -px(2)));
}

#[test]
fn rectangle_from_center() {
    let r = Rectangle::from(&Vector2::new(px(75), px(100)), &Vector2::new(px(75), px(20)));
    assert_eq!(r, Rectangle { x: 37_500_000, y: px(90), width: px(75), height: px(20) });
}

#[test]
fn circle_inside_rectangle_collides() {
    let rect = Rectangle { x: 0, y: 0, width: px(100), height: px(100) };
    let c = Circle::from(&Vector2::new(px(50), px(50)), px(10));
    assert!(check_collision_circle_rec(&c, &rect));
}

#[test]
fn circle_touching_edge_collides() {
    let rect = Rectangle { x: 0, y: 0, width: px(100), height: px(100) };
    let c = Circle::from(&Vector2::new(px(107), px(50)), px(7));
    assert!(check_collision_circle_rec(&c, &rect));
}

#[test]
fn circle_near_corner() {
    let c = Circle::from(&Vector2::new(0, 0), px(5));
    let touching = Rectangle { x: px(3), y: px(4), width: px(10), height: px(10) };
    let apart = Rectangle { x: px(4), y: px(4), width: px(10), height: px(10) };
    assert!(check_collision_circle_rec(&c, &touching));
    assert!(!check_collision_circle_rec(&c, &apart));
}

#[test]
fn separated_bounding_box_misses() {
    let rect = Rectangle { x: 0, y: 0, width: px(100), height: px(100) };
    let c = Circle::from(&Vector2::new(px(120), px(50)), px(10));
    assert!(!check_collision_circle_rec(&c, &rect));
}

#[test]
fn collision_symmetric_under_reflection() {
    let rect = Rectangle { x: px(10), y: px(20), width: px(30), height: px(40) };
    let cases = [(px(5), px(15), px(6)), (px(45), px(65), px(7)), (px(0), px(0), px(3)), (px(25), px(70), px(11))];
    for (cx, cy, r) in cases {
        let c = Circle::from(&Vector2::new(cx, cy), r);
        let mirrored_x = Circle::from(&Vector2::new(-cx, cy), r);
        let rect_x = Rectangle { x: -(rect.x + rect.width), ..rect };
        let mirrored_y = Circle::from(&Vector2::new(cx, -cy), r);
        let rect_y = Rectangle { y: -(rect.y + rect.height), ..rect };
        let hit = check_collision_circle_rec(&c, &rect);
        assert_eq!(hit, check_collision_circle_rec(&mirrored_x, &rect_x));
        assert_eq!(hit, check_collision_circle_rec(&mirrored_y, &rect_y));
    }
}
