use langtour::random::random_draws;
use langtour::shapes::Rect;
use langtour::song::learn_song;
use langtour::util::add;
use langtour::util::divide;

#[test]
fn add_sums() {
    assert_eq!(add(1, 2), 3);
    assert_eq!(add(-5, 3), -2);
    assert_eq!(add(i32::MAX - 1, 1), i32::MAX);
}

#[test]
fn divide_rounds_toward_zero() {
    assert_eq!(divide(7, 2), 3);
    assert_eq!(divide(-7, 2), -3);
    assert_eq!(divide(7, -2), -3);
    assert_eq!(divide(-7, -2), 3);
    assert_eq!(divide(0, 5), 0);
    assert_eq!(divide(i32::MIN, 1), i32::MIN);
    assert_eq!(divide(i32::MIN, 2), i32::MIN / 2);
    assert_eq!(divide(i32::MIN, -2), i32::MIN / -2);
}

#[test]
fn rect_area() {
    let r = Rect {
        width: 200,
        height: 300,
    };
    assert_eq!(r.area(), 60000);
    let s = Rect {
        width: 0,
        height: u32::MAX,
    };
    assert_eq!(s.area(), 0);
}

#[test]
fn song_lyric_is_fixed() {
    let s = learn_song();
    assert_eq!(s.lyric, "La la la...");
}

#[test]
fn random_draws_stay_in_bounds() {
    let v = random_draws(9);
    assert_eq!(v.len(), 9);
    for x in &v {
        assert!(1 <= *x && *x <= 100);
    }
    let empty = random_draws(0);
    assert!(empty.is_empty());
}
