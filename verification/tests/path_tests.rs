use raytracer::path::{is_exhausted, next_step, Step, Surface};

#[test]
fn path_without_bounces_left_is_exhausted() {
    assert!(is_exhausted(0));
    assert!(is_exhausted(-1));
    assert!(is_exhausted(i64::MIN));
    assert!(!is_exhausted(1));
    assert!(!is_exhausted(50));
    assert!(!is_exhausted(i64::MAX));
}

#[test]
fn exhausted_path_is_black_whatever_the_scene_says() {
    for depth in [0, -1, -50, i64::MIN] {
        assert_eq!(next_step(depth, Surface::Miss), Step::Black);
        assert_eq!(next_step(depth, Surface::Absorbed), Step::Black);
        assert_eq!(next_step(depth, Surface::Scattered), Step::Black);
    }
}

#[test]
fn miss_ends_in_the_background() {
    assert_eq!(next_step(1, Surface::Miss), Step::Background);
    assert_eq!(next_step(50, Surface::Miss), Step::Background);
}

#[test]
fn absorbed_ray_is_black() {
    assert_eq!(next_step(1, Surface::Absorbed), Step::Black);
    assert_eq!(next_step(50, Surface::Absorbed), Step::Black);
}

#[test]
fn scattered_ray_goes_on_with_one_bounce_less() {
    assert_eq!(next_step(50, Surface::Scattered), Step::Bounce(49));
    assert_eq!(next_step(1, Surface::Scattered), Step::Bounce(0));
    assert_eq!(next_step(i64::MAX, Surface::Scattered), Step::Bounce(i64::MAX - 1));
}

#[test]
fn path_that_always_scatters_asks_the_scene_once_per_bounce() {
    for max_depth in [0i64, 1, 2, 50] {
        let mut depth = max_depth;
        let mut asked = 0;
        let end = loop {
            if is_exhausted(depth) {
                break Step::Black;
            }
            asked += 1;
            match next_step(depth, Surface::Scattered) {
                Step::Bounce(left) => depth = left,
                end => break end,
            }
        };
        assert_eq!(end, Step::Black);
        assert_eq!(asked, max_depth);
    }
}

#[test]
fn one_bounce_path_off_a_diffuse_sphere_carries_no_background_light() {
    let first = next_step(1, Surface::Scattered);
    assert_eq!(first, Step::Bounce(0));
    assert!(is_exhausted(0));
    assert_eq!(next_step(0, Surface::Miss), Step::Black);
    assert_eq!(next_step(1, Surface::Miss), Step::Background);
}
