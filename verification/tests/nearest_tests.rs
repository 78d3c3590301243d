use raytracer::depth::{depth_key, key_bits};
use raytracer::nearest::{nearest, select_root};

fn key(t: f64) -> u64 {
    depth_key(t.to_bits())
}

fn distance(key: u64) -> f64 {
    f64::from_bits(key_bits(key))
}

/// The two distances at which the ray from `origin` along the z axis, looking
/// towards minus z, meets the sphere around `(0, 0, center_z)`.
fn roots_on_axis(origin_z: f64, center_z: f64, radius: f64) -> Option<(f64, f64)> {
    let oc = origin_z - center_z;
    let a = 1.0;
    let half_b = -oc;
    let c = oc * oc - radius * radius;
    let discriminant = half_b * half_b - a * c;
    if discriminant < 0.0 {
        return None;
    }
    let root = discriminant.sqrt();
    Some(((-half_b - root) / a, (-half_b + root) / a))
}

fn hit_on_axis(origin_z: f64, center_z: f64, radius: f64) -> Option<u64> {
    let (near, far) = roots_on_axis(origin_z, center_z, radius)?;
    select_root(key(near), key(far), key(0.001), key(f64::INFINITY))
}

#[test]
fn nearer_root_is_taken_when_in_range() {
    assert_eq!(select_root(5, 9, 1, 100), Some(5));
    assert_eq!(select_root(5, 9, 5, 5), Some(5));
    assert_eq!(select_root(1, 100, 1, 100), Some(1));
}

#[test]
fn farther_root_is_taken_when_the_nearer_is_out_of_range() {
    assert_eq!(select_root(5, 9, 6, 100), Some(9));
    assert_eq!(select_root(5, 9, 9, 9), Some(9));
    assert_eq!(select_root(200, 9, 1, 100), Some(9));
}

#[test]
fn no_root_when_both_are_out_of_range() {
    assert_eq!(select_root(5, 9, 10, 100), None);
    assert_eq!(select_root(5, 9, 1, 4), None);
    assert_eq!(select_root(5, 9, 6, 8), None);
    assert_eq!(select_root(5, 9, 8, 6), None);
}

#[test]
fn ray_through_the_center_enters_at_distance_minus_radius() {
    let root = hit_on_axis(0.0, -1.0, 0.5).unwrap();
    assert_eq!(distance(root), 0.5);
    let root = hit_on_axis(3.0, -1.0, 0.5).unwrap();
    assert_eq!(distance(root), 3.5);
}

#[test]
fn ray_from_inside_leaves_through_the_far_side() {
    let root = hit_on_axis(-1.0, -1.0, 0.5).unwrap();
    assert_eq!(distance(root), 0.5);
    let (near, _) = roots_on_axis(-1.0, -1.0, 0.5).unwrap();
    assert_eq!(near, -0.5);
    let root = hit_on_axis(-0.75, -1.0, 0.5).unwrap();
    assert_eq!(distance(root), 0.75);
    let root = hit_on_axis(-1.25, -1.0, 0.5).unwrap();
    assert_eq!(distance(root), 0.25);
}

#[test]
fn sphere_behind_the_ray_is_missed() {
    assert_eq!(hit_on_axis(0.0, 1.0, 0.5), None);
}

#[test]
fn nearest_of_no_candidates_is_none() {
    assert_eq!(nearest(&Vec::new()), None);
    assert_eq!(nearest(&vec![None, None, None]), None);
}

#[test]
fn nearest_is_the_least_distance() {
    assert_eq!(nearest(&vec![Some(5)]), Some(0));
    assert_eq!(nearest(&vec![Some(5), Some(3), Some(9)]), Some(1));
    assert_eq!(nearest(&vec![None, Some(5), None, Some(4), None]), Some(3));
    assert_eq!(nearest(&vec![Some(0), Some(u64::MAX)]), Some(0));
    assert_eq!(nearest(&vec![Some(u64::MAX)]), Some(0));
    assert_eq!(nearest(&vec![None, Some(u64::MAX), None]), Some(1));
}

#[test]
fn last_of_equally_near_hits_wins() {
    assert_eq!(nearest(&vec![Some(3), Some(3)]), Some(1));
    assert_eq!(nearest(&vec![Some(5), None, Some(3), Some(3), Some(4)]), Some(3));
    assert_eq!(nearest(&vec![Some(u64::MAX), Some(u64::MAX)]), Some(1));
}

#[test]
fn nearer_of_two_overlapping_spheres_wins_in_either_order() {
    let front = hit_on_axis(0.0, -1.0, 0.5);
    let back = hit_on_axis(0.0, -1.25, 0.5);
    assert_eq!(front.map(distance), Some(0.5));
    assert_eq!(back.map(distance), Some(0.75));

    let one_way = vec![front, back];
    let other_way = vec![back, front];
    let i = nearest(&one_way).unwrap();
    let j = nearest(&other_way).unwrap();
    assert_eq!(i, 0);
    assert_eq!(j, 1);
    assert_eq!(one_way[i], other_way[j]);
    assert_eq!(one_way[i].map(distance), Some(0.5));
}

#[test]
fn nearest_does_not_depend_on_the_order_of_the_candidates() {
    let candidates = [Some(key(2.5)), None, Some(key(0.25)), Some(key(7.0)), None, Some(key(1.0))];
    let n = candidates.len();
    for shift in 0..n {
        let mut rotated: Vec<Option<u64>> = Vec::new();
        for k in 0..n {
            rotated.push(candidates[(k + shift) % n]);
        }
        let i = nearest(&rotated).unwrap();
        assert_eq!(rotated[i].map(distance), Some(0.25));
        rotated.reverse();
        let j = nearest(&rotated).unwrap();
        assert_eq!(rotated[j].map(distance), Some(0.25));
    }
}
