use pathtracer::gpu::{aabb_reduce, digest_words, gen_rays, intersect, skin};

#[test]
fn digest_folds_the_words() {
    assert_eq!(digest_words(&vec![]), 0);
    assert_eq!(digest_words(&vec![0xff00, 0x00ff]), 0xffff);
}

#[test]
fn rays_derive_from_camera_and_pixel_index() {
    let rays = gen_rays(&vec![0, 0], 4);
    assert_eq!(rays, vec![0, 1, 2, 3]);
    let rays = gen_rays(&vec![0x10], 2);
    assert_eq!(rays, vec![0x10, 0x11]);
}

#[test]
fn skinning_combines_pose_with_rest_vertices() {
    let vout = skin(&vec![0], &vec![1, 2, 3, 4]);
    assert_eq!(vout, vec![1, 2, 3, 4]);
    let vout = skin(&vec![0xf0], &vec![0x01, 0x02]);
    assert_eq!(vout, vec![0xf1, 0xf2]);
}

#[test]
fn single_vertex_bound_degenerates_to_the_vertex() {
    // One vertex: the minimum corner and the maximum corner both equal
    // its coordinates, signed values included.
    let v = vec![5, (-3i32) as u32, 0, 1];
    let bound = aabb_reduce(&v, 1);
    assert_eq!(&bound[0..4], &v[..]);
    assert_eq!(&bound[4..8], &v[..]);
}

#[test]
fn bound_is_the_componentwise_min_and_max() {
    let vout = vec![
        (-5i32) as u32, 10, 0, 1, //
        3, (-2i32) as u32, 7, 1,
    ];
    let bound = aabb_reduce(&vout, 2);
    assert_eq!(bound[0], (-5i32) as u32);
    assert_eq!(bound[1], (-2i32) as u32);
    assert_eq!(bound[2], 0);
    assert_eq!(bound[3], 1);
    assert_eq!(bound[4], 3);
    assert_eq!(bound[5], 10);
    assert_eq!(bound[6], 7);
    assert_eq!(bound[7], 1);
}

#[test]
fn intersection_is_deterministic_in_its_inputs() {
    let rays = gen_rays(&vec![9, 9], 8);
    let vout = skin(&vec![9, 9], &vec![1, 2, 3, 4]);
    let idx = vec![0, 1, 2];
    let bound = aabb_reduce(&vout, 1);
    let a = intersect(&rays, &vout, &idx, &bound);
    let b = intersect(&rays, &vout, &idx, &bound);
    assert_eq!(a, b);
    assert_eq!(a.len(), rays.len());
}

#[test]
fn intersection_depends_on_the_bound() {
    let rays = gen_rays(&vec![9], 4);
    let vout = vec![1, 2, 3, 4];
    let idx = vec![0];
    let a = intersect(&rays, &vout, &idx, &vec![0, 0]);
    let b = intersect(&rays, &vout, &idx, &vec![0, 1]);
    assert_ne!(a, b);
}
