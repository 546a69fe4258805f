use planet_shaders::color::pack_rgb;
use planet_shaders::noise::{cell_seed, hash_mix};
use planet_shaders::raster::fill_row;
use planet_shaders::scene::{nearest_hit, resolve_hit, shadowed, HitTarget, GAS_GIANT, STAR};
use planet_shaders::sphere::SphereKind;

fn key(t: f32) -> Option<u32> {
    Some(t.to_bits())
}

#[test]
fn hash_mix_known_values() {
    assert_eq!(hash_mix(0), 2777792455);
    assert_eq!(hash_mix(1), 4114293045);
    assert_eq!(hash_mix(61), 461708596);
    assert_eq!(hash_mix(12345), 2891361855);
    assert_eq!(hash_mix(u32::MAX), 1292840050);
}

#[test]
fn hash_mix_is_deterministic() {
    for n in [0u32, 7, 99, 123456789, u32::MAX] {
        assert_eq!(hash_mix(n), hash_mix(n));
    }
    assert_ne!(hash_mix(1), 1);
}

#[test]
fn cell_seed_known_values() {
    assert_eq!(cell_seed(0, 0, 0), 0);
    assert_eq!(cell_seed(1, 0, 0), 73856093);
    assert_eq!(cell_seed(1, 2, 3), 147163718);
    assert_eq!(cell_seed(-1, 0, 0), 4221111203);
    assert_eq!(cell_seed(-5, 7, -9), 853146855);
}

#[test]
fn mixed_cell_seeds() {
    assert_eq!(hash_mix(cell_seed(0, 0, 0)), 2777792455);
    assert_eq!(hash_mix(cell_seed(1, 2, 3)), 775968141);
    assert_eq!(hash_mix(cell_seed(-5, 7, -9)), 3709012914);
}

#[test]
fn pack_rgb_layout() {
    assert_eq!(pack_rgb(0, 0, 0), 0);
    assert_eq!(pack_rgb(255, 255, 255), 0x00ff_ffff);
    assert_eq!(pack_rgb(255, 0, 0), 0x00ff_0000);
    assert_eq!(pack_rgb(0, 255, 0), 0x0000_ff00);
    assert_eq!(pack_rgb(0, 0, 255), 0x0000_00ff);
    assert_eq!(pack_rgb(0x12, 0x34, 0x56), 0x0012_3456);
}

#[test]
fn distance_keys_order_as_distances() {
    let ts = [0.0f32, 0.001, 0.5, 1.0, 2.75, 1000.0, f32::INFINITY];
    for a in ts {
        for b in ts {
            assert_eq!(a < b, a.to_bits() < b.to_bits());
        }
    }
}

#[test]
fn nearest_hit_picks_smallest_distance() {
    assert_eq!(nearest_hit(&vec![]), None);
    assert_eq!(nearest_hit(&vec![None, None, None, None]), None);
    assert_eq!(nearest_hit(&vec![key(5.0), None, key(2.5), key(7.0)]), Some(2));
    assert_eq!(nearest_hit(&vec![None, None, None, key(0.01)]), Some(3));
}

#[test]
fn nearest_hit_first_of_equal_distances_wins() {
    assert_eq!(nearest_hit(&vec![None, key(3.0), key(3.0), key(4.0)]), Some(1));
}

#[test]
fn resolve_hit_sky_when_nothing_is_hit() {
    assert_eq!(resolve_hit(&vec![None, None, None, None], None), HitTarget::Sky);
    assert_eq!(resolve_hit(&vec![], None), HitTarget::Sky);
}

#[test]
fn resolve_hit_ring_without_spheres() {
    assert_eq!(resolve_hit(&vec![None, None, None, None], key(4.0)), HitTarget::Ring);
}

#[test]
fn resolve_hit_ring_strictly_nearer_wins() {
    let spheres = vec![key(8.0), None, None, key(6.0)];
    assert_eq!(resolve_hit(&spheres, key(5.5)), HitTarget::Ring);
    assert_eq!(resolve_hit(&spheres, key(6.0)), HitTarget::Sphere(GAS_GIANT));
    assert_eq!(resolve_hit(&spheres, key(9.0)), HitTarget::Sphere(GAS_GIANT));
    assert_eq!(resolve_hit(&spheres, None), HitTarget::Sphere(GAS_GIANT));
}

#[test]
fn shadowed_by_occluder_before_light() {
    // The shadow ray meets the rocky planet at 2.0, the star (the light) at 4.0.
    let hits = vec![key(4.0), key(2.0), None, None];
    assert!(shadowed(&hits, STAR, 4.5f32.to_bits()));
}

#[test]
fn light_never_shadows_itself() {
    let hits = vec![key(1.0), None, None, None];
    assert!(!shadowed(&hits, STAR, 4.0f32.to_bits()));
}

#[test]
fn occluder_at_light_distance_does_not_shadow() {
    let hits = vec![None, key(3.0), None, key(5.0)];
    assert!(!shadowed(&hits, STAR, 3.0f32.to_bits()));
    assert!(shadowed(&hits, STAR, 3.0001f32.to_bits()));
}

#[test]
fn unoccluded_when_nothing_is_hit() {
    assert!(!shadowed(&vec![None, None, None, None], STAR, 10.0f32.to_bits()));
    assert!(!shadowed(&vec![], 0, 10.0f32.to_bits()));
}

#[test]
fn fill_row_writes_every_pixel_of_the_row() {
    let width = 5usize;
    let height = 3usize;
    let mut frame = vec![0u32; width * height];
    let pixel = |i: usize, j: usize| (j * 100 + i) as u32;
    for (j, row) in frame.chunks_mut(width).enumerate() {
        fill_row(row, j, &pixel);
    }
    for j in 0..height {
        for i in 0..width {
            assert_eq!(frame[j * width + i], (j * 100 + i) as u32);
        }
    }
}

#[test]
fn fill_row_empty_row() {
    let mut row: Vec<u32> = vec![];
    fill_row(&mut row, 0, &|_i: usize, _j: usize| 7u32);
    assert!(row.is_empty());
}

#[test]
fn sphere_kinds_are_distinct() {
    let kinds = [SphereKind::Star, SphereKind::Rocky, SphereKind::GasGiant, SphereKind::Moon];
    for a in 0..kinds.len() {
        for b in 0..kinds.len() {
            assert_eq!(a == b, kinds[a] == kinds[b]);
        }
    }
}

#[test]
fn removing_the_occluder_lights_the_point() {
    let light_dist = 6.0f32.to_bits();
    let mut hits = vec![key(6.5), None, key(2.0), key(9.0)];
    assert!(shadowed(&hits, STAR, light_dist));
    hits[2] = None;
    assert!(!shadowed(&hits, STAR, light_dist));
}
