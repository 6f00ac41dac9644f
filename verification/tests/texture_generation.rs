use vibe_renderer::texture_generation::light_sources::cluster_manager::ClusterManager;
use vibe_renderer::texture_generation::sdf_mask::{SdfMask, SdfPattern};
use vibe_renderer::texture_generation::value_noise::ValueNoise;
use vibe_renderer::texture_generation::{workgroup_count, Size};

#[test]
fn workgroups_round_up() {
    assert_eq!(workgroup_count(0), 0);
    assert_eq!(workgroup_count(1), 1);
    assert_eq!(workgroup_count(16), 1);
    assert_eq!(workgroup_count(17), 2);
    assert_eq!(workgroup_count(256), 16);
    assert_eq!(workgroup_count(u32::MAX), u32::MAX / 16 + 1);
}

#[test]
fn generators_dispatch_over_their_texture() {
    let mask = SdfMask {
        pattern: SdfPattern::Heart,
        texture_size: 256,
    };
    assert_eq!(mask.workgroups(), 16);
    assert_eq!(mask.pattern.id(), 2);
    let noise = ValueNoise {
        texture_size: 50,
        octaves: 7,
    };
    assert_eq!(noise.workgroups(), 4);
}

#[test]
fn cluster_centers_grow_up_to_the_maximum() {
    let mut manager = ClusterManager::new(3);
    assert_eq!(manager.amount_centers(), 1);
    assert!(manager.add_center());
    assert!(manager.add_center());
    assert_eq!(manager.amount_centers(), 3);
    assert!(!manager.add_center());
    assert_eq!(manager.amount_centers(), 3);
    assert_eq!(manager.amount_centers_max(), 3);
}

#[test]
fn size_holds_its_sides() {
    let size = Size {
        width: 3,
        height: 4,
    };
    let copy = size.clone();
    assert_eq!((copy.width, copy.height), (3, 4));
}
