use headless_raster::cache::{align16, resolve, TargetAction, TargetCache};
use headless_raster::geom::PixelSize;

#[test]
fn alignment_rounds_up_to_sixteen() {
    assert_eq!(align16(1), 16);
    assert_eq!(align16(15), 16);
    assert_eq!(align16(16), 16);
    assert_eq!(align16(17), 32);
    assert_eq!(align16(100), 112);
    assert_eq!(align16(0xffff_fff0), 0xffff_fff0);
}

#[test]
fn resolve_decides_create_reuse_resize() {
    let requested = PixelSize { width: 100, height: 100 };
    let aligned = PixelSize { width: 112, height: 112 };

    let (action, size) = resolve(requested, None);
    assert_eq!(action, TargetAction::Create);
    assert_eq!(size, aligned);

    let (action, size) = resolve(requested, Some(aligned));
    assert_eq!(action, TargetAction::Reuse);
    assert_eq!(size, aligned);

    let (action, size) = resolve(requested, Some(PixelSize { width: 64, height: 64 }));
    assert_eq!(action, TargetAction::Resize);
    assert_eq!(size, aligned);
}

#[test]
fn same_size_twice_does_not_reallocate() {
    let mut cache = TargetCache::new();
    let size = PixelSize { width: 100, height: 100 };

    let first = cache.request(size);
    assert_eq!(first, TargetAction::Create);
    assert_eq!(cache.allocations, 1);

    let second = cache.request(size);
    assert_eq!(second, TargetAction::Reuse);
    assert_eq!(cache.allocations, 1);
}

#[test]
fn nearby_sizes_share_one_target() {
    // 100 and 104 both align to 112: the second request reuses the target.
    let mut cache = TargetCache::new();
    cache.request(PixelSize { width: 100, height: 100 });
    let action = cache.request(PixelSize { width: 104, height: 100 });
    assert_eq!(action, TargetAction::Reuse);
    assert_eq!(cache.allocations, 1);
}

#[test]
fn a_new_size_reallocates_at_that_size() {
    let mut cache = TargetCache::new();
    cache.request(PixelSize { width: 100, height: 100 });

    let action = cache.request(PixelSize { width: 130, height: 100 });
    assert_eq!(action, TargetAction::Resize);
    assert_eq!(cache.allocations, 2);
    assert_eq!(cache.slot, Some(PixelSize { width: 144, height: 112 }));
}
