use core_video::foreign::RefLedger;
use core_video::metal_texture::CVMetalTexture;

fn wrapped_texture(ledger: &mut RefLedger) -> CVMetalTexture {
    ledger.register(7, 1);
    CVMetalTexture::wrap_under_get_rule(7, ledger)
}

#[test]
fn null_texture_reply_is_absence() {
    let mut ledger = RefLedger::new();
    let tex = wrapped_texture(&mut ledger);
    assert!(tex.get_texture(0).is_none());
}

#[test]
fn nonnull_texture_reply_is_some_without_corevideo_ownership() {
    let mut ledger = RefLedger::new();
    let tex = wrapped_texture(&mut ledger);
    let before = ledger.count_of(7);
    let gpu = tex.get_texture(1234).expect("non-null reply must wrap");
    assert_eq!(gpu.as_raw(), 1234);
    // the graphics texture is owned by the graphics layer: wrapping it and
    // dropping it issue zero CoreVideo-side retains or releases
    drop(gpu);
    assert_eq!(ledger.count_of(7), before);
    assert_eq!(ledger.count_of(1234), 0);
}

#[test]
fn flipped_maps_foreign_boolean_truthiness() {
    let mut ledger = RefLedger::new();
    let tex = wrapped_texture(&mut ledger);
    assert!(!tex.is_flipped(0));
    assert!(tex.is_flipped(1));
    assert!(tex.is_flipped(255));
}

#[test]
fn clean_tex_coords_keep_the_fixed_corner_order() {
    let mut ledger = RefLedger::new();
    let tex = wrapped_texture(&mut ledger);
    let slots = [
        0.25f32.to_bits(),
        0.5f32.to_bits(),
        0.75f32.to_bits(),
        1.0f32.to_bits(),
    ];
    let (lower_left, lower_right, upper_right, upper_left) = tex.get_clean_tex_coords(slots);
    assert_eq!(f32::from_bits(lower_left), 0.25);
    assert_eq!(f32::from_bits(lower_right), 0.5);
    assert_eq!(f32::from_bits(upper_right), 0.75);
    assert_eq!(f32::from_bits(upper_left), 1.0);
}

#[test]
fn texture_wrapper_drop_releases_its_one_reference() {
    let mut ledger = RefLedger::new();
    let tex = wrapped_texture(&mut ledger);
    assert_eq!(ledger.count_of(7), 2);
    let clone = tex.retain_clone(&mut ledger);
    assert_eq!(ledger.count_of(7), 3);
    clone.release(&mut ledger);
    tex.release(&mut ledger);
    // the cache's own reference remains; the wrapper released only its own
    assert_eq!(ledger.count_of(7), 1);
}

#[test]
fn texture_create_rule_wrap_adopts_existing_reference() {
    let mut ledger = RefLedger::new();
    ledger.register(21, 1);
    let tex = CVMetalTexture::wrap_under_create_rule(21, &ledger);
    assert_eq!(ledger.count_of(21), 1);
    assert_eq!(tex.as_raw(), 21);
    tex.release(&mut ledger);
    assert_eq!(ledger.count_of(21), 0);
}
