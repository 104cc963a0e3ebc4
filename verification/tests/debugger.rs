use pbrtrs_core::debugger::{
    begin_ray, begin_sample, end_pixel, end_sample, is_pixel_debug, ray_write,
    set_should_debug_pixel, BounceInfo, DebugInfo,
};

#[test]
fn recorder_is_off_at_first() {
    let mut debug: DebugInfo<u32, u8> = DebugInfo::new(0);
    assert!(!is_pixel_debug(&debug));
    begin_sample(&mut debug, 0);
    begin_ray(&mut debug, 7);
    ray_write(&mut debug, "note");
    assert_eq!(end_sample(&mut debug, 9), 9);
    assert_eq!(end_pixel(&mut debug, 5), 5);
    assert!(debug.samples.is_empty());
    assert_eq!(debug.final_color, 0);
}

#[test]
fn recorder_keeps_samples_rays_and_notes() {
    let mut debug: DebugInfo<u32, u8> = DebugInfo::new(0);
    set_should_debug_pixel(&mut debug, true);
    assert!(is_pixel_debug(&debug));
    begin_sample(&mut debug, 0);
    begin_ray(&mut debug, 7);
    ray_write(&mut debug, "Sky ");
    ray_write(&mut debug, "Specular");
    begin_ray(&mut debug, 8);
    assert_eq!(end_sample(&mut debug, 3), 3);
    begin_sample(&mut debug, 0);
    begin_ray(&mut debug, 9);
    ray_write(&mut debug, "Ignored");
    assert_eq!(end_sample(&mut debug, 4), 4);
    assert_eq!(end_pixel(&mut debug, 6), 6);

    assert_eq!(debug.samples.len(), 2);
    assert_eq!(debug.samples[0].bounces.len(), 2);
    assert_eq!(debug.samples[0].bounces[0].ray, 7);
    assert_eq!(debug.samples[0].bounces[0].debug_info, "Sky Specular");
    assert_eq!(debug.samples[0].bounces[1].ray, 8);
    assert_eq!(debug.samples[0].bounces[1].debug_info, "");
    assert_eq!(debug.samples[0].final_color, 3);
    assert_eq!(debug.samples[1].bounces.len(), 1);
    assert_eq!(debug.samples[1].bounces[0].debug_info, "Ignored");
    assert_eq!(debug.samples[1].final_color, 4);
    assert_eq!(debug.final_color, 6);
}

#[test]
fn switching_off_keeps_the_record() {
    let mut debug: DebugInfo<u32, u8> = DebugInfo::new(0);
    set_should_debug_pixel(&mut debug, true);
    begin_sample(&mut debug, 0);
    set_should_debug_pixel(&mut debug, false);
    begin_sample(&mut debug, 0);
    assert_eq!(debug.samples.len(), 1);
}

#[test]
fn bounce_starts_without_notes() {
    let bounce = BounceInfo::new(5u8);
    assert_eq!(bounce.ray, 5);
    assert!(bounce.debug_info.is_empty());
}
