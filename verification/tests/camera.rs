use tyranny::camera::CameraSettings;

#[test]
fn default_render_target_is_320_by_180() {
    let settings = CameraSettings::default();
    assert_eq!(settings.world_render_width, 320);
    assert_eq!(settings.world_render_height, 180);
}

#[test]
fn exact_multiple_window_fits_exactly() {
    // 1920/320 = 6 and 1080/180 = 6.
    let settings = CameraSettings::default();
    assert_eq!(settings.fit_scale(1920, 1080), 6);
}

#[test]
fn smaller_ratio_wins() {
    // 1280/320 = 4 and 720/180 = 4.
    let settings = CameraSettings::default();
    assert_eq!(settings.fit_scale(1280, 720), 4);
    // 1920/320 = 6 but 720/180 = 4: the height ratio is smaller.
    assert_eq!(settings.fit_scale(1920, 720), 4);
    // 640/320 = 2 but 1080/180 = 6: the width ratio is smaller.
    assert_eq!(settings.fit_scale(640, 1080), 2);
}

#[test]
fn ratio_rounds_to_nearest() {
    let settings = CameraSettings::default();
    // 800/320 = 2.5 and 600/180 = 3.33...: the width ratio is smaller and a
    // half rounds up.
    assert_eq!(settings.fit_scale(800, 600), 3);
    // 700/320 = 2.1875 and 700/180 = 3.88...: rounds down to 2.
    assert_eq!(settings.fit_scale(700, 700), 2);
}

#[test]
fn half_ratio_rounds_up() {
    // 480/320 = 1.5 and 270/180 = 1.5.
    let settings = CameraSettings::default();
    assert_eq!(settings.fit_scale(480, 270), 2);
}

#[test]
fn tiny_window_scales_to_zero() {
    // 100/320 and 100/180 both round to 0.
    let settings = CameraSettings::default();
    assert_eq!(settings.fit_scale(100, 100), 0);
}

#[test]
fn custom_render_target() {
    let settings = CameraSettings { world_render_width: 100, world_render_height: 50 };
    // 250/100 = 2.5 and 200/50 = 4: the width ratio is smaller, 2.5 rounds
    // up.
    assert_eq!(settings.fit_scale(250, 200), 3);
    // 249/100 = 2.49 rounds down.
    assert_eq!(settings.fit_scale(249, 200), 2);
}

#[test]
fn one_pixel_render_target() {
    let settings = CameraSettings { world_render_width: 1, world_render_height: 1 };
    assert_eq!(settings.fit_scale(7, 9), 7);
    assert_eq!(settings.fit_scale(0, 0), 0);
}
