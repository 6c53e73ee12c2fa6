use rain_glare::frame::{advance_rain_time, CameraView};
use rain_glare::registry::SettingsRegistry;
use rain_glare::RainGlareSettings;

fn with_intensity(v: f32) -> RainGlareSettings {
    let mut s = RainGlareSettings::default();
    s.intensity = v.to_bits();
    s
}

#[test]
fn a_camera_has_one_record() {
    let mut reg = SettingsRegistry::new();
    assert_eq!(reg.len(), 0);
    assert_eq!(reg.insert(7, with_intensity(1.0)), None);
    assert_eq!(reg.insert(9, with_intensity(2.0)), None);
    assert_eq!(reg.insert(7, with_intensity(3.0)), Some(with_intensity(1.0)));
    assert_eq!(reg.len(), 2);
    assert_eq!(reg.get(7), Some(with_intensity(3.0)));
    assert_eq!(reg.get(9), Some(with_intensity(2.0)));
    assert_eq!(reg.get(8), None);
    assert_eq!(reg.position(7), Some(0));
    assert_eq!(reg.position(9), Some(1));
    assert_eq!(reg.entry(1), (9, with_intensity(2.0)));
}

#[test]
fn removing_a_camera_removes_its_record() {
    let mut reg = SettingsRegistry::new();
    reg.insert(1, with_intensity(1.0));
    reg.insert(2, with_intensity(2.0));
    reg.insert(3, with_intensity(3.0));
    assert_eq!(reg.remove(2), Some(with_intensity(2.0)));
    assert_eq!(reg.remove(2), None);
    assert_eq!(reg.len(), 2);
    assert_eq!(reg.get(2), None);
    assert_eq!(reg.position(1), Some(0));
    assert_eq!(reg.position(3), Some(1));
    assert_eq!(reg.get(3), Some(with_intensity(3.0)));
}

#[test]
fn set_at_replaces_in_place() {
    let mut reg = SettingsRegistry::new();
    reg.insert(1, with_intensity(1.0));
    reg.insert(2, with_intensity(2.0));
    reg.set_at(0, with_intensity(5.0));
    assert_eq!(reg.entry(0), (1, with_intensity(5.0)));
    assert_eq!(reg.entry(1), (2, with_intensity(2.0)));
}

#[test]
fn frame_update_writes_time_and_angle_of_seen_cameras() {
    let mut reg = SettingsRegistry::new();
    reg.insert(1, with_intensity(1.0));
    reg.insert(2, with_intensity(2.0));
    reg.insert(3, with_intensity(3.0));
    let cameras = vec![
        CameraView { id: 3, view_angle_factor: 0.0f32.to_bits() },
        CameraView { id: 99, view_angle_factor: 0.5f32.to_bits() },
        CameraView { id: 1, view_angle_factor: 0.25f32.to_bits() },
    ];
    advance_rain_time(&mut reg, 4.0f32.to_bits(), &cameras);
    let mut one = with_intensity(1.0);
    one.time = 4.0f32.to_bits();
    one.view_angle_factor = 0.25f32.to_bits();
    let mut three = with_intensity(3.0);
    three.time = 4.0f32.to_bits();
    three.view_angle_factor = 0.0f32.to_bits();
    assert_eq!(reg.get(1), Some(one));
    assert_eq!(reg.get(2), Some(with_intensity(2.0)));
    assert_eq!(reg.get(3), Some(three));
    assert_eq!(reg.get(99), None);
    assert_eq!(reg.len(), 3);
}

#[test]
fn last_listing_of_a_camera_counts() {
    let mut reg = SettingsRegistry::new();
    reg.insert(1, RainGlareSettings::default());
    let cameras = vec![
        CameraView { id: 1, view_angle_factor: 0.75f32.to_bits() },
        CameraView { id: 1, view_angle_factor: 0.125f32.to_bits() },
    ];
    advance_rain_time(&mut reg, 1.0f32.to_bits(), &cameras);
    assert_eq!(f32::from_bits(reg.get(1).unwrap().view_angle_factor), 0.125);
}

#[test]
fn time_does_not_decrease_across_frames() {
    let mut reg = SettingsRegistry::new();
    reg.insert(1, RainGlareSettings::default());
    let cameras = vec![CameraView { id: 1, view_angle_factor: 1.0f32.to_bits() }];
    let mut last_bits = reg.get(1).unwrap().time;
    let mut last = f32::from_bits(last_bits);
    for elapsed in [0.0f32, 0.016, 0.016, 0.033, 1.5, 1000.25] {
        advance_rain_time(&mut reg, elapsed.to_bits(), &cameras);
        let now_bits = reg.get(1).unwrap().time;
        let now = f32::from_bits(now_bits);
        assert_eq!(now, elapsed);
        assert!(now >= last);
        assert!(now_bits >= last_bits);
        last = now;
        last_bits = now_bits;
    }
}
