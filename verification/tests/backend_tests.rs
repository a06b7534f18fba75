use sensecap_indicator::firmware::backend::{Backend, LightChannel, Notification};

#[test]
fn backend_boots_off_with_half_full_tank() {
    let backend = Backend::new();
    assert!(!backend.get_bright_state());
    assert!(!backend.get_relax_state());
    assert_eq!(backend.get_water_level(), 50);
}

#[test]
fn default_backend_is_the_boot_state() {
    let mut backend = Backend::default();
    assert!(!backend.get_bright_state());
    assert!(!backend.get_relax_state());
    assert_eq!(backend.get_water_level(), 50);
    assert!(backend.take_notifications().is_empty());
}

#[test]
fn bright_and_relax_exclude_each_other() {
    let mut backend = Backend::new();
    backend.set_bright(true);
    backend.set_relax(true);
    assert!(!backend.get_bright_state());
    assert!(backend.get_relax_state());
    backend.set_bright(true);
    assert!(backend.get_bright_state());
    assert!(!backend.get_relax_state());
}

#[test]
fn switching_a_light_off_leaves_the_other_alone() {
    let mut backend = Backend::new();
    backend.set_relax(true);
    backend.set_bright(false);
    assert!(!backend.get_bright_state());
    assert!(backend.get_relax_state());
    backend.set_relax(false);
    assert!(!backend.get_bright_state());
    assert!(!backend.get_relax_state());
}

#[test]
fn lights_never_both_on_over_a_long_walk() {
    let mut backend = Backend::new();
    let mut seed: u32 = 12345;
    for _ in 0..2000 {
        seed = seed.wrapping_mul(1664525).wrapping_add(1013904223);
        match (seed >> 16) % 6 {
            0 => backend.set_bright(true),
            1 => backend.set_bright(false),
            2 => backend.set_relax(true),
            3 => backend.set_relax(false),
            4 => {
                backend.toggle_bright();
            }
            _ => {
                backend.toggle_relax();
            }
        }
        assert!(!(backend.get_bright_state() && backend.get_relax_state()));
    }
}

#[test]
fn water_level_is_clamped_to_a_percentage() {
    let mut backend = Backend::new();
    backend.update_water_level(0);
    assert_eq!(backend.get_water_level(), 0);
    backend.update_water_level(37);
    assert_eq!(backend.get_water_level(), 37);
    backend.update_water_level(100);
    assert_eq!(backend.get_water_level(), 100);
    backend.update_water_level(101);
    assert_eq!(backend.get_water_level(), 100);
    backend.update_water_level(255);
    assert_eq!(backend.get_water_level(), 100);
}

#[test]
fn every_level_is_stored_as_its_minimum_with_100() {
    let mut backend = Backend::new();
    for n in 0..=255u8 {
        backend.update_water_level(n);
        assert_eq!(backend.get_water_level(), n.min(100));
    }
}

#[test]
fn toggle_bright_returns_the_new_value() {
    let mut backend = Backend::new();
    assert!(backend.toggle_bright());
    assert!(backend.get_bright_state());
    assert!(!backend.toggle_bright());
    assert!(!backend.get_bright_state());
}

#[test]
fn toggle_relax_returns_the_new_value() {
    let mut backend = Backend::new();
    assert!(backend.toggle_relax());
    assert!(backend.get_relax_state());
    assert!(!backend.toggle_relax());
    assert!(!backend.get_relax_state());
}

#[test]
fn toggling_bright_twice_restores_it() {
    let mut backend = Backend::new();
    backend.toggle_bright();
    backend.toggle_bright();
    assert!(!backend.get_bright_state());
    assert!(!backend.get_relax_state());

    backend.set_bright(true);
    backend.toggle_bright();
    backend.toggle_bright();
    assert!(backend.get_bright_state());
    assert!(!backend.get_relax_state());
}

#[test]
fn toggling_bright_twice_switches_an_active_relax_off() {
    let mut backend = Backend::new();
    backend.set_relax(true);
    backend.toggle_bright();
    backend.toggle_bright();
    assert!(!backend.get_bright_state());
    assert!(!backend.get_relax_state());
}

#[test]
fn toggling_a_light_on_switches_the_other_off() {
    let mut backend = Backend::new();
    backend.set_relax(true);
    assert!(backend.toggle_bright());
    assert!(!backend.get_relax_state());
    assert!(backend.toggle_relax());
    assert!(!backend.get_bright_state());
}

#[test]
fn nothing_is_queued_without_a_consumer() {
    let mut backend = Backend::new();
    backend.set_bright(true);
    backend.toggle_relax();
    assert!(backend.take_notifications().is_empty());
}

#[test]
fn notification_names_channel_and_value() {
    let mut backend = Backend::new();
    backend.set_mqtt_callback();
    backend.set_bright(true);
    let sent = backend.take_notifications();
    assert_eq!(sent.len(), 1);
    assert_eq!(sent[0].channel, LightChannel::Bright);
    assert_eq!(sent[0].channel.as_str(), "bright");
    assert_eq!(sent[0].value, 1);
}

#[test]
fn every_light_change_queues_one_notification_in_order() {
    let mut backend = Backend::new();
    backend.set_mqtt_callback();
    backend.set_bright(true);
    backend.set_relax(true);
    backend.toggle_relax();
    backend.set_bright(false);
    backend.toggle_bright();
    let sent = backend.take_notifications();
    assert_eq!(
        sent,
        vec![
            Notification { channel: LightChannel::Bright, value: 1 },
            Notification { channel: LightChannel::Relax, value: 1 },
            Notification { channel: LightChannel::Relax, value: 0 },
            Notification { channel: LightChannel::Bright, value: 0 },
            Notification { channel: LightChannel::Bright, value: 1 },
        ]
    );
    assert!(backend.take_notifications().is_empty());
}

#[test]
fn water_level_changes_are_not_announced() {
    let mut backend = Backend::new();
    backend.set_mqtt_callback();
    backend.update_water_level(5);
    assert!(backend.take_notifications().is_empty());
}

#[test]
fn channel_names_are_bright_and_relax() {
    assert_eq!(LightChannel::Bright.as_str(), "bright");
    assert_eq!(LightChannel::Relax.as_str(), "relax");
}
