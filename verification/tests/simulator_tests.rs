use sensecap_indicator::simulator::ffi::{
    rust_backend_init, rust_get_bright, rust_get_relax, rust_get_water_level,
    rust_is_water_critical, rust_is_water_low, rust_set_bright, rust_set_relax,
    rust_set_water_level, rust_toggle_bright, rust_toggle_relax,
};
use sensecap_indicator::simulator::lights::{
    get_bright, get_relax, set_bright, set_relax, toggle_bright, toggle_relax,
};
use sensecap_indicator::simulator::mock_mqtt::{
    publish_lights, publish_water, receive_water_level, start_subscriber, SubscriberReport,
};
use sensecap_indicator::simulator::water::{get_level, is_critical, is_low, set_level};
use sensecap_indicator::simulator::{init, with_backend, Backend, Publication, Store};

fn ready() -> Store {
    let mut store = Store::new();
    init(&mut store);
    store
}

#[test]
fn simulator_default_backend_is_off_and_half_full() {
    let backend = Backend::default();
    assert_eq!(backend, Backend { bright_switch: 0, relax_switch: 0, water_level: 50 });
}

#[test]
fn simulator_nothing_is_there_before_init() {
    let mut store = Store::new();
    assert_eq!(get_bright(&mut store), None);
    assert_eq!(get_relax(&mut store), None);
    assert_eq!(get_level(&mut store), None);
    assert_eq!(is_low(&mut store), None);
    assert_eq!(is_critical(&mut store), None);
    assert_eq!(toggle_bright(&mut store), None);
    assert_eq!(toggle_relax(&mut store), None);
    set_bright(&mut store, 1);
    set_relax(&mut store, 1);
    set_level(&mut store, 3);
    assert_eq!(get_bright(&mut store), None);
    assert!(store.take_published().is_empty());
    assert_eq!(with_backend(&mut store, |b| (b, ())), None);
}

#[test]
fn simulator_init_starts_half_full() {
    let mut store = ready();
    assert_eq!(get_bright(&mut store), Some(0));
    assert_eq!(get_relax(&mut store), Some(0));
    assert_eq!(get_level(&mut store), Some(50));
    assert_eq!(is_low(&mut store), Some(false));
}

#[test]
fn simulator_with_backend_stores_what_the_closure_returns() {
    let mut store = ready();
    let got = with_backend(&mut store, |mut b| {
        b.water_level = 12;
        (b, "done")
    });
    assert_eq!(got, Some("done"));
    assert_eq!(get_level(&mut store), Some(12));
}

#[test]
fn simulator_switches_exclude_each_other() {
    let mut store = ready();
    set_bright(&mut store, 1);
    set_relax(&mut store, 200);
    assert_eq!((get_bright(&mut store), get_relax(&mut store)), (Some(0), Some(1)));
    set_bright(&mut store, 3);
    assert_eq!((get_bright(&mut store), get_relax(&mut store)), (Some(1), Some(0)));
    set_bright(&mut store, 0);
    assert_eq!((get_bright(&mut store), get_relax(&mut store)), (Some(0), Some(0)));
}

#[test]
fn simulator_every_light_change_is_published_with_both_positions() {
    let mut store = ready();
    set_bright(&mut store, 1);
    set_relax(&mut store, 1);
    assert_eq!(toggle_relax(&mut store), Some(0));
    assert_eq!(toggle_bright(&mut store), Some(1));
    set_relax(&mut store, 0);
    assert_eq!(
        store.take_published(),
        vec![
            Publication::Lights { bright: 1, relax: 0 },
            Publication::Lights { bright: 0, relax: 1 },
            Publication::Lights { bright: 0, relax: 0 },
            Publication::Lights { bright: 1, relax: 0 },
            Publication::Lights { bright: 1, relax: 0 },
        ]
    );
    assert!(store.take_published().is_empty());
}

#[test]
fn simulator_toggling_twice_restores_the_switch() {
    let mut store = ready();
    assert_eq!(toggle_bright(&mut store), Some(1));
    assert_eq!(toggle_bright(&mut store), Some(0));
    assert_eq!(get_relax(&mut store), Some(0));
    set_relax(&mut store, 1);
    toggle_bright(&mut store);
    toggle_bright(&mut store);
    assert_eq!((get_bright(&mut store), get_relax(&mut store)), (Some(0), Some(0)));
}

#[test]
fn simulator_switches_never_both_on() {
    let mut store = ready();
    let mut seed: u32 = 7;
    for _ in 0..2000 {
        seed = seed.wrapping_mul(1664525).wrapping_add(1013904223);
        match (seed >> 16) % 6 {
            0 => set_bright(&mut store, 1),
            1 => set_bright(&mut store, 0),
            2 => set_relax(&mut store, 1),
            3 => set_relax(&mut store, 0),
            4 => {
                toggle_bright(&mut store);
            }
            _ => {
                toggle_relax(&mut store);
            }
        }
        let b = get_bright(&mut store).unwrap();
        let r = get_relax(&mut store).unwrap();
        assert!(b <= 1 && r <= 1 && b + r <= 1);
    }
}

#[test]
fn simulator_level_is_clamped_and_not_published() {
    let mut store = ready();
    set_level(&mut store, 100);
    assert_eq!(get_level(&mut store), Some(100));
    set_level(&mut store, 180);
    assert_eq!(get_level(&mut store), Some(100));
    set_level(&mut store, 0);
    assert_eq!(get_level(&mut store), Some(0));
    assert!(store.take_published().is_empty());
}

#[test]
fn simulator_low_is_up_to_20_and_critical_up_to_10() {
    let mut store = ready();
    for (level, low, critical) in [
        (0u8, true, true),
        (9, true, true),
        (10, true, true),
        (11, true, false),
        (19, true, false),
        (20, true, false),
        (21, false, false),
        (100, false, false),
    ] {
        set_level(&mut store, level);
        assert_eq!(is_low(&mut store), Some(low));
        assert_eq!(is_critical(&mut store), Some(critical));
    }
}

#[test]
fn simulator_publications_are_queued_in_order() {
    let mut store = Store::new();
    publish_lights(&mut store, 1, 0);
    publish_water(&mut store, 33);
    assert_eq!(
        store.take_published(),
        vec![Publication::Lights { bright: 1, relax: 0 }, Publication::Water { level: 33 }]
    );
}

#[test]
fn simulator_arriving_level_is_stored_and_reported_with_the_switches() {
    let mut store = ready();
    set_relax(&mut store, 1);
    assert_eq!(
        receive_water_level(&mut store, 64),
        SubscriberReport { level: 64, bright: 0, relax: 1 }
    );
    assert_eq!(get_level(&mut store), Some(64));
    assert_eq!(
        receive_water_level(&mut store, 250),
        SubscriberReport { level: 250, bright: 0, relax: 1 }
    );
    assert_eq!(get_level(&mut store), Some(100));
}

#[test]
fn simulator_arriving_level_before_init_reports_zeros() {
    let mut store = Store::new();
    assert_eq!(
        receive_water_level(&mut store, 64),
        SubscriberReport { level: 64, bright: 0, relax: 0 }
    );
    assert_eq!(get_level(&mut store), None);
}

#[test]
fn simulator_made_up_levels_are_percentages_and_vary() {
    let mut store = ready();
    let mut seen = [false; 101];
    for _ in 0..400 {
        let report = start_subscriber(&mut store);
        assert!(report.level <= 100);
        assert_eq!(get_level(&mut store), Some(report.level));
        assert_eq!((report.bright, report.relax), (0, 0));
        seen[report.level as usize] = true;
    }
    let distinct = seen.iter().filter(|s| **s).count();
    assert!(distinct > 10, "only {} distinct levels in 400 draws", distinct);
}

#[test]
fn simulator_entry_points() {
    let mut store = Store::new();
    assert_eq!(rust_get_bright(&mut store), -1);
    assert_eq!(rust_get_relax(&mut store), -1);
    assert_eq!(rust_toggle_bright(&mut store), -1);
    assert_eq!(rust_toggle_relax(&mut store), -1);
    assert_eq!(rust_get_water_level(&mut store), -1);
    assert_eq!(rust_is_water_low(&mut store), -1);
    assert_eq!(rust_is_water_critical(&mut store), -1);
    rust_backend_init(&mut store);
    assert_eq!(rust_get_water_level(&mut store), 50);
    rust_set_bright(&mut store, 1);
    assert_eq!(rust_get_bright(&mut store), 1);
    rust_set_relax(&mut store, 1);
    assert_eq!(rust_get_bright(&mut store), 0);
    assert_eq!(rust_get_relax(&mut store), 1);
    assert_eq!(rust_toggle_relax(&mut store), 0);
    assert_eq!(rust_toggle_bright(&mut store), 1);
    rust_set_water_level(&mut store, 10);
    assert_eq!(rust_is_water_low(&mut store), 1);
    assert_eq!(rust_is_water_critical(&mut store), 1);
    rust_set_water_level(&mut store, 11);
    assert_eq!(rust_is_water_critical(&mut store), 0);
    rust_set_water_level(&mut store, 20);
    assert_eq!(rust_is_water_low(&mut store), 1);
    rust_set_water_level(&mut store, 21);
    assert_eq!(rust_is_water_low(&mut store), 0);
}
