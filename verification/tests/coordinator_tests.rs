use sensecap_indicator::firmware::backend::Backend;
use sensecap_indicator::firmware::display::{
    BlitRequest, BusFault, DisplayDriver, DisplayError, PanelCall, ESP_OK,
};
use sensecap_indicator::firmware::lvgl_ui::{
    ArcTable, UiAction, COLOR_BG, COLOR_DARK_GRAY, COLOR_GRAY, COLOR_SWITCH_ON,
    COLOR_WATER_CRITICAL, COLOR_WATER_NORMAL, COLOR_WHITE,
};
use sensecap_indicator::firmware::mqtt::{MqttClient, MqttEvent, MQTT_TOPIC_WATER_LEVEL};
use sensecap_indicator::firmware::touch::{TouchDriver, TouchProgress, TouchRequest, TouchState};
use sensecap_indicator::firmware::ui::{UiManager, FLUSH_INTERVAL_MS};

const WHOLE_FRAME: BlitRequest =
    BlitRequest { x_start: 0, y_start: 0, x_end: 480, y_end: 480, offset: 0 };

fn gauge_table() -> ArcTable {
    let mut pixels = Vec::new();
    for angle in 180..=360u16 {
        let rad = (angle as f32) * std::f32::consts::PI / 180.0;
        let mut radii = vec![80u16];
        radii.extend(75..=80u16);
        for r in radii {
            let x = (240.0 + (r as f32) * rad.cos()) as u16;
            let y = (300.0 + (r as f32) * rad.sin()) as u16;
            pixels.push((x, y));
        }
    }
    ArcTable { first_angle: 180, pixels }
}

fn display(ready: bool) -> DisplayDriver {
    let mut ops = Vec::new();
    let mut driver = DisplayDriver::new(&mut ops);
    if ready {
        let mut call = Some(PanelCall::Create);
        while let Some(c) = call {
            call = driver.init_rgb_panel(c, ESP_OK, &mut ops).unwrap();
        }
    }
    driver
}

fn manager() -> UiManager {
    UiManager::new(display(true), TouchDriver::new(), Backend::new(), 0)
}

fn press(x: i16, y: i16) -> Result<TouchState, BusFault> {
    Ok(TouchState { x, y, pressed: true })
}

fn release(x: i16, y: i16) -> Result<TouchState, BusFault> {
    Ok(TouchState { x, y, pressed: false })
}

fn at(ui: &UiManager, x: usize, y: usize) -> u16 {
    ui.framebuffer().unwrap()[y * 480 + x]
}

fn water_message(payload: &str) -> MqttEvent {
    MqttEvent::Received {
        topic: Some(MQTT_TOPIC_WATER_LEVEL.as_bytes().to_vec()),
        data: Some(payload.as_bytes().to_vec()),
    }
}

#[test]
fn first_frame_is_composed_before_the_loop() {
    let mut ui = manager();
    assert_eq!(ui.begin(&gauge_table()), Ok(Some(WHOLE_FRAME)));
    assert_eq!(at(&ui, 0, 0), COLOR_BG);
    assert_eq!(at(&ui, 115, 120), COLOR_WHITE);
    assert_eq!(at(&ui, 160, 300), COLOR_WATER_NORMAL);
}

#[test]
fn first_frame_needs_the_panel() {
    let mut ui = UiManager::new(display(false), TouchDriver::new(), Backend::new(), 0);
    assert_eq!(ui.begin(&gauge_table()), Err(DisplayError::NotInitialized));
}

#[test]
fn quiet_iteration_asks_for_nothing() {
    let mut ui = manager();
    let mut mqtt = MqttClient::new();
    let gauge = gauge_table();
    ui.begin(&gauge).unwrap();
    let report = ui.tick(release(0, 0), 5, &mut mqtt, &gauge);
    assert_eq!(report.action, None);
    assert_eq!(report.touch_fault, None);
    assert_eq!(report.redraw, Ok(None));
    assert_eq!(report.flush, None);
    assert!(mqtt.take_publications().is_empty());
}

#[test]
fn boot_touch_and_water_message_end_to_end() {
    let backend = Backend::new();
    assert!(!backend.get_bright_state());
    assert!(!backend.get_relax_state());
    assert_eq!(backend.get_water_level(), 50);

    let mut ui = UiManager::new(display(true), TouchDriver::new(), backend, 0);
    let mut mqtt = MqttClient::new();
    let gauge = gauge_table();
    ui.begin(&gauge).unwrap();
    let gauge_before: Vec<u16> =
        gauge.pixels.iter().map(|(x, y)| at(&ui, *x as usize, *y as usize)).collect();

    // Touch in the upper left quarter.
    let report = ui.tick(press(480 / 4, 480 / 4), 5, &mut mqtt, &gauge);
    assert_eq!(report.action, Some(UiAction::ToggleBright));
    assert!(ui.backend().get_bright_state());
    assert!(!ui.backend().get_relax_state());
    assert_eq!(ui.backend().get_water_level(), 50);
    assert_eq!(mqtt.take_publications(), vec![b"{\"mode\":\"bright\",\"state\":1}".to_vec()]);
    assert_eq!(report.redraw, Ok(Some(WHOLE_FRAME)));
    assert_eq!(at(&ui, 165, 120), COLOR_WHITE);
    assert_eq!(at(&ui, 115, 120), COLOR_SWITCH_ON);
    let gauge_after: Vec<u16> =
        gauge.pixels.iter().map(|(x, y)| at(&ui, *x as usize, *y as usize)).collect();
    assert_eq!(gauge_before, gauge_after);

    // A water level arrives.
    mqtt.on_event(&water_message("5"));
    let report = ui.tick(release(120, 120), 10, &mut mqtt, &gauge);
    assert_eq!(report.action, None);
    assert_eq!(ui.backend().get_water_level(), 5);
    assert!(ui.backend().get_bright_state());
    assert_eq!(report.redraw, Ok(Some(WHOLE_FRAME)));
    assert_eq!(at(&ui, 160, 300), COLOR_WATER_CRITICAL);
    assert_eq!(at(&ui, 234, 320), COLOR_WATER_CRITICAL);
    assert_eq!(at(&ui, 240, 220), COLOR_DARK_GRAY);
    assert!(mqtt.take_publications().is_empty());
}

#[test]
fn upper_right_touch_toggles_relax() {
    let mut ui = manager();
    let mut mqtt = MqttClient::new();
    let gauge = gauge_table();
    ui.begin(&gauge).unwrap();
    let report = ui.tick(press(360, 120), 5, &mut mqtt, &gauge);
    assert_eq!(report.action, Some(UiAction::ToggleRelax));
    assert!(ui.backend().get_relax_state());
    assert!(!ui.backend().get_bright_state());
    assert_eq!(mqtt.take_publications(), vec![b"{\"mode\":\"relax\",\"state\":1}".to_vec()]);
    assert_eq!(at(&ui, 365, 120), COLOR_WHITE);
    assert_eq!(at(&ui, 315, 120), COLOR_SWITCH_ON);
    assert_eq!(at(&ui, 165, 120), COLOR_GRAY);
}

#[test]
fn lower_half_touch_does_nothing() {
    let mut ui = manager();
    let mut mqtt = MqttClient::new();
    let gauge = gauge_table();
    ui.begin(&gauge).unwrap();
    let report = ui.tick(press(240, 360), 5, &mut mqtt, &gauge);
    assert_eq!(report.action, None);
    assert_eq!(report.redraw, Ok(None));
    assert!(!ui.backend().get_bright_state());
    assert!(!ui.backend().get_relax_state());
    assert!(mqtt.take_publications().is_empty());
}

#[test]
fn held_touch_acts_once() {
    let mut ui = manager();
    let mut mqtt = MqttClient::new();
    let gauge = gauge_table();
    ui.begin(&gauge).unwrap();
    assert_eq!(ui.tick(press(10, 10), 5, &mut mqtt, &gauge).action, Some(UiAction::ToggleBright));
    assert_eq!(ui.tick(press(10, 10), 10, &mut mqtt, &gauge).action, None);
    assert_eq!(ui.tick(press(300, 10), 15, &mut mqtt, &gauge).action, None);
    assert!(ui.backend().get_bright_state());
    assert!(!ui.backend().get_relax_state());
    assert_eq!(mqtt.take_publications().len(), 1);
}

#[test]
fn press_after_release_acts_again() {
    let mut ui = manager();
    let mut mqtt = MqttClient::new();
    let gauge = gauge_table();
    ui.begin(&gauge).unwrap();
    ui.tick(press(10, 10), 5, &mut mqtt, &gauge);
    ui.tick(release(10, 10), 10, &mut mqtt, &gauge);
    let report = ui.tick(press(10, 10), 15, &mut mqtt, &gauge);
    assert_eq!(report.action, Some(UiAction::ToggleBright));
    assert!(!ui.backend().get_bright_state());
    assert_eq!(
        mqtt.take_publications(),
        vec![
            b"{\"mode\":\"bright\",\"state\":1}".to_vec(),
            b"{\"mode\":\"bright\",\"state\":0}".to_vec(),
        ]
    );
}

#[test]
fn one_light_switches_the_other_off_on_screen_too() {
    let mut ui = manager();
    let mut mqtt = MqttClient::new();
    let gauge = gauge_table();
    ui.begin(&gauge).unwrap();
    ui.tick(press(10, 10), 5, &mut mqtt, &gauge);
    ui.tick(release(10, 10), 10, &mut mqtt, &gauge);
    ui.tick(press(400, 10), 15, &mut mqtt, &gauge);
    assert!(!ui.backend().get_bright_state());
    assert!(ui.backend().get_relax_state());
    assert_eq!(at(&ui, 115, 120), COLOR_WHITE);
    assert_eq!(at(&ui, 365, 120), COLOR_WHITE);
    assert_eq!(at(&ui, 165, 120), COLOR_GRAY);
    assert_eq!(at(&ui, 315, 120), COLOR_SWITCH_ON);
}

#[test]
fn touch_fault_costs_the_sample_and_nothing_else() {
    let mut ui = manager();
    let mut mqtt = MqttClient::new();
    let gauge = gauge_table();
    ui.begin(&gauge).unwrap();
    mqtt.on_event(&water_message("80"));
    let report = ui.tick(Err(BusFault::Timeout), 5, &mut mqtt, &gauge);
    assert_eq!(report.touch_fault, Some(BusFault::Timeout));
    assert_eq!(report.action, None);
    assert_eq!(ui.backend().get_water_level(), 80);
    assert_eq!(report.redraw, Ok(Some(WHOLE_FRAME)));
    // The fault is not taken for a release: a held touch stays held.
    ui.tick(press(10, 10), 10, &mut mqtt, &gauge);
    ui.tick(Err(BusFault::Nack), 15, &mut mqtt, &gauge);
    assert_eq!(ui.tick(press(10, 10), 20, &mut mqtt, &gauge).action, None);
}

#[test]
fn at_most_one_message_is_taken_per_iteration() {
    let mut ui = manager();
    let mut mqtt = MqttClient::new();
    let gauge = gauge_table();
    ui.begin(&gauge).unwrap();
    mqtt.on_event(&water_message("10"));
    mqtt.on_event(&water_message("20"));
    mqtt.on_event(&MqttEvent::Connected);
    mqtt.on_event(&water_message("30"));
    ui.tick(release(0, 0), 1, &mut mqtt, &gauge);
    assert_eq!(ui.backend().get_water_level(), 10);
    ui.tick(release(0, 0), 2, &mut mqtt, &gauge);
    assert_eq!(ui.backend().get_water_level(), 20);
    let report = ui.tick(release(0, 0), 3, &mut mqtt, &gauge);
    assert_eq!(ui.backend().get_water_level(), 20);
    assert_eq!(report.redraw, Ok(None));
    ui.tick(release(0, 0), 4, &mut mqtt, &gauge);
    assert_eq!(ui.backend().get_water_level(), 30);
    assert_eq!(mqtt.try_recv(), None);
}

#[test]
fn unchanged_level_does_not_recompose() {
    let mut ui = manager();
    let mut mqtt = MqttClient::new();
    let gauge = gauge_table();
    ui.begin(&gauge).unwrap();
    mqtt.on_event(&water_message("50"));
    let report = ui.tick(release(0, 0), 1, &mut mqtt, &gauge);
    assert_eq!(report.redraw, Ok(None));
}

#[test]
fn bad_payload_never_reaches_the_state() {
    let mut ui = manager();
    let mut mqtt = MqttClient::new();
    let gauge = gauge_table();
    ui.begin(&gauge).unwrap();
    mqtt.on_event(&water_message("101"));
    mqtt.on_event(&water_message("lots"));
    let report = ui.tick(release(0, 0), 1, &mut mqtt, &gauge);
    assert_eq!(ui.backend().get_water_level(), 50);
    assert_eq!(report.redraw, Ok(None));
}

#[test]
fn periodic_flush_comes_every_33_milliseconds() {
    assert_eq!(FLUSH_INTERVAL_MS, 33);
    let mut ui = UiManager::new(display(true), TouchDriver::new(), Backend::new(), 1000);
    let mut mqtt = MqttClient::new();
    let gauge = gauge_table();
    ui.begin(&gauge).unwrap();
    assert_eq!(ui.tick(release(0, 0), 1005, &mut mqtt, &gauge).flush, None);
    assert_eq!(ui.tick(release(0, 0), 1032, &mut mqtt, &gauge).flush, None);
    assert_eq!(ui.tick(release(0, 0), 1033, &mut mqtt, &gauge).flush, Some(Ok(WHOLE_FRAME)));
    assert_eq!(ui.tick(release(0, 0), 1034, &mut mqtt, &gauge).flush, None);
    assert_eq!(ui.tick(release(0, 0), 1065, &mut mqtt, &gauge).flush, None);
    assert_eq!(ui.tick(release(0, 0), 1100, &mut mqtt, &gauge).flush, Some(Ok(WHOLE_FRAME)));
    assert_eq!(ui.tick(release(0, 0), 1132, &mut mqtt, &gauge).flush, None);
}

#[test]
fn clock_that_goes_back_does_not_flush() {
    let mut ui = UiManager::new(display(true), TouchDriver::new(), Backend::new(), 1000);
    assert_eq!(ui.periodic_flush(0), None);
    assert_eq!(ui.periodic_flush(999), None);
    assert_eq!(ui.periodic_flush(1033), Some(Ok(WHOLE_FRAME)));
}

#[test]
fn periodic_flush_without_a_panel_fails_and_restarts_the_interval() {
    let mut ui = UiManager::new(display(false), TouchDriver::new(), Backend::new(), 0);
    assert_eq!(ui.periodic_flush(40), Some(Err(DisplayError::NotInitialized)));
    assert_eq!(ui.periodic_flush(50), None);
    assert_eq!(ui.periodic_flush(73), Some(Err(DisplayError::NotInitialized)));
}

#[test]
fn failed_transfer_is_retried_by_the_next_iteration() {
    let mut ui = manager();
    let mut mqtt = MqttClient::new();
    let gauge = gauge_table();
    assert_eq!(ui.begin(&gauge), Ok(Some(WHOLE_FRAME)));
    assert_eq!(ui.flush_done(-1), Err(DisplayError::TransferError));
    assert_eq!(ui.tick(release(0, 0), 1, &mut mqtt, &gauge).redraw, Ok(Some(WHOLE_FRAME)));
    assert_eq!(ui.flush_done(ESP_OK), Ok(()));
    assert_eq!(ui.tick(release(0, 0), 2, &mut mqtt, &gauge).redraw, Ok(None));
}

#[test]
fn parts_can_be_driven_one_by_one() {
    let mut ui = manager();
    let mut mqtt = MqttClient::new();
    ui.process_ui_action(UiAction::ToggleRelax, &mut mqtt);
    assert!(ui.backend().get_relax_state());
    assert_eq!(mqtt.take_publications(), vec![b"{\"mode\":\"relax\",\"state\":1}".to_vec()]);
    mqtt.on_event(&water_message("7"));
    ui.process_mqtt_messages(&mut mqtt);
    assert_eq!(ui.backend().get_water_level(), 7);
    ui.update_ui_from_backend();
    assert_eq!(ui.on_touch(press(10, 10), &mut mqtt), Some(UiAction::ToggleBright));
    assert_eq!(ui.on_touch(press(10, 10), &mut mqtt), None);
    assert!(ui.backend().get_bright_state());
    assert!(!ui.backend().get_relax_state());
}

#[test]
fn touch_poll_runs_through_the_manager() {
    let mut ui = manager();
    assert_eq!(
        ui.poll_touch(),
        TouchRequest::Read { address: 0x5D, register_high: 0x81, register_low: 0x4E, len: 1 }
    );
    assert!(matches!(ui.touch_reply(Ok([0x80, 0, 0, 0])), TouchProgress::Pending(_)));
    assert!(matches!(ui.touch_reply(Ok([120, 0, 120, 0])), TouchProgress::Pending(_)));
    assert_eq!(
        ui.touch_reply(Ok([0; 4])),
        TouchProgress::Done(TouchState { x: 120, y: 120, pressed: true })
    );
}
