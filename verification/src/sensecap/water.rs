//! Water level of the store's backend.

use crate::sensecap::ffi::trigger_ui_update;
use crate::sensecap::{with_backend, Backend, Store};
use crate::levels::{is_critical_level, is_low_level, level_is_critical, level_is_low};
use vstd::prelude::*;

verus! {

/// Maximum water level.
pub const MAX_WATER_LEVEL: u8 = 100;

/// Topic for the water level.
pub const MQTT_TOPIC_WATER: &'static str = "sensecap/water/level";

/// What the sensor stands in for until one is fitted, in percent.
pub const SENSOR_PLACEHOLDER_LEVEL: u8 = 50;

/// The current water level, if the backend is initialized.
pub fn get_level(store: &mut Store) -> (level: Option<u8>)
    ensures
        final(store)@ == old(store)@,
        level == (match old(store)@.backend {
            Some(b) => Some(b.water_level),
            None => None,
        }),
{
    with_backend(
        store,
        |backend: Backend| -> (out: (Backend, u8))
            ensures
                out == (backend, backend.water_level)
            { (backend, backend.water_level) },
    )
}

/// Sets the water level, clamped to 100, and triggers an update of the user
/// interface.
pub fn set_level(store: &mut Store, level: u8)
    ensures
        final(store)@ == old(store)@.changed(|b: Backend| b.with_level(level)).triggered(),
        old(store)@.wf() ==> final(store)@.wf(),
{
    let clamped = if level > MAX_WATER_LEVEL {
        MAX_WATER_LEVEL
    } else {
        level
    };
    with_backend(
        store,
        |backend: Backend| -> (out: (Backend, ()))
            ensures
                out.0 == backend.with_level(level)
            {
                let mut backend = backend;
                backend.water_level = clamped;
                (backend, ())
            },
    );
    trigger_ui_update(store);
}

/// Reads the water level from the sensor. No sensor is fitted yet: the
/// reading is always 50.
pub fn read_sensor() -> (level: u8)
    ensures
        level == SENSOR_PLACEHOLDER_LEVEL,
{
    SENSOR_PLACEHOLDER_LEVEL
}

/// Sets the water level to what the sensor reads.
pub fn update_from_sensor(store: &mut Store)
    ensures
        final(store)@ == old(store)@.changed(
            |b: Backend| b.with_level(SENSOR_PLACEHOLDER_LEVEL),
        ).triggered(),
        old(store)@.wf() ==> final(store)@.wf(),
{
    let level = read_sensor();
    set_level(store, level);
}

/// Whether the water level is low: at most 20.
pub fn is_low(store: &mut Store) -> (low: Option<bool>)
    ensures
        final(store)@ == old(store)@,
        low == (match old(store)@.backend {
            Some(b) => Some(is_low_level(b.water_level)),
            None => None,
        }),
{
    with_backend(
        store,
        |backend: Backend| -> (out: (Backend, bool))
            ensures
                out == (backend, is_low_level(backend.water_level))
            { (backend, level_is_low(backend.water_level)) },
    )
}

/// Whether the water level is critical: at most 10.
pub fn is_critical(store: &mut Store) -> (critical: Option<bool>)
    ensures
        final(store)@ == old(store)@,
        critical == (match old(store)@.backend {
            Some(b) => Some(is_critical_level(b.water_level)),
            None => None,
        }),
{
    with_backend(
        store,
        |backend: Backend| -> (out: (Backend, bool))
            ensures
                out == (backend, is_critical_level(backend.water_level))
            { (backend, level_is_critical(backend.water_level)) },
    )
}

} // verus!
