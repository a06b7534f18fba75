//! The entry points that a foreign user interface calls, as functions on
//! the store: states go in as bytes and come out as integers, with -1 for
//! "not initialized".

use crate::sensecap::{init, lights, water, Backend, Store, StoreView, UiUpdate};
use crate::sensecap::{flipped, switch_position};
use crate::levels::{is_critical_level, is_low_level};
use vstd::prelude::*;

verus! {

/// What the interface is told when there is nothing to report.
pub const NOT_INITIALIZED: i32 = -1;

/// The integer that stands for an optional byte: the byte, or -1.
pub open spec fn code_of(value: Option<u8>) -> i32 {
    match value {
        Some(v) => v as i32,
        None => NOT_INITIALIZED,
    }
}

/// The integer that stands for an optional flag: 1, 0, or -1.
pub open spec fn flag_of(value: Option<bool>) -> i32 {
    match value {
        Some(true) => 1i32,
        Some(false) => 0i32,
        None => NOT_INITIALIZED,
    }
}

/// Initializes the backend.
pub fn rust_backend_init(store: &mut Store)
    ensures
        final(store)@ == (StoreView { backend: Some(Backend::initial()), ..old(store)@ }),
{
    init(store);
}

/// Sets the Bright switch (0 = off, anything else = on).
pub fn rust_set_bright(store: &mut Store, state: u8)
    ensures
        final(store)@ == old(store)@.changed(
            |b: Backend| b.with_bright(switch_position(state)),
        ).triggered(),
{
    lights::set_bright(store, state);
}

/// Sets the Relax switch (0 = off, anything else = on).
pub fn rust_set_relax(store: &mut Store, state: u8)
    ensures
        final(store)@ == old(store)@.changed(
            |b: Backend| b.with_relax(switch_position(state)),
        ).triggered(),
{
    lights::set_relax(store, state);
}

/// The position of the Bright switch, or -1.
pub fn rust_get_bright(store: &mut Store) -> (code: i32)
    ensures
        final(store)@ == old(store)@,
        code == code_of(
            match old(store)@.backend {
                Some(b) => Some(b.bright_switch),
                None => None,
            },
        ),
{
    match lights::get_bright(store) {
        Some(state) => state as i32,
        None => -1,
    }
}

/// The position of the Relax switch, or -1.
pub fn rust_get_relax(store: &mut Store) -> (code: i32)
    ensures
        final(store)@ == old(store)@,
        code == code_of(
            match old(store)@.backend {
                Some(b) => Some(b.relax_switch),
                None => None,
            },
        ),
{
    match lights::get_relax(store) {
        Some(state) => state as i32,
        None => -1,
    }
}

/// Flips the Bright switch and returns its new position, or -1.
pub fn rust_toggle_bright(store: &mut Store) -> (code: i32)
    ensures
        final(store)@ == old(store)@.changed(|b: Backend| b.with_bright(flipped(b.bright_switch))),
        code == code_of(
            match old(store)@.backend {
                Some(b) => Some(flipped(b.bright_switch)),
                None => None,
            },
        ),
{
    match lights::toggle_bright(store) {
        Some(state) => state as i32,
        None => -1,
    }
}

/// Flips the Relax switch and returns its new position, or -1.
pub fn rust_toggle_relax(store: &mut Store) -> (code: i32)
    ensures
        final(store)@ == old(store)@.changed(|b: Backend| b.with_relax(flipped(b.relax_switch))),
        code == code_of(
            match old(store)@.backend {
                Some(b) => Some(flipped(b.relax_switch)),
                None => None,
            },
        ),
{
    match lights::toggle_relax(store) {
        Some(state) => state as i32,
        None => -1,
    }
}

/// Flips the Bright switch.
pub fn rust_handle_bright_toggle(store: &mut Store)
    ensures
        final(store)@ == old(store)@.changed(|b: Backend| b.with_bright(flipped(b.bright_switch))),
{
    lights::handle_bright_toggle(store);
}

/// Flips the Relax switch.
pub fn rust_handle_relax_toggle(store: &mut Store)
    ensures
        final(store)@ == old(store)@.changed(|b: Backend| b.with_relax(flipped(b.relax_switch))),
{
    lights::handle_relax_toggle(store);
}

/// The water level, or -1.
pub fn rust_get_water_level(store: &mut Store) -> (code: i32)
    ensures
        final(store)@ == old(store)@,
        code == code_of(
            match old(store)@.backend {
                Some(b) => Some(b.water_level),
                None => None,
            },
        ),
{
    match water::get_level(store) {
        Some(level) => level as i32,
        None => -1,
    }
}

/// Sets the water level, clamped to 100.
pub fn rust_set_water_level(store: &mut Store, level: u8)
    ensures
        final(store)@ == old(store)@.changed(|b: Backend| b.with_level(level)).triggered(),
{
    water::set_level(store, level);
}

/// Sets the water level to what the sensor reads.
pub fn rust_update_water_level(store: &mut Store)
    ensures
        final(store)@ == old(store)@.changed(
            |b: Backend| b.with_level(water::SENSOR_PLACEHOLDER_LEVEL),
        ).triggered(),
{
    water::update_from_sensor(store);
}

/// Whether the water is low: 1, 0, or -1.
pub fn rust_is_water_low(store: &mut Store) -> (code: i32)
    ensures
        final(store)@ == old(store)@,
        code == flag_of(
            match old(store)@.backend {
                Some(b) => Some(is_low_level(b.water_level)),
                None => None,
            },
        ),
{
    match water::is_low(store) {
        Some(true) => 1,
        Some(false) => 0,
        None => -1,
    }
}

/// Whether the water is critical: 1, 0, or -1.
pub fn rust_is_water_critical(store: &mut Store) -> (code: i32)
    ensures
        final(store)@ == old(store)@,
        code == flag_of(
            match old(store)@.backend {
                Some(b) => Some(is_critical_level(b.water_level)),
                None => None,
            },
        ),
{
    match water::is_critical(store) {
        Some(true) => 1,
        Some(false) => 0,
        None => -1,
    }
}

/// Registers the user interface for updates.
pub fn rust_register_ui_callback(store: &mut Store)
    ensures
        final(store)@ == (StoreView { ui_registered: true, ..old(store)@ }),
{
    store.register_ui_callback();
}

/// Triggers an update of the user interface with the current values, or
/// with zeros while the backend is not initialized. Nothing is owed to an
/// interface that has not registered.
pub fn trigger_ui_update(store: &mut Store)
    ensures
        final(store)@ == old(store)@.triggered(),
{
    let water_level = match water::get_level(store) {
        Some(level) => level as i32,
        None => 0,
    };
    let bright_state = match lights::get_bright(store) {
        Some(state) => state as i32,
        None => 0,
    };
    let relax_state = match lights::get_relax(store) {
        Some(state) => state as i32,
        None => 0,
    };
    store.queue_ui_update(UiUpdate { water_level, bright_state, relax_state });
}

/// Sets the water level as it came over the channel. The user interface is
/// updated twice: once by the setter and once more after it.
pub fn set_water_level_from_mqtt(store: &mut Store, level: u8)
    ensures
        final(store)@ == old(store)@.changed(
            |b: Backend| b.with_level(level),
        ).triggered().triggered(),
{
    water::set_level(store, level);
    trigger_ui_update(store);
}

/// Sets the Bright switch as it came over the channel. The user interface
/// is updated twice: once by the setter and once more after it.
pub fn set_bright_from_mqtt(store: &mut Store, state: u8)
    ensures
        final(store)@ == old(store)@.changed(
            |b: Backend| b.with_bright(switch_position(state)),
        ).triggered().triggered(),
{
    lights::set_bright(store, state);
    trigger_ui_update(store);
}

/// Sets the Relax switch as it came over the channel. The user interface is
/// updated twice: once by the setter and once more after it.
pub fn set_relax_from_mqtt(store: &mut Store, state: u8)
    ensures
        final(store)@ == old(store)@.changed(
            |b: Backend| b.with_relax(switch_position(state)),
        ).triggered().triggered(),
{
    lights::set_relax(store, state);
    trigger_ui_update(store);
}

} // verus!
