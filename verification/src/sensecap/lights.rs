//! The two light switches of the store's backend and the mode they stand
//! for.

use crate::sensecap::ffi::trigger_ui_update;
use crate::sensecap::{flipped, switch_position, with_backend, Backend, LightMode, Store};
use vstd::prelude::*;

verus! {

/// Topic for publishing the light state.
pub const MQTT_TOPIC_LIGHTS: &'static str = "sensecap/lights/state";

/// Puts the Bright switch in a position.
fn bright_to(backend: Backend, position: u8) -> (out: Backend)
    ensures
        out == backend.with_bright(position),
{
    let mut backend = backend;
    backend.bright_switch = position;
    if position == 1 {
        backend.light_mode = LightMode::Bright;
        backend.relax_switch = 0;
    } else if backend.relax_switch == 0 {
        backend.light_mode = LightMode::Off;
    }
    backend
}

/// Puts the Relax switch in a position.
fn relax_to(backend: Backend, position: u8) -> (out: Backend)
    ensures
        out == backend.with_relax(position),
{
    let mut backend = backend;
    backend.relax_switch = position;
    if position == 1 {
        backend.light_mode = LightMode::Relax;
        backend.bright_switch = 0;
    } else if backend.bright_switch == 0 {
        backend.light_mode = LightMode::Off;
    }
    backend
}

/// Sets the Bright switch (0 = off, anything else = on) and triggers an
/// update of the user interface. Switching Bright on switches Relax off.
pub fn set_bright(store: &mut Store, state: u8)
    ensures
        final(store)@ == old(store)@.changed(
            |b: Backend| b.with_bright(switch_position(state)),
        ).triggered(),
        old(store)@.wf() ==> final(store)@.wf(),
{
    let clamped: u8 = if state > 0 {
        1
    } else {
        0
    };
    with_backend(
        store,
        |backend: Backend| -> (out: (Backend, ()))
            ensures
                out.0 == backend.with_bright(clamped)
            { (bright_to(backend, clamped), ()) },
    );
    trigger_ui_update(store);
}

/// Sets the Relax switch (0 = off, anything else = on) and triggers an
/// update of the user interface. Switching Relax on switches Bright off.
pub fn set_relax(store: &mut Store, state: u8)
    ensures
        final(store)@ == old(store)@.changed(
            |b: Backend| b.with_relax(switch_position(state)),
        ).triggered(),
        old(store)@.wf() ==> final(store)@.wf(),
{
    let clamped: u8 = if state > 0 {
        1
    } else {
        0
    };
    with_backend(
        store,
        |backend: Backend| -> (out: (Backend, ()))
            ensures
                out.0 == backend.with_relax(clamped)
            { (relax_to(backend, clamped), ()) },
    );
    trigger_ui_update(store);
}

/// The position of the Bright switch, if the backend is initialized.
pub fn get_bright(store: &mut Store) -> (position: Option<u8>)
    ensures
        final(store)@ == old(store)@,
        position == (match old(store)@.backend {
            Some(b) => Some(b.bright_switch),
            None => None,
        }),
{
    with_backend(
        store,
        |backend: Backend| -> (out: (Backend, u8))
            ensures
                out == (backend, backend.bright_switch)
            { (backend, backend.bright_switch) },
    )
}

/// The position of the Relax switch, if the backend is initialized.
pub fn get_relax(store: &mut Store) -> (position: Option<u8>)
    ensures
        final(store)@ == old(store)@,
        position == (match old(store)@.backend {
            Some(b) => Some(b.relax_switch),
            None => None,
        }),
{
    with_backend(
        store,
        |backend: Backend| -> (out: (Backend, u8))
            ensures
                out == (backend, backend.relax_switch)
            { (backend, backend.relax_switch) },
    )
}

/// Flips the Bright switch and returns its new position. The switch is set
/// in place, within the one access to the backend.
pub fn toggle_bright(store: &mut Store) -> (position: Option<u8>)
    ensures
        final(store)@ == old(store)@.changed(|b: Backend| b.with_bright(flipped(b.bright_switch))),
        position == (match old(store)@.backend {
            Some(b) => Some(flipped(b.bright_switch)),
            None => None,
        }),
        old(store)@.wf() ==> final(store)@.wf(),
{
    with_backend(
        store,
        |backend: Backend| -> (out: (Backend, u8))
            ensures
                out == (
                    backend.with_bright(flipped(backend.bright_switch)),
                    flipped(backend.bright_switch),
                )
            {
                let current = backend.bright_switch;
                let new_state: u8 = if current == 0 {
                    1
                } else {
                    0
                };
                (bright_to(backend, new_state), new_state)
            },
    )
}

/// Flips the Relax switch and returns its new position. The switch is set
/// in place, within the one access to the backend.
pub fn toggle_relax(store: &mut Store) -> (position: Option<u8>)
    ensures
        final(store)@ == old(store)@.changed(|b: Backend| b.with_relax(flipped(b.relax_switch))),
        position == (match old(store)@.backend {
            Some(b) => Some(flipped(b.relax_switch)),
            None => None,
        }),
        old(store)@.wf() ==> final(store)@.wf(),
{
    with_backend(
        store,
        |backend: Backend| -> (out: (Backend, u8))
            ensures
                out == (
                    backend.with_relax(flipped(backend.relax_switch)),
                    flipped(backend.relax_switch),
                )
            {
                let current = backend.relax_switch;
                let new_state: u8 = if current == 0 {
                    1
                } else {
                    0
                };
                (relax_to(backend, new_state), new_state)
            },
    )
}

/// The current light mode, if the backend is initialized.
pub fn get_light_mode(store: &mut Store) -> (mode: Option<LightMode>)
    ensures
        final(store)@ == old(store)@,
        mode == (match old(store)@.backend {
            Some(b) => Some(b.light_mode),
            None => None,
        }),
{
    with_backend(
        store,
        |backend: Backend| -> (out: (Backend, LightMode))
            ensures
                out == (backend, backend.light_mode)
            { (backend, backend.light_mode) },
    )
}

/// Sets the light mode directly and puts the switches in the positions that
/// stand for it.
pub fn set_light_mode(store: &mut Store, mode: LightMode)
    ensures
        final(store)@ == old(store)@.changed(|b: Backend| b.with_mode(mode)),
        old(store)@.wf() ==> final(store)@.wf(),
{
    with_backend(
        store,
        |backend: Backend| -> (out: (Backend, ()))
            ensures
                out.0 == backend.with_mode(mode)
            {
                let mut backend = backend;
                backend.light_mode = mode;
                match mode {
                    LightMode::Off => {
                        backend.bright_switch = 0;
                        backend.relax_switch = 0;
                    },
                    LightMode::Bright => {
                        backend.bright_switch = 1;
                        backend.relax_switch = 0;
                    },
                    LightMode::Relax => {
                        backend.bright_switch = 0;
                        backend.relax_switch = 1;
                    },
                }
                (backend, ())
            },
    );
}

/// Flips the Bright switch; the new position is not reported.
pub fn handle_bright_toggle(store: &mut Store)
    ensures
        final(store)@ == old(store)@.changed(|b: Backend| b.with_bright(flipped(b.bright_switch))),
        old(store)@.wf() ==> final(store)@.wf(),
{
    toggle_bright(store);
}

/// Flips the Relax switch; the new position is not reported.
pub fn handle_relax_toggle(store: &mut Store)
    ensures
        final(store)@ == old(store)@.changed(|b: Backend| b.with_relax(flipped(b.relax_switch))),
        old(store)@.wf() ==> final(store)@.wf(),
{
    toggle_relax(store);
}

} // verus!
