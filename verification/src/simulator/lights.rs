//! The two light switches of the store's backend. Every change is
//! published with the positions of both switches.

use crate::simulator::mock_mqtt;
use crate::simulator::{flipped, switch_position, with_backend, Backend, Store, StoreView};
use vstd::prelude::*;

verus! {

/// Puts the Bright switch in a position.
fn bright_to(backend: Backend, position: u8) -> (out: Backend)
    ensures
        out == backend.with_bright(position),
{
    let mut backend = backend;
    backend.bright_switch = position;
    if position == 1 {
        backend.relax_switch = 0;
    }
    backend
}

/// Puts the Relax switch in a position.
fn relax_to(backend: Backend, position: u8) -> (out: Backend)
    ensures
        out == backend.with_relax(position),
{
    let mut backend = backend;
    backend.relax_switch = position;
    if position == 1 {
        backend.bright_switch = 0;
    }
    backend
}

/// Publishes the switch positions of the backend, if there is one.
fn publish_positions(store: &mut Store)
    ensures
        final(store)@ == (match old(store)@.backend {
            Some(b) => StoreView {
                published: old(store)@.published.push(
                    crate::simulator::Publication::Lights {
                        bright: b.bright_switch,
                        relax: b.relax_switch,
                    },
                ),
                ..old(store)@
            },
            None => old(store)@,
        }),
{
    match store.peek() {
        Some(backend) => {
            mock_mqtt::publish_lights(store, backend.bright_switch, backend.relax_switch);
        },
        None => {},
    }
}

/// Sets the Bright switch (0 = off, anything else = on) and publishes both
/// positions. Switching Bright on switches Relax off.
pub fn set_bright(store: &mut Store, state: u8)
    ensures
        final(store)@ == old(store)@.switched(|b: Backend| b.with_bright(switch_position(state))),
        old(store)@.wf() ==> final(store)@.wf(),
{
    let clamped: u8 = if state > 0 {
        1
    } else {
        0
    };
    with_backend(
        store,
        |backend: Backend| -> (out: (Backend, ()))
            ensures
                out.0 == backend.with_bright(clamped)
            { (bright_to(backend, clamped), ()) },
    );
    publish_positions(store);
}

/// Sets the Relax switch (0 = off, anything else = on) and publishes both
/// positions. Switching Relax on switches Bright off.
pub fn set_relax(store: &mut Store, state: u8)
    ensures
        final(store)@ == old(store)@.switched(|b: Backend| b.with_relax(switch_position(state))),
        old(store)@.wf() ==> final(store)@.wf(),
{
    let clamped: u8 = if state > 0 {
        1
    } else {
        0
    };
    with_backend(
        store,
        |backend: Backend| -> (out: (Backend, ()))
            ensures
                out.0 == backend.with_relax(clamped)
            { (relax_to(backend, clamped), ()) },
    );
    publish_positions(store);
}

/// The position of the Bright switch, if the backend is initialized.
pub fn get_bright(store: &mut Store) -> (position: Option<u8>)
    ensures
        final(store)@ == old(store)@,
        position == (match old(store)@.backend {
            Some(b) => Some(b.bright_switch),
            None => None,
        }),
{
    with_backend(
        store,
        |backend: Backend| -> (out: (Backend, u8))
            ensures
                out == (backend, backend.bright_switch)
            { (backend, backend.bright_switch) },
    )
}

/// The position of the Relax switch, if the backend is initialized.
pub fn get_relax(store: &mut Store) -> (position: Option<u8>)
    ensures
        final(store)@ == old(store)@,
        position == (match old(store)@.backend {
            Some(b) => Some(b.relax_switch),
            None => None,
        }),
{
    with_backend(
        store,
        |backend: Backend| -> (out: (Backend, u8))
            ensures
                out == (backend, backend.relax_switch)
            { (backend, backend.relax_switch) },
    )
}

/// Flips the Bright switch, publishes both positions and returns the new
/// position of Bright.
pub fn toggle_bright(store: &mut Store) -> (position: Option<u8>)
    ensures
        final(store)@ == old(store)@.switched(|b: Backend| b.with_bright(flipped(b.bright_switch))),
        position == (match old(store)@.backend {
            Some(b) => Some(flipped(b.bright_switch)),
            None => None,
        }),
        old(store)@.wf() ==> final(store)@.wf(),
{
    let position = with_backend(
        store,
        |backend: Backend| -> (out: (Backend, u8))
            ensures
                out == (
                    backend.with_bright(flipped(backend.bright_switch)),
                    flipped(backend.bright_switch),
                )
            {
                let current = backend.bright_switch;
                let new_state: u8 = if current == 0 {
                    1
                } else {
                    0
                };
                (bright_to(backend, new_state), new_state)
            },
    );
    publish_positions(store);
    position
}

/// Flips the Relax switch, publishes both positions and returns the new
/// position of Relax.
pub fn toggle_relax(store: &mut Store) -> (position: Option<u8>)
    ensures
        final(store)@ == old(store)@.switched(|b: Backend| b.with_relax(flipped(b.relax_switch))),
        position == (match old(store)@.backend {
            Some(b) => Some(flipped(b.relax_switch)),
            None => None,
        }),
        old(store)@.wf() ==> final(store)@.wf(),
{
    let position = with_backend(
        store,
        |backend: Backend| -> (out: (Backend, u8))
            ensures
                out == (
                    backend.with_relax(flipped(backend.relax_switch)),
                    flipped(backend.relax_switch),
                )
            {
                let current = backend.relax_switch;
                let new_state: u8 = if current == 0 {
                    1
                } else {
                    0
                };
                (relax_to(backend, new_state), new_state)
            },
    );
    publish_positions(store);
    position
}

} // verus!
