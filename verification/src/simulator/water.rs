//! Water level of the store's backend.

use crate::simulator::{with_backend, Backend, Store};
use crate::levels::{is_critical_level, is_low_level, level_is_critical, level_is_low};
use vstd::prelude::*;

verus! {

/// Maximum water level.
pub const MAX_WATER_LEVEL: u8 = 100;

/// The current water level, if the backend is initialized.
pub fn get_level(store: &mut Store) -> (level: Option<u8>)
    ensures
        final(store)@ == old(store)@,
        level == (match old(store)@.backend {
            Some(b) => Some(b.water_level),
            None => None,
        }),
{
    with_backend(
        store,
        |backend: Backend| -> (out: (Backend, u8))
            ensures
                out == (backend, backend.water_level)
            { (backend, backend.water_level) },
    )
}

/// Sets the water level, clamped to 100.
pub fn set_level(store: &mut Store, level: u8)
    ensures
        final(store)@ == old(store)@.changed(|b: Backend| b.with_level(level)),
        old(store)@.wf() ==> final(store)@.wf(),
{
    let clamped = if level > MAX_WATER_LEVEL {
        MAX_WATER_LEVEL
    } else {
        level
    };
    with_backend(
        store,
        |backend: Backend| -> (out: (Backend, ()))
            ensures
                out.0 == backend.with_level(level)
            {
                let mut backend = backend;
                backend.water_level = clamped;
                (backend, ())
            },
    );
}

/// Whether the water level is low: at most 20.
pub fn is_low(store: &mut Store) -> (low: Option<bool>)
    ensures
        final(store)@ == old(store)@,
        low == (match old(store)@.backend {
            Some(b) => Some(is_low_level(b.water_level)),
            None => None,
        }),
{
    with_backend(
        store,
        |backend: Backend| -> (out: (Backend, bool))
            ensures
                out == (backend, is_low_level(backend.water_level))
            { (backend, level_is_low(backend.water_level)) },
    )
}

/// Whether the water level is critical: at most 10.
pub fn is_critical(store: &mut Store) -> (critical: Option<bool>)
    ensures
        final(store)@ == old(store)@,
        critical == (match old(store)@.backend {
            Some(b) => Some(is_critical_level(b.water_level)),
            None => None,
        }),
{
    with_backend(
        store,
        |backend: Backend| -> (out: (Backend, bool))
            ensures
                out == (backend, is_critical_level(backend.water_level))
            { (backend, level_is_critical(backend.water_level)) },
    )
}

} // verus!
