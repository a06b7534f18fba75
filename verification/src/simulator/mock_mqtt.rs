//! Stand-in for the message channel: it queues what would be published and
//! makes up the water levels that would arrive.

use crate::simulator::water;
use crate::simulator::{Backend, Publication, Store, StoreView};
use rand::Rng;
use vstd::prelude::*;

verus! {

/// Seconds between two made-up water levels.
pub const SUBSCRIBER_PERIOD_SECS: u64 = 5;

/// Highest water level that is made up, in percent.
pub const MAX_RANDOM_LEVEL: u8 = 100;

/// What one made-up message did: the level that arrived and the switch
/// positions at that time, zeros while the backend is not initialized.
#[derive(Debug, Clone, Copy, PartialEq, Eq, Structural)]
pub struct SubscriberReport {
    pub level: u8,
    pub bright: u8,
    pub relax: u8,
}

/// A number drawn at random from `low` to `high`, both included. Calls
/// `gen_range` of the `rand` crate on the thread's generator, which returns
/// a value of the range it is given and panics on an empty range; which
/// value comes is not known, and two calls may differ.
#[verifier::external_body]
fn random_in_range(low: u8, high: u8) -> (value: u8)
    requires
        low <= high,
    ensures
        low <= value <= high,
{
    rand::thread_rng().gen_range(low..=high)
}

/// The report on a message that carried `level`.
pub open spec fn report_of(store: StoreView, level: u8) -> SubscriberReport {
    match store.backend {
        Some(b) => SubscriberReport { level, bright: b.bright_switch, relax: b.relax_switch },
        None => SubscriberReport { level, bright: 0, relax: 0 },
    }
}

/// Takes a water level that arrived: stores it and reports it with the
/// switch positions.
pub fn receive_water_level(store: &mut Store, level: u8) -> (report: SubscriberReport)
    ensures
        final(store)@ == old(store)@.changed(|b: Backend| b.with_level(level)),
        report == report_of(old(store)@, level),
        old(store)@.wf() ==> final(store)@.wf(),
{
    water::set_level(store, level);
    match store.peek() {
        Some(backend) => SubscriberReport {
            level,
            bright: backend.bright_switch,
            relax: backend.relax_switch,
        },
        None => SubscriberReport { level, bright: 0, relax: 0 },
    }
}

/// One round of the stand-in subscriber: a water level from 0 to 100 is
/// drawn at random and taken as if it had arrived.
pub fn start_subscriber(store: &mut Store) -> (report: SubscriberReport)
    ensures
        report.level <= MAX_RANDOM_LEVEL,
        final(store)@ == old(store)@.changed(|b: Backend| b.with_level(report.level)),
        report == report_of(old(store)@, report.level),
        old(store)@.wf() ==> final(store)@.wf(),
{
    let level = random_in_range(0, MAX_RANDOM_LEVEL);
    receive_water_level(store, level)
}

/// Publishes the positions of both switches.
pub fn publish_lights(store: &mut Store, bright: u8, relax: u8)
    ensures
        final(store)@ == (StoreView {
            published: old(store)@.published.push(Publication::Lights { bright, relax }),
            ..old(store)@
        }),
{
    store.publish(Publication::Lights { bright, relax });
}

/// Publishes a water level.
pub fn publish_water(store: &mut Store, level: u8)
    ensures
        final(store)@ == (StoreView {
            published: old(store)@.published.push(Publication::Water { level }),
            ..old(store)@
        }),
{
    store.publish(Publication::Water { level });
}

} // verus!
