//! Verified core of a touch-screen indicator appliance: the light/water
//! state machine, the framebuffer compositor, the panel bring-up protocol,
//! the touch decoder and the event-loop coordinator.

pub mod firmware;
pub mod levels;
pub mod sensecap;
pub mod simulator;
