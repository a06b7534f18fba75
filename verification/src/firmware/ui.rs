//! The coordinator: one iteration of the event loop as a function of what
//! the hardware reported, in the order touch, inbound message, resync,
//! recomposition, periodic flush.

use crate::firmware::backend::{Backend, BackendView};
use crate::firmware::display::{BlitRequest, BusFault, DisplayDriver, DisplayError, DisplayView};
use crate::firmware::lvgl_ui::{
    full_frame,
    hit_test,
    ArcTable,
    LvglUi,
    LvglUiView,
    UiAction,
};
use crate::firmware::mqtt::{light_state_payload, MqttClient, MqttClientView, MqttMessage};
use crate::firmware::touch::{TouchDriver, TouchProgress, TouchRequest, TouchState, TouchView};
use vstd::prelude::*;

verus! {

/// Shortest time between two periodic flushes, in milliseconds.
pub const FLUSH_INTERVAL_MS: u64 = 33;

/// Time the loop sleeps at the end of an iteration, in milliseconds.
pub const LOOP_SLEEP_MS: u64 = 5;

/// Mathematical model of a [`UiManager`].
pub struct UiManagerView {
    pub display: DisplayView,
    pub touch: TouchView,
    pub backend: BackendView,
    pub ui: LvglUiView,
    /// Time of the last periodic flush, in milliseconds.
    pub last_flush: u64,
    /// Whether the last good touch sample was a press.
    pub last_touch: bool,
}

/// What one iteration of the loop asks of the hardware, and what it saw.
pub struct TickReport {
    /// The action that a fresh press asked for.
    pub action: Option<UiAction>,
    /// The fault that spoiled this iteration's touch poll.
    pub touch_fault: Option<BusFault>,
    /// The transfer that a recomposition asks for, or why it could not.
    pub redraw: Result<Option<BlitRequest>, DisplayError>,
    /// The periodic transfer, if it was due, or why it could not be made.
    pub flush: Option<Result<BlitRequest, DisplayError>>,
}

/// The action that a touch sample asks for: the hit test of its position,
/// if it is a press and the sample before it was not.
pub open spec fn fresh_press(last_touch: bool, sample: Result<TouchState, BusFault>) -> Option<
    UiAction,
> {
    match sample {
        Ok(state) => if state.pressed && !last_touch {
            hit_test(state.x as int, state.y as int)
        } else {
            None
        },
        Err(_) => None,
    }
}

/// Time from `last` to `now`, or zero if the clock went back.
pub open spec fn elapsed(last: u64, now: u64) -> int {
    if now >= last {
        now - last
    } else {
        0
    }
}

impl UiManagerView {
    /// The state after `action` was applied: the light is toggled in the
    /// backend and the cache is told its new position.
    pub open spec fn acted(self, action: UiAction) -> UiManagerView {
        match action {
            UiAction::ToggleBright => UiManagerView {
                backend: self.backend.toggle_bright(),
                ui: self.ui.with_bright(!self.backend.bright),
                ..self
            },
            UiAction::ToggleRelax => UiManagerView {
                backend: self.backend.toggle_relax(),
                ui: self.ui.with_relax(!self.backend.relax),
                ..self
            },
        }
    }

    /// The payload that `action` sends out.
    pub open spec fn announcement(self, action: UiAction) -> Seq<u8> {
        match action {
            UiAction::ToggleBright => light_state_payload("bright", !self.backend.bright),
            UiAction::ToggleRelax => light_state_payload("relax", !self.backend.relax),
        }
    }

    /// The state after a touch sample: a fresh press is acted on, and a good
    /// sample is remembered as pressed or released.
    pub open spec fn touched(self, sample: Result<TouchState, BusFault>) -> UiManagerView {
        let acted = match fresh_press(self.last_touch, sample) {
            Some(action) => self.acted(action),
            None => self,
        };
        match sample {
            Ok(state) => UiManagerView { last_touch: state.pressed, ..acted },
            Err(_) => acted,
        }
    }

    /// The state after an inbound message: a water level goes to the
    /// backend, anything else changes nothing.
    pub open spec fn received(self, message: Option<MqttMessage>) -> UiManagerView {
        match message {
            Some(MqttMessage::WaterLevel(level)) => UiManagerView {
                backend: self.backend.update_water_level(level as int),
                ..self
            },
            _ => self,
        }
    }

    /// The state after the cache was brought in line with the backend.
    pub open spec fn synced(self) -> UiManagerView {
        UiManagerView {
            ui: self.ui.with_bright(self.backend.bright).with_relax(
                self.backend.relax,
            ).with_water_level(self.backend.water_level as u8),
            ..self
        }
    }

    /// The state after a stale frame was recomposed.
    pub open spec fn drawn(self, gauge: ArcTable) -> UiManagerView {
        UiManagerView {
            display: self.ui.composed(self.display, gauge),
            ui: self.ui.drawn(self.display),
            ..self
        }
    }

    /// What a recomposition asks for.
    pub open spec fn redraw_request(self) -> Result<Option<BlitRequest>, DisplayError> {
        self.ui.draw_request(self.display)
    }

    /// Whether the periodic flush is due at time `now`.
    pub open spec fn flush_due(self, now: u64) -> bool {
        elapsed(self.last_flush, now) >= FLUSH_INTERVAL_MS
    }

    /// What the periodic flush asks for at time `now`.
    pub open spec fn flush_request(self, now: u64) -> Option<Result<BlitRequest, DisplayError>> {
        if !self.flush_due(now) {
            None
        } else if LvglUiView::can_flush(self.display) {
            Some(Ok(full_frame()))
        } else {
            Some(Err(DisplayError::NotInitialized))
        }
    }

    /// The state after the periodic flush was considered at time `now`.
    pub open spec fn flushed(self, now: u64) -> UiManagerView {
        if self.flush_due(now) {
            UiManagerView { last_flush: now, ..self }
        } else {
            self
        }
    }

    /// The state after one whole iteration.
    pub open spec fn ticked(
        self,
        sample: Result<TouchState, BusFault>,
        message: Option<MqttMessage>,
        now: u64,
        gauge: ArcTable,
    ) -> UiManagerView {
        self.touched(sample).received(message).synced().drawn(gauge).flushed(now)
    }
}

/// Whatever the touch poll gave, whatever message arrived and whatever the
/// panel does, an iteration leaves a well-formed backend well formed: the
/// lights stay exclusive and the level a percentage. And it leaves the
/// redraw cache holding the state of the backend.
pub proof fn lemma_tick_keeps_state(
    state: UiManagerView,
    sample: Result<TouchState, BusFault>,
    message: Option<MqttMessage>,
    now: u64,
    gauge: ArcTable,
)
    requires
        state.backend.wf(),
    ensures
        state.ticked(sample, message, now, gauge).backend.wf(),
        state.ticked(sample, message, now, gauge).ui.bright == state.ticked(
            sample,
            message,
            now,
            gauge,
        ).backend.bright,
        state.ticked(sample, message, now, gauge).ui.relax == state.ticked(
            sample,
            message,
            now,
            gauge,
        ).backend.relax,
        state.ticked(sample, message, now, gauge).ui.water_level == state.ticked(
            sample,
            message,
            now,
            gauge,
        ).backend.water_level,
        state.ticked(sample, message, now, gauge).touch == state.touch,
{
}

/// An iteration in which nothing happens, on a frame that is fresh and in
/// line with the backend, changes nothing but the flush clock and asks for
/// no recomposition.
pub proof fn lemma_quiet_tick(state: UiManagerView, now: u64, gauge: ArcTable)
    requires
        state.backend.wf(),
        !state.ui.needs_redraw,
        state.ui.bright == state.backend.bright,
        state.ui.relax == state.backend.relax,
        state.ui.water_level == state.backend.water_level,
        !state.last_touch,
    ensures
        state.ticked(
            Ok(TouchState { x: 0, y: 0, pressed: false }),
            None,
            now,
            gauge,
        ) == state.flushed(now),
        state.touched(Ok(TouchState { x: 0, y: 0, pressed: false })).received(
            None,
        ).synced().redraw_request() == Ok::<Option<BlitRequest>, DisplayError>(None),
{
}

/// The oldest message of an inbox, if there is one.
pub open spec fn oldest(inbox: Seq<MqttMessage>) -> Option<MqttMessage> {
    if inbox.len() > 0 {
        Some(inbox[0])
    } else {
        None
    }
}

/// An inbox without its oldest message.
pub open spec fn without_oldest(inbox: Seq<MqttMessage>) -> Seq<MqttMessage> {
    if inbox.len() > 0 {
        inbox.drop_first()
    } else {
        inbox
    }
}

/// The display, the digitizer, the device state and the redraw cache under
/// one owner, which is the only place that orders them.
pub struct UiManager {
    display: DisplayDriver,
    touch: TouchDriver,
    backend: Backend,
    lvgl_ui: LvglUi,
    last_flush: u64,
    last_touch_state: bool,
}

impl View for UiManager {
    type V = UiManagerView;

    closed spec fn view(&self) -> UiManagerView {
        UiManagerView {
            display: self.display@,
            touch: self.touch@,
            backend: self.backend@,
            ui: self.lvgl_ui@,
            last_flush: self.last_flush,
            last_touch: self.last_touch_state,
        }
    }
}

impl UiManager {
    /// Takes ownership of the parts at time `now`, with a fresh redraw cache
    /// and no touch seen.
    pub fn new(display: DisplayDriver, touch: TouchDriver, backend: Backend, now: u64) -> (manager:
        UiManager)
        ensures
            manager@ == (UiManagerView {
                display: display@,
                touch: touch@,
                backend: backend@,
                ui: LvglUiView::initial(),
                last_flush: now,
                last_touch: false,
            }),
    {
        UiManager {
            display,
            touch,
            backend,
            lvgl_ui: LvglUi::new(),
            last_flush: now,
            last_touch_state: false,
        }
    }

    /// What comes before the first iteration: the cache is brought in line
    /// with the backend and the first frame is composed.
    pub fn begin(&mut self, gauge: &ArcTable) -> (request: Result<Option<BlitRequest>, DisplayError>)
        ensures
            final(self)@ == old(self)@.synced().drawn(*gauge),
            request == old(self)@.synced().redraw_request(),
    {
        self.update_ui_from_backend();
        self.lvgl_ui.draw(&mut self.display, gauge)
    }

    /// One iteration of the loop, given the outcome of this iteration's
    /// touch poll and the time. A fresh press is hit-tested and acted on; at
    /// most one inbound message is taken; the cache is resynchronized; a
    /// stale frame is recomposed; the periodic flush is asked for when its
    /// interval has passed. A fault of the poll costs this iteration's
    /// sample and nothing else.
    pub fn tick(
        &mut self,
        sample: Result<TouchState, BusFault>,
        now: u64,
        mqtt: &mut MqttClient,
        gauge: &ArcTable,
    ) -> (report: TickReport)
        ensures
            final(self)@ == old(self)@.ticked(sample, oldest(old(mqtt)@.inbox), now, *gauge),
            final(mqtt)@.inbox == without_oldest(old(mqtt)@.inbox),
            final(mqtt)@.outbox == (match fresh_press(old(self)@.last_touch, sample) {
                Some(action) => old(mqtt)@.outbox.push(old(self)@.announcement(action)),
                None => old(mqtt)@.outbox,
            }),
            report.action == fresh_press(old(self)@.last_touch, sample),
            report.touch_fault == (match sample {
                Ok(_) => None,
                Err(fault) => Some(fault),
            }),
            report.redraw == old(self)@.touched(sample).received(
                oldest(old(mqtt)@.inbox),
            ).synced().redraw_request(),
            report.flush == old(self)@.touched(sample).received(
                oldest(old(mqtt)@.inbox),
            ).synced().drawn(*gauge).flush_request(now),
    {
        let action = self.on_touch(sample, mqtt);
        let touch_fault = match sample {
            Ok(_) => None,
            Err(fault) => Some(fault),
        };
        self.process_mqtt_messages(mqtt);
        self.update_ui_from_backend();
        let redraw = if self.lvgl_ui.needs_redraw() {
            self.lvgl_ui.draw(&mut self.display, gauge)
        } else {
            Ok(None)
        };
        let flush = self.periodic_flush(now);
        TickReport { action, touch_fault, redraw, flush }
    }

    /// Takes a touch sample: a press that follows a release is hit-tested
    /// and acted on; a good sample is remembered.
    pub fn on_touch(&mut self, sample: Result<TouchState, BusFault>, mqtt: &mut MqttClient) -> (action:
        Option<UiAction>)
        ensures
            action == fresh_press(old(self)@.last_touch, sample),
            final(self)@ == old(self)@.touched(sample),
            final(mqtt)@.inbox == old(mqtt)@.inbox,
            final(mqtt)@.outbox == (match action {
                Some(a) => old(mqtt)@.outbox.push(old(self)@.announcement(a)),
                None => old(mqtt)@.outbox,
            }),
    {
        match sample {
            Ok(touch_state) => {
                let mut action: Option<UiAction> = None;
                if touch_state.pressed && !self.last_touch_state {
                    action = self.lvgl_ui.handle_touch(touch_state.x, touch_state.y);
                    match action {
                        Some(a) => {
                            self.process_ui_action(a, mqtt);
                        },
                        None => {},
                    }
                }
                self.last_touch_state = touch_state.pressed;
                action
            },
            Err(_) => None,
        }
    }

    /// Applies an action: toggles the light, tells the cache, and queues the
    /// announcement.
    pub fn process_ui_action(&mut self, action: UiAction, mqtt: &mut MqttClient)
        ensures
            final(self)@ == old(self)@.acted(action),
            final(mqtt)@ == (MqttClientView {
                outbox: old(mqtt)@.outbox.push(old(self)@.announcement(action)),
                ..old(mqtt)@
            }),
    {
        match action {
            UiAction::ToggleBright => {
                let state = self.backend.toggle_bright();
                self.lvgl_ui.set_bright_state(state);
                mqtt.try_publish_light_state("bright", state);
            },
            UiAction::ToggleRelax => {
                let state = self.backend.toggle_relax();
                self.lvgl_ui.set_relax_state(state);
                mqtt.try_publish_light_state("relax", state);
            },
        }
    }

    /// Takes at most one inbound message; a water level goes to the backend.
    pub fn process_mqtt_messages(&mut self, mqtt: &mut MqttClient)
        ensures
            final(self)@ == old(self)@.received(oldest(old(mqtt)@.inbox)),
            final(mqtt)@ == (MqttClientView {
                inbox: without_oldest(old(mqtt)@.inbox),
                ..old(mqtt)@
            }),
    {
        match mqtt.try_recv() {
            Some(MqttMessage::WaterLevel(level)) => {
                self.backend.update_water_level(level);
            },
            Some(MqttMessage::Connected) => {},
            Some(MqttMessage::Disconnected) => {},
            None => {},
        }
    }

    /// Brings the cache in line with the backend; a difference makes the
    /// frame stale.
    pub fn update_ui_from_backend(&mut self)
        ensures
            final(self)@ == old(self)@.synced(),
    {
        let bright_state = self.backend.get_bright_state();
        let relax_state = self.backend.get_relax_state();
        let water_level = self.backend.get_water_level();
        self.lvgl_ui.set_bright_state(bright_state);
        self.lvgl_ui.set_relax_state(relax_state);
        self.lvgl_ui.set_water_level(water_level);
    }

    /// Asks for the whole frame to be handed to the panel if the flush
    /// interval has passed since the last time, and restarts the interval.
    pub fn periodic_flush(&mut self, now: u64) -> (request: Option<Result<BlitRequest, DisplayError>>)
        ensures
            final(self)@ == old(self)@.flushed(now),
            request == old(self)@.flush_request(now),
    {
        let since = if now >= self.last_flush {
            now - self.last_flush
        } else {
            0
        };
        if since >= FLUSH_INTERVAL_MS {
            let request = self.display.flush(0, 0, 480, 480);
            self.last_flush = now;
            Some(request)
        } else {
            None
        }
    }

    /// Takes the status of the transfer that a recomposition asked for; a
    /// failed transfer leaves the frame stale.
    pub fn flush_done(&mut self, status: i32) -> (outcome: Result<(), DisplayError>)
        ensures
            outcome == DisplayDriver::flush_status_spec(status),
            final(self)@ == (UiManagerView {
                ui: LvglUiView {
                    needs_redraw: old(self)@.ui.needs_redraw || outcome.is_err(),
                    ..old(self)@.ui
                },
                ..old(self)@
            }),
    {
        self.lvgl_ui.flush_done(status)
    }

    /// Begins a touch poll.
    pub fn poll_touch(&mut self) -> (request: TouchRequest)
        ensures
            request == crate::firmware::touch::read_request(
                crate::firmware::touch::GT911_REG_STATUS,
                1,
            ),
            final(self)@ == (UiManagerView {
                touch: TouchView {
                    phase: crate::firmware::touch::TouchPhase::Status,
                    ..old(self)@.touch
                },
                ..old(self)@
            }),
    {
        self.touch.read()
    }

    /// Takes the outcome of the touch transaction asked for last.
    pub fn touch_reply(&mut self, reply: Result<[u8; 4], BusFault>) -> (progress: TouchProgress)
        ensures
            progress == old(self)@.touch.progress(reply),
            final(self)@ == (UiManagerView { touch: old(self)@.touch.advance(reply), ..old(self)@ }),
    {
        self.touch.advance(reply)
    }

    /// The framebuffer, once it has been allocated.
    pub fn framebuffer(&self) -> (buffer: Option<&[u16]>)
        ensures
            self@.display.pixels.len() == 0 ==> buffer.is_none(),
            self@.display.pixels.len() != 0 ==> buffer.is_some() && buffer.unwrap()@
                == self@.display.pixels,
    {
        self.display.get_framebuffer()
    }

    /// The device state.
    pub fn backend(&self) -> (backend: &Backend)
        ensures
            backend@ == self@.backend,
    {
        &self.backend
    }
}

} // verus!
