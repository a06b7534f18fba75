//! Device state machine: two mutually exclusive light switches and a
//! clamped water level, with a queue of outbound notifications.

use vstd::prelude::*;

verus! {

/// Highest water level that is ever stored, in percent.
pub const MAX_WATER_LEVEL: u8 = 100;

/// Water level right after boot, in percent.
pub const DEFAULT_WATER_LEVEL: u8 = 50;

/// The outbound channel a light notification is sent on.
#[derive(Clone, Copy, Debug, PartialEq, Eq, Structural)]
pub enum LightChannel {
    Bright,
    Relax,
}

impl LightChannel {
    /// The channel name as it goes over the wire.
    pub fn as_str(self) -> (name: &'static str)
        ensures
            name@ == (match self {
                LightChannel::Bright => "bright"@,
                LightChannel::Relax => "relax"@,
            }),
    {
        match self {
            LightChannel::Bright => "bright",
            LightChannel::Relax => "relax",
        }
    }
}

/// One fire-and-forget message for the external channel.
#[derive(Clone, Copy, Debug, PartialEq, Eq, Structural)]
pub struct Notification {
    pub channel: LightChannel,
    pub value: i32,
}

/// Mathematical model of a [`Backend`].
pub struct BackendView {
    pub bright: bool,
    pub relax: bool,
    pub water_level: int,
    pub attached: bool,
    pub outbox: Seq<Notification>,
}

/// The wire value of a switch position.
pub open spec fn switch_value(on: bool) -> i32 {
    if on {
        1i32
    } else {
        0i32
    }
}

impl BackendView {
    /// Bright and Relax are never both on, and the level is a percentage.
    pub open spec fn wf(self) -> bool {
        &&& !(self.bright && self.relax)
        &&& 0 <= self.water_level <= MAX_WATER_LEVEL
    }

    /// The state right after boot.
    pub open spec fn initial() -> BackendView {
        BackendView {
            bright: false,
            relax: false,
            water_level: DEFAULT_WATER_LEVEL as int,
            attached: false,
            outbox: Seq::empty(),
        }
    }

    /// The outbox after one more light notification, if a consumer is attached.
    pub open spec fn notified(self, channel: LightChannel, on: bool) -> Seq<Notification> {
        if self.attached {
            self.outbox.push(Notification { channel, value: switch_value(on) })
        } else {
            self.outbox
        }
    }

    /// The state after Bright was set: switching it on switches Relax off,
    /// and the change is announced.
    pub open spec fn set_bright(self, on: bool) -> BackendView {
        BackendView {
            bright: on,
            relax: self.relax && !on,
            outbox: self.notified(LightChannel::Bright, on),
            ..self
        }
    }

    /// The state after Relax was set: switching it on switches Bright off,
    /// and the change is announced.
    pub open spec fn set_relax(self, on: bool) -> BackendView {
        BackendView {
            relax: on,
            bright: self.bright && !on,
            outbox: self.notified(LightChannel::Relax, on),
            ..self
        }
    }

    /// The state after Bright was inverted.
    pub open spec fn toggle_bright(self) -> BackendView {
        self.set_bright(!self.bright)
    }

    /// The state after Relax was inverted.
    pub open spec fn toggle_relax(self) -> BackendView {
        self.set_relax(!self.relax)
    }

    /// The state after the water level was set to `level`, clamped.
    pub open spec fn update_water_level(self, level: int) -> BackendView {
        BackendView { water_level: clamp_level(level), ..self }
    }
}

/// `level` forced into the percentage range.
pub open spec fn clamp_level(level: int) -> int {
    if level < 0 {
        0
    } else if level > MAX_WATER_LEVEL {
        MAX_WATER_LEVEL as int
    } else {
        level
    }
}

/// One operation on the lights.
pub enum LightOp {
    SetBright(bool),
    SetRelax(bool),
    ToggleBright,
    ToggleRelax,
}

impl BackendView {
    /// The state after one operation on the lights.
    pub open spec fn apply(self, op: LightOp) -> BackendView {
        match op {
            LightOp::SetBright(on) => self.set_bright(on),
            LightOp::SetRelax(on) => self.set_relax(on),
            LightOp::ToggleBright => self.toggle_bright(),
            LightOp::ToggleRelax => self.toggle_relax(),
        }
    }

    /// The state after a sequence of operations on the lights, first to
    /// last.
    pub open spec fn apply_all(self, ops: Seq<LightOp>) -> BackendView
        decreases ops.len(),
    {
        if ops.len() == 0 {
            self
        } else {
            self.apply_all(ops.drop_last()).apply(ops.last())
        }
    }
}

/// Whatever sequence of sets and toggles is applied to a state in which
/// Bright and Relax are not both on, they are not both on afterwards, nor
/// after any part of the sequence; and the water level is left alone.
pub proof fn lemma_lights_stay_exclusive(start: BackendView, ops: Seq<LightOp>)
    requires
        start.wf(),
    ensures
        start.apply_all(ops).wf(),
        !(start.apply_all(ops).bright && start.apply_all(ops).relax),
        start.apply_all(ops).water_level == start.water_level,
        forall|k: int|
            0 <= k <= ops.len() ==> !((#[trigger] start.apply_all(ops.take(k))).bright
                && start.apply_all(ops.take(k)).relax),
    decreases ops.len(),
{
    if ops.len() > 0 {
        lemma_lights_stay_exclusive(start, ops.drop_last());
        assert forall|k: int| 0 <= k <= ops.len() implies !((#[trigger] start.apply_all(
            ops.take(k),
        )).bright && start.apply_all(ops.take(k)).relax) by {
            if k == ops.len() {
                assert(ops.take(k) =~= ops);
            } else {
                assert(ops.take(k) =~= ops.drop_last().take(k));
            }
        }
    } else {
        assert forall|k: int| 0 <= k <= ops.len() implies !((#[trigger] start.apply_all(
            ops.take(k),
        )).bright && start.apply_all(ops.take(k)).relax) by {
            assert(ops.take(k) =~= ops);
        }
    }
}

/// The level that is stored for a requested level `n` is `n` where that is
/// a percentage, 0 below and 100 above: `min(max(n, 0), 100)`.
pub proof fn lemma_water_level_clamped(state: BackendView, n: int)
    ensures
        state.update_water_level(n).water_level == vstd::math::min(vstd::math::max(n, 0), 100),
        0 <= state.update_water_level(n).water_level <= 100,
        0 <= n <= 100 ==> state.update_water_level(n).water_level == n,
{
}

/// Toggling Bright twice gives Bright its first value back. Relax is as it
/// was if it was off; a Relax that was on has been switched off by the
/// first toggle and stays off.
pub proof fn lemma_toggle_bright_twice(state: BackendView)
    ensures
        state.toggle_bright().toggle_bright().bright == state.bright,
        !state.relax ==> state.toggle_bright().toggle_bright().relax == state.relax,
        !state.toggle_bright().toggle_bright().relax || state.relax,
        state.toggle_bright().toggle_bright().water_level == state.water_level,
{
}

/// Toggling Relax twice gives Relax its first value back, and leaves Bright
/// as it was if it was off.
pub proof fn lemma_toggle_relax_twice(state: BackendView)
    ensures
        state.toggle_relax().toggle_relax().relax == state.relax,
        !state.bright ==> state.toggle_relax().toggle_relax().bright == state.bright,
        state.toggle_relax().toggle_relax().water_level == state.water_level,
{
}

/// Light and water state of the device, the only place where either changes.
pub struct Backend {
    bright_state: bool,
    relax_state: bool,
    water_level: u8,
    mqtt_attached: bool,
    outbox: Vec<Notification>,
}

impl View for Backend {
    type V = BackendView;

    closed spec fn view(&self) -> BackendView {
        BackendView {
            bright: self.bright_state,
            relax: self.relax_state,
            water_level: self.water_level as int,
            attached: self.mqtt_attached,
            outbox: self.outbox@,
        }
    }
}

impl Backend {
    /// A backend in its boot state: both lights off, level at the default,
    /// no consumer attached and nothing queued.
    pub fn new() -> (backend: Backend)
        ensures
            backend@ == BackendView::initial(),
            backend@.wf(),
    {
        Backend {
            bright_state: false,
            relax_state: false,
            water_level: DEFAULT_WATER_LEVEL,
            mqtt_attached: false,
            outbox: Vec::new(),
        }
    }

    /// Attaches the outbound consumer: from now on every light change queues
    /// one notification.
    pub fn set_mqtt_callback(&mut self)
        ensures
            final(self)@ == (BackendView { attached: true, ..old(self)@ }),
    {
        self.mqtt_attached = true;
    }

    /// Queues the notification of a light change, if a consumer is attached.
    fn notify(&mut self, channel: LightChannel, on: bool)
        ensures
            final(self)@ == (BackendView {
                outbox: old(self)@.notified(channel, on),
                ..old(self)@
            }),
    {
        if self.mqtt_attached {
            let value: i32 = if on {
                1
            } else {
                0
            };
            self.outbox.push(Notification { channel, value });
        }
    }

    /// Sets Bright; turning it on turns Relax off.
    pub fn set_bright(&mut self, state: bool)
        ensures
            final(self)@ == old(self)@.set_bright(state),
            old(self)@.wf() ==> final(self)@.wf(),
    {
        self.bright_state = state;
        if state {
            self.relax_state = false;
        }
        self.notify(LightChannel::Bright, state);
    }

    /// Sets Relax; turning it on turns Bright off.
    pub fn set_relax(&mut self, state: bool)
        ensures
            final(self)@ == old(self)@.set_relax(state),
            old(self)@.wf() ==> final(self)@.wf(),
    {
        self.relax_state = state;
        if state {
            self.bright_state = false;
        }
        self.notify(LightChannel::Relax, state);
    }

    /// Inverts Bright and returns its new value.
    pub fn toggle_bright(&mut self) -> (now: bool)
        ensures
            now == !old(self)@.bright,
            final(self)@ == old(self)@.toggle_bright(),
            old(self)@.wf() ==> final(self)@.wf(),
    {
        let now = !self.bright_state;
        self.bright_state = now;
        if now {
            self.relax_state = false;
        }
        self.notify(LightChannel::Bright, now);
        now
    }

    /// Inverts Relax and returns its new value.
    pub fn toggle_relax(&mut self) -> (now: bool)
        ensures
            now == !old(self)@.relax,
            final(self)@ == old(self)@.toggle_relax(),
            old(self)@.wf() ==> final(self)@.wf(),
    {
        let now = !self.relax_state;
        self.relax_state = now;
        if now {
            self.bright_state = false;
        }
        self.notify(LightChannel::Relax, now);
        now
    }

    /// Whether Bright is on.
    pub fn get_bright_state(&self) -> (on: bool)
        ensures
            on == self@.bright,
    {
        self.bright_state
    }

    /// Whether Relax is on.
    pub fn get_relax_state(&self) -> (on: bool)
        ensures
            on == self@.relax,
    {
        self.relax_state
    }

    /// Stores `level`, clamped to the percentage range.
    pub fn update_water_level(&mut self, level: u8)
        ensures
            final(self)@ == old(self)@.update_water_level(level as int),
            old(self)@.wf() ==> final(self)@.wf(),
    {
        let level = if level > MAX_WATER_LEVEL {
            MAX_WATER_LEVEL
        } else {
            level
        };
        self.water_level = level;
    }

    /// The water level, in percent.
    pub fn get_water_level(&self) -> (level: u8)
        ensures
            level == self@.water_level,
    {
        self.water_level
    }

    /// Hands over everything queued for the external channel, oldest first,
    /// and leaves the queue empty.
    pub fn take_notifications(&mut self) -> (sent: Vec<Notification>)
        ensures
            sent@ == old(self)@.outbox,
            final(self)@ == (BackendView { outbox: Seq::empty(), ..old(self)@ }),
    {
        let mut sent: Vec<Notification> = Vec::new();
        std::mem::swap(&mut self.outbox, &mut sent);
        sent
    }
}

impl Default for Backend {
    fn default() -> (backend: Backend)
        ensures
            backend@ == BackendView::initial(),
    {
        Backend::new()
    }
}

} // verus!
