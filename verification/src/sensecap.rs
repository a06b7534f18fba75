//! The backend behind a foreign user interface: light mode, switches and
//! water level in one store, with the updates owed to the interface queued
//! for whoever can call it.

pub mod ffi;
pub mod lights;
pub mod water;

use crate::levels::BOOT_WATER_LEVEL;
use vstd::prelude::*;

verus! {

/// Light modes for the device.
#[derive(Debug, Clone, Copy, PartialEq, Eq, Structural)]
pub enum LightMode {
    Off,
    Bright,
    Relax,
}

/// Light and water state.
#[derive(Debug, Clone, Copy, PartialEq, Eq, Structural)]
pub struct Backend {
    pub light_mode: LightMode,
    pub water_level: u8,
    /// Bright switch: 0 = off, 1 = on.
    pub bright_switch: u8,
    /// Relax switch: 0 = off, 1 = on.
    pub relax_switch: u8,
}

/// The position, 0 or 1, that a requested switch state stands for.
pub open spec fn switch_position(state: u8) -> u8 {
    if state > 0 {
        1u8
    } else {
        0u8
    }
}

/// The other position of a switch.
pub open spec fn flipped(position: u8) -> u8 {
    if position == 0 {
        1u8
    } else {
        0u8
    }
}

impl Backend {
    /// The state after start-up: both switches off, mode off, level 50.
    pub open spec fn initial() -> Backend {
        Backend {
            light_mode: LightMode::Off,
            water_level: BOOT_WATER_LEVEL,
            bright_switch: 0,
            relax_switch: 0,
        }
    }

    /// The mode that a pair of switch positions stands for.
    pub open spec fn mode_of(bright_switch: u8, relax_switch: u8) -> LightMode {
        if bright_switch == 1 {
            LightMode::Bright
        } else if relax_switch == 1 {
            LightMode::Relax
        } else {
            LightMode::Off
        }
    }

    /// Each switch is 0 or 1, at most one is on, the mode is the one that
    /// the switches stand for, and the level is a percentage.
    pub open spec fn wf(self) -> bool {
        &&& self.bright_switch <= 1
        &&& self.relax_switch <= 1
        &&& !(self.bright_switch == 1 && self.relax_switch == 1)
        &&& self.light_mode == Backend::mode_of(self.bright_switch, self.relax_switch)
        &&& self.water_level <= 100
    }

    /// The state after the Bright switch was put in position `position`.
    pub open spec fn with_bright(self, position: u8) -> Backend {
        if position == 1 {
            Backend {
                bright_switch: 1,
                relax_switch: 0,
                light_mode: LightMode::Bright,
                ..self
            }
        } else if self.relax_switch == 0 {
            Backend { bright_switch: position, light_mode: LightMode::Off, ..self }
        } else {
            Backend { bright_switch: position, ..self }
        }
    }

    /// The state after the Relax switch was put in position `position`.
    pub open spec fn with_relax(self, position: u8) -> Backend {
        if position == 1 {
            Backend { relax_switch: 1, bright_switch: 0, light_mode: LightMode::Relax, ..self }
        } else if self.bright_switch == 0 {
            Backend { relax_switch: position, light_mode: LightMode::Off, ..self }
        } else {
            Backend { relax_switch: position, ..self }
        }
    }

    /// The state after the mode was set, with the switches to match.
    pub open spec fn with_mode(self, mode: LightMode) -> Backend {
        match mode {
            LightMode::Off => Backend { light_mode: mode, bright_switch: 0, relax_switch: 0, ..self },
            LightMode::Bright => Backend {
                light_mode: mode,
                bright_switch: 1,
                relax_switch: 0,
                ..self
            },
            LightMode::Relax => Backend {
                light_mode: mode,
                bright_switch: 0,
                relax_switch: 1,
                ..self
            },
        }
    }

    /// The state after the level was set to `level`, clamped to 100.
    pub open spec fn with_level(self, level: u8) -> Backend {
        Backend {
            water_level: if level > 100 {
                100u8
            } else {
                level
            },
            ..self
        }
    }
}

/// One operation on the switches.
pub enum SwitchOp {
    SetBright(u8),
    SetRelax(u8),
    ToggleBright,
    ToggleRelax,
    SetMode(LightMode),
}

impl Backend {
    /// The state after one operation on the switches.
    pub open spec fn apply(self, op: SwitchOp) -> Backend {
        match op {
            SwitchOp::SetBright(state) => self.with_bright(switch_position(state)),
            SwitchOp::SetRelax(state) => self.with_relax(switch_position(state)),
            SwitchOp::ToggleBright => self.with_bright(flipped(self.bright_switch)),
            SwitchOp::ToggleRelax => self.with_relax(flipped(self.relax_switch)),
            SwitchOp::SetMode(mode) => self.with_mode(mode),
        }
    }

    /// The state after a sequence of operations, first to last.
    pub open spec fn apply_all(self, ops: Seq<SwitchOp>) -> Backend
        decreases ops.len(),
    {
        if ops.len() == 0 {
            self
        } else {
            self.apply_all(ops.drop_last()).apply(ops.last())
        }
    }
}

/// Whatever sequence of switch operations is applied to a well-formed
/// state, the two switches are never both on afterwards, and the mode is
/// the one that the switches stand for.
pub proof fn lemma_switches_stay_exclusive(start: Backend, ops: Seq<SwitchOp>)
    requires
        start.wf(),
    ensures
        start.apply_all(ops).wf(),
        !(start.apply_all(ops).bright_switch == 1 && start.apply_all(ops).relax_switch == 1),
        start.apply_all(ops).water_level == start.water_level,
    decreases ops.len(),
{
    if ops.len() > 0 {
        lemma_switches_stay_exclusive(start, ops.drop_last());
    }
}

/// The level that is stored is the requested one, or 100 if that is more.
pub proof fn lemma_level_clamped(state: Backend, level: u8)
    ensures
        state.with_level(level).water_level == vstd::math::min(level as int, 100),
        state.with_level(level).water_level <= 100,
{
}

/// Flipping the Bright switch of a well-formed state twice puts it back,
/// and leaves a Relax switch that was off as it was.
pub proof fn lemma_toggle_bright_twice(state: Backend)
    requires
        state.wf(),
    ensures
        state.apply(SwitchOp::ToggleBright).apply(SwitchOp::ToggleBright).bright_switch
            == state.bright_switch,
        state.relax_switch == 0 ==> state.apply(SwitchOp::ToggleBright).apply(
            SwitchOp::ToggleBright,
        ) == state,
{
}

/// Flipping the Relax switch of a well-formed state twice puts it back, and
/// leaves a Bright switch that was off as it was.
pub proof fn lemma_toggle_relax_twice(state: Backend)
    requires
        state.wf(),
    ensures
        state.apply(SwitchOp::ToggleRelax).apply(SwitchOp::ToggleRelax).relax_switch
            == state.relax_switch,
        state.bright_switch == 0 ==> state.apply(SwitchOp::ToggleRelax).apply(
            SwitchOp::ToggleRelax,
        ) == state,
{
}

impl Default for Backend {
    fn default() -> (backend: Backend)
        ensures
            backend == Backend::initial(),
            backend.wf(),
    {
        Backend {
            light_mode: LightMode::Off,
            water_level: BOOT_WATER_LEVEL,
            bright_switch: 0,
            relax_switch: 0,
        }
    }
}

/// One call owed to the user interface: the values it is to show.
#[derive(Debug, Clone, Copy, PartialEq, Eq, Structural)]
pub struct UiUpdate {
    pub water_level: i32,
    pub bright_state: i32,
    pub relax_state: i32,
}

/// Mathematical model of a [`Store`].
pub struct StoreView {
    /// The backend, once it has been initialized.
    pub backend: Option<Backend>,
    /// Whether the user interface has registered for updates.
    pub ui_registered: bool,
    /// The calls owed to the user interface, oldest first.
    pub ui_updates: Seq<UiUpdate>,
}

impl StoreView {
    /// A store before anything was initialized or registered.
    pub open spec fn empty() -> StoreView {
        StoreView { backend: None, ui_registered: false, ui_updates: Seq::empty() }
    }

    /// The values that an update of the user interface carries now: those of
    /// the backend, or zeros while there is none.
    pub open spec fn snapshot(self) -> UiUpdate {
        match self.backend {
            Some(b) => UiUpdate {
                water_level: b.water_level as i32,
                bright_state: b.bright_switch as i32,
                relax_state: b.relax_switch as i32,
            },
            None => UiUpdate { water_level: 0, bright_state: 0, relax_state: 0 },
        }
    }

    /// The store after one update of the user interface was triggered: a
    /// call is owed only if the interface has registered.
    pub open spec fn triggered(self) -> StoreView {
        if self.ui_registered {
            StoreView { ui_updates: self.ui_updates.push(self.snapshot()), ..self }
        } else {
            self
        }
    }

    /// The store with `change` applied to the backend, if there is one.
    pub open spec fn changed(self, change: spec_fn(Backend) -> Backend) -> StoreView {
        match self.backend {
            Some(b) => StoreView { backend: Some(change(b)), ..self },
            None => self,
        }
    }

    /// A backend, where there is one, is well formed.
    pub open spec fn wf(self) -> bool {
        self.backend matches Some(b) ==> b.wf()
    }
}

/// The one place that holds the backend and what is owed to the user
/// interface. Whoever owns it decides who may reach it.
pub struct Store {
    backend: Option<Backend>,
    ui_registered: bool,
    ui_updates: Vec<UiUpdate>,
}

impl View for Store {
    type V = StoreView;

    closed spec fn view(&self) -> StoreView {
        StoreView {
            backend: self.backend,
            ui_registered: self.ui_registered,
            ui_updates: self.ui_updates@,
        }
    }
}

impl Store {
    /// A store with no backend and no registered interface.
    pub fn new() -> (store: Store)
        ensures
            store@ == StoreView::empty(),
    {
        Store { backend: None, ui_registered: false, ui_updates: Vec::new() }
    }

    /// Notes that the user interface wants to be updated from now on.
    pub fn register_ui_callback(&mut self)
        ensures
            final(self)@ == (StoreView { ui_registered: true, ..old(self)@ }),
    {
        self.ui_registered = true;
    }

    /// Hands over the calls owed to the user interface, oldest first, and
    /// leaves none owed.
    pub fn take_ui_updates(&mut self) -> (updates: Vec<UiUpdate>)
        ensures
            updates@ == old(self)@.ui_updates,
            final(self)@ == (StoreView { ui_updates: Seq::empty(), ..old(self)@ }),
    {
        let mut updates: Vec<UiUpdate> = Vec::new();
        std::mem::swap(&mut self.ui_updates, &mut updates);
        updates
    }

    /// Queues one call to the user interface, if it has registered.
    pub(crate) fn queue_ui_update(&mut self, update: UiUpdate)
        ensures
            final(self)@ == (StoreView {
                ui_updates: if old(self)@.ui_registered {
                    old(self)@.ui_updates.push(update)
                } else {
                    old(self)@.ui_updates
                },
                ..old(self)@
            }),
    {
        if self.ui_registered {
            self.ui_updates.push(update);
        }
    }
}

/// Initializes the backend, or resets it to its start-up state.
pub fn init(store: &mut Store)
    ensures
        final(store)@ == (StoreView { backend: Some(Backend::initial()), ..old(store)@ }),
        final(store)@.wf(),
{
    store.backend = Some(Backend::default());
}

/// Runs `f` on the backend, if there is one, stores the backend that `f`
/// hands back and returns what `f` returns beside it.
pub fn with_backend<R, F: FnOnce(Backend) -> (Backend, R)>(store: &mut Store, f: F) -> (result:
    Option<R>)
    requires
        old(store)@.backend matches Some(b) ==> f.requires((b,)),
    ensures
        final(store)@.ui_registered == old(store)@.ui_registered,
        final(store)@.ui_updates == old(store)@.ui_updates,
        old(store)@.backend is None ==> result is None && final(store)@.backend is None,
        old(store)@.backend matches Some(b) ==> result is Some && final(store)@.backend is Some
            && f.ensures((b,), (final(store)@.backend->0, result->0)),
{
    match store.backend.take() {
        Some(backend) => {
            let (backend, result) = f(backend);
            store.backend = Some(backend);
            Some(result)
        },
        None => None,
    }
}

} // verus!
