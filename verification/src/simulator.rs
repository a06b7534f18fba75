//! The backend as it runs on a desk: the same switches and water level,
//! with a stand-in for the message channel that queues what would be
//! published and makes up the water levels that would arrive.

pub mod ffi;
pub mod lights;
pub mod mock_mqtt;
pub mod water;

use crate::levels::BOOT_WATER_LEVEL;
use vstd::prelude::*;

verus! {

/// Light and water state.
#[derive(Debug, Clone, Copy, PartialEq, Eq, Structural)]
pub struct Backend {
    pub bright_switch: u8,
    pub relax_switch: u8,
    pub water_level: u8,
}

/// The position, 0 or 1, that a requested switch state stands for.
pub open spec fn switch_position(state: u8) -> u8 {
    if state > 0 {
        1u8
    } else {
        0u8
    }
}

/// The other position of a switch.
pub open spec fn flipped(position: u8) -> u8 {
    if position == 0 {
        1u8
    } else {
        0u8
    }
}

impl Backend {
    /// The state after start-up: both switches off, level 50.
    pub open spec fn initial() -> Backend {
        Backend { bright_switch: 0, relax_switch: 0, water_level: BOOT_WATER_LEVEL }
    }

    /// Each switch is 0 or 1, at most one is on, and the level is a
    /// percentage.
    pub open spec fn wf(self) -> bool {
        &&& self.bright_switch <= 1
        &&& self.relax_switch <= 1
        &&& !(self.bright_switch == 1 && self.relax_switch == 1)
        &&& self.water_level <= 100
    }

    /// The state after the Bright switch was put in position `position`:
    /// switching it on switches Relax off.
    pub open spec fn with_bright(self, position: u8) -> Backend {
        Backend {
            bright_switch: position,
            relax_switch: if position == 1 {
                0u8
            } else {
                self.relax_switch
            },
            ..self
        }
    }

    /// The state after the Relax switch was put in position `position`:
    /// switching it on switches Bright off.
    pub open spec fn with_relax(self, position: u8) -> Backend {
        Backend {
            relax_switch: position,
            bright_switch: if position == 1 {
                0u8
            } else {
                self.bright_switch
            },
            ..self
        }
    }

    /// The state after the level was set to `level`, clamped to 100.
    pub open spec fn with_level(self, level: u8) -> Backend {
        Backend {
            water_level: if level > 100 {
                100u8
            } else {
                level
            },
            ..self
        }
    }
}

/// One operation on the switches.
pub enum SwitchOp {
    SetBright(u8),
    SetRelax(u8),
    ToggleBright,
    ToggleRelax,
}

impl Backend {
    /// The state after one operation on the switches.
    pub open spec fn apply(self, op: SwitchOp) -> Backend {
        match op {
            SwitchOp::SetBright(state) => self.with_bright(switch_position(state)),
            SwitchOp::SetRelax(state) => self.with_relax(switch_position(state)),
            SwitchOp::ToggleBright => self.with_bright(flipped(self.bright_switch)),
            SwitchOp::ToggleRelax => self.with_relax(flipped(self.relax_switch)),
        }
    }

    /// The state after a sequence of operations, first to last.
    pub open spec fn apply_all(self, ops: Seq<SwitchOp>) -> Backend
        decreases ops.len(),
    {
        if ops.len() == 0 {
            self
        } else {
            self.apply_all(ops.drop_last()).apply(ops.last())
        }
    }
}

/// Whatever sequence of switch operations is applied to a well-formed
/// state, the two switches are never both on afterwards.
pub proof fn lemma_switches_stay_exclusive(start: Backend, ops: Seq<SwitchOp>)
    requires
        start.wf(),
    ensures
        start.apply_all(ops).wf(),
        !(start.apply_all(ops).bright_switch == 1 && start.apply_all(ops).relax_switch == 1),
        start.apply_all(ops).water_level == start.water_level,
    decreases ops.len(),
{
    if ops.len() > 0 {
        lemma_switches_stay_exclusive(start, ops.drop_last());
    }
}

/// The level that is stored is the requested one, or 100 if that is more.
pub proof fn lemma_level_clamped(state: Backend, level: u8)
    ensures
        state.with_level(level).water_level == vstd::math::min(level as int, 100),
        state.with_level(level).water_level <= 100,
{
}

/// Flipping the Bright switch of a well-formed state twice puts it back,
/// and leaves a Relax switch that was off as it was.
pub proof fn lemma_toggle_bright_twice(state: Backend)
    requires
        state.wf(),
    ensures
        state.apply(SwitchOp::ToggleBright).apply(SwitchOp::ToggleBright).bright_switch
            == state.bright_switch,
        state.relax_switch == 0 ==> state.apply(SwitchOp::ToggleBright).apply(
            SwitchOp::ToggleBright,
        ) == state,
{
}

impl Default for Backend {
    fn default() -> (backend: Backend)
        ensures
            backend == Backend::initial(),
            backend.wf(),
    {
        Backend { bright_switch: 0, relax_switch: 0, water_level: BOOT_WATER_LEVEL }
    }
}

/// One message that the stand-in channel would publish.
#[derive(Debug, Clone, Copy, PartialEq, Eq, Structural)]
pub enum Publication {
    /// The positions of both switches.
    Lights { bright: u8, relax: u8 },
    /// The water level.
    Water { level: u8 },
}

/// Mathematical model of a [`Store`].
pub struct StoreView {
    /// The backend, once it has been initialized.
    pub backend: Option<Backend>,
    /// What was published and not taken yet, oldest first.
    pub published: Seq<Publication>,
}

impl StoreView {
    /// A store before anything was initialized.
    pub open spec fn empty() -> StoreView {
        StoreView { backend: None, published: Seq::empty() }
    }

    /// A backend, where there is one, is well formed.
    pub open spec fn wf(self) -> bool {
        self.backend matches Some(b) ==> b.wf()
    }

    /// The store after the backend, if there is one, was changed by
    /// `change` and its switch positions were published.
    pub open spec fn switched(self, change: spec_fn(Backend) -> Backend) -> StoreView {
        match self.backend {
            Some(b) => StoreView {
                backend: Some(change(b)),
                published: self.published.push(
                    Publication::Lights {
                        bright: change(b).bright_switch,
                        relax: change(b).relax_switch,
                    },
                ),
            },
            None => self,
        }
    }

    /// The store with `change` applied to the backend, if there is one.
    pub open spec fn changed(self, change: spec_fn(Backend) -> Backend) -> StoreView {
        match self.backend {
            Some(b) => StoreView { backend: Some(change(b)), ..self },
            None => self,
        }
    }
}

/// The one place that holds the backend and what the stand-in channel was
/// given to publish.
pub struct Store {
    backend: Option<Backend>,
    published: Vec<Publication>,
}

impl View for Store {
    type V = StoreView;

    closed spec fn view(&self) -> StoreView {
        StoreView { backend: self.backend, published: self.published@ }
    }
}

impl Store {
    /// A store with no backend and nothing published.
    pub fn new() -> (store: Store)
        ensures
            store@ == StoreView::empty(),
    {
        Store { backend: None, published: Vec::new() }
    }

    /// Hands over what was published, oldest first, and leaves the queue
    /// empty.
    pub fn take_published(&mut self) -> (published: Vec<Publication>)
        ensures
            published@ == old(self)@.published,
            final(self)@ == (StoreView { published: Seq::empty(), ..old(self)@ }),
    {
        let mut published: Vec<Publication> = Vec::new();
        std::mem::swap(&mut self.published, &mut published);
        published
    }

    /// Queues one publication.
    pub(crate) fn publish(&mut self, publication: Publication)
        ensures
            final(self)@ == (StoreView {
                published: old(self)@.published.push(publication),
                ..old(self)@
            }),
    {
        self.published.push(publication);
    }

    /// The backend, if there is one.
    pub(crate) fn peek(&self) -> (backend: Option<Backend>)
        ensures
            backend == self@.backend,
    {
        self.backend
    }
}

/// Initializes the backend, or resets it to its start-up state.
pub fn init(store: &mut Store)
    ensures
        final(store)@ == (StoreView { backend: Some(Backend::initial()), ..old(store)@ }),
        final(store)@.wf(),
{
    store.backend = Some(Backend::default());
}

/// Runs `f` on the backend, if there is one, stores the backend that `f`
/// hands back and returns what `f` returns beside it.
pub fn with_backend<R, F: FnOnce(Backend) -> (Backend, R)>(store: &mut Store, f: F) -> (result:
    Option<R>)
    requires
        old(store)@.backend matches Some(b) ==> f.requires((b,)),
    ensures
        final(store)@.published == old(store)@.published,
        old(store)@.backend is None ==> result is None && final(store)@.backend is None,
        old(store)@.backend matches Some(b) ==> result is Some && final(store)@.backend is Some
            && f.ensures((b,), (final(store)@.backend->0, result->0)),
{
    match store.backend.take() {
        Some(backend) => {
            let (backend, result) = f(backend);
            store.backend = Some(backend);
            Some(result)
        },
        None => None,
    }
}

} // verus!
