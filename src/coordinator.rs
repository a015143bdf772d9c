//! The decisions of the execution coordinator.
//!
//! At most one invocation is tracked at a time, in a single slot. Each
//! invocation is started against one generation of the module; a reload makes
//! the next generation current. A reload is only ever asked for once the slot
//! is empty: a running invocation is first sent a cancellation request and then
//! joined. The host performs each action and hands the outcome back as an event.
use vstd::prelude::*;
use crate::loader::ModuleRecord;

verus! {

/// The slot that holds the invocation in flight, with the module generation
/// it was started against.
#[derive(Clone, Copy, Debug, PartialEq, Eq, Structural)]
pub enum Slot {
    Idle,
    Running { generation: u64 },
    CancelRequested { generation: u64 },
    Joining { generation: u64 },
}

/// What the host reports to the coordinator.
#[derive(Clone, Copy, Debug, PartialEq, Eq, Structural)]
pub enum Event {
    /// The user asked to run the cell at this position.
    RunRequested { cell: usize },
    /// A rebuild finished, or the user asked for a reload.
    ReloadRequested,
    /// The cancellation request reached the invocation.
    CancelDelivered,
    /// The cancelled invocation has finished, cleanup included.
    Joined,
    /// The invocation started against `generation` finished by itself.
    Completed { generation: u64 },
    /// The reload finished; `ok` is false where the module could not be loaded
    /// and the previous one stays current.
    ReloadFinished { ok: bool },
}

/// What the host is to do next.
#[derive(Clone, Copy, Debug, PartialEq, Eq, Structural)]
pub enum Action {
    Nothing,
    /// Start the cell at this position against the current module.
    Start { cell: usize, generation: u64 },
    /// Ask the invocation in flight to stop.
    Cancel,
    /// Wait for the cancelled invocation to finish.
    Join,
    /// Replace the module by a fresh mapping of its source.
    Reload,
    /// Show the outcome of the finished invocation.
    Report,
    /// Drop the outcome: it belongs to an invocation that was cancelled.
    Discard,
}

/// The coordinator's whole state.
#[derive(Clone, Copy, Debug, PartialEq, Eq, Structural)]
pub struct Coordinator {
    pub slot: Slot,
    /// The generation of the current module.
    pub generation: u64,
    /// A reload was asked for while an invocation was being stopped.
    pub reload_pending: bool,
    /// A reload is under way.
    pub reloading: bool,
}

/// The position of the init entry among the cells the host shows.
pub const INIT_CELL: usize = 0;

pub open spec fn slot_generation(s: Slot) -> Option<u64> {
    match s {
        Slot::Idle => None,
        Slot::Running { generation } => Some(generation),
        Slot::CancelRequested { generation } => Some(generation),
        Slot::Joining { generation } => Some(generation),
    }
}

/// The next state and the action for event `e` in state `s`.
pub open spec fn next(s: Coordinator, e: Event) -> (Coordinator, Action) {
    match e {
        Event::RunRequested { cell } => if s.slot == Slot::Idle && !s.reloading {
            (Coordinator { slot: Slot::Running { generation: s.generation }, ..s }, Action::Start { cell, generation: s.generation })
        } else {
            (s, Action::Nothing)
        },
        Event::ReloadRequested => if s.reloading {
            (s, Action::Nothing)
        } else {
            match s.slot {
                Slot::Idle => (Coordinator { reloading: true, reload_pending: false, ..s }, Action::Reload),
                Slot::Running { generation } => (
                    Coordinator { slot: Slot::CancelRequested { generation }, reload_pending: true, ..s },
                    Action::Cancel,
                ),
                _ => (Coordinator { reload_pending: true, ..s }, Action::Nothing),
            }
        },
        Event::CancelDelivered => match s.slot {
            Slot::CancelRequested { generation } => (Coordinator { slot: Slot::Joining { generation }, ..s }, Action::Join),
            _ => (s, Action::Nothing),
        },
        Event::Joined => match s.slot {
            Slot::Joining { .. } => if s.reload_pending {
                (Coordinator { slot: Slot::Idle, reload_pending: false, reloading: true, ..s }, Action::Reload)
            } else {
                (Coordinator { slot: Slot::Idle, ..s }, Action::Nothing)
            },
            _ => (s, Action::Nothing),
        },
        Event::Completed { generation } => match s.slot {
            Slot::Running { generation: g } => if g == generation && g == s.generation {
                (Coordinator { slot: Slot::Idle, ..s }, Action::Report)
            } else {
                (s, Action::Discard)
            },
            _ => (s, Action::Discard),
        },
        Event::ReloadFinished { ok } => if !s.reloading {
            (s, Action::Nothing)
        } else if ok {
            let g = (s.generation + 1) as u64;
            (
                Coordinator { slot: Slot::Running { generation: g }, generation: g, reloading: false, ..s },
                Action::Start { cell: INIT_CELL, generation: g },
            )
        } else {
            (Coordinator { reloading: false, ..s }, Action::Nothing)
        },
    }
}

impl Coordinator {
    /// An invocation in flight was started against the current module, and
    /// none is in flight while a reload is under way.
    pub open spec fn wf(&self) -> bool {
        &&& (slot_generation(self.slot) matches Some(g) ==> g == self.generation)
        &&& (self.reloading ==> self.slot == Slot::Idle)
    }

    /// A coordinator with an empty slot, before the first module's init runs.
    pub fn new() -> (r: Coordinator)
        ensures
            r.wf(),
            r.slot == Slot::Idle,
            r.generation == 0,
            !r.reload_pending,
            !r.reloading,
    {
        Coordinator { slot: Slot::Idle, generation: 0, reload_pending: false, reloading: false }
    }

    /// Takes event `e` and says what to do next.
    pub fn step(&mut self, e: Event) -> (r: Action)
        requires
            old(self).wf(),
            old(self).generation < u64::MAX,
        ensures
            final(self).wf(),
            (*final(self), r) == next(*old(self), e),
    {
        match e {
            Event::RunRequested { cell } => {
                if self.slot == Slot::Idle && !self.reloading {
                    self.slot = Slot::Running { generation: self.generation };
                    Action::Start { cell, generation: self.generation }
                } else {
                    Action::Nothing
                }
            },
            Event::ReloadRequested => {
                if self.reloading {
                    return Action::Nothing;
                }
                match self.slot {
                    Slot::Idle => {
                        self.reloading = true;
                        self.reload_pending = false;
                        Action::Reload
                    },
                    Slot::Running { generation } => {
                        self.slot = Slot::CancelRequested { generation };
                        self.reload_pending = true;
                        Action::Cancel
                    },
                    _ => {
                        self.reload_pending = true;
                        Action::Nothing
                    },
                }
            },
            Event::CancelDelivered => match self.slot {
                Slot::CancelRequested { generation } => {
                    self.slot = Slot::Joining { generation };
                    Action::Join
                },
                _ => Action::Nothing,
            },
            Event::Joined => match self.slot {
                Slot::Joining { .. } => {
                    self.slot = Slot::Idle;
                    if self.reload_pending {
                        self.reload_pending = false;
                        self.reloading = true;
                        Action::Reload
                    } else {
                        Action::Nothing
                    }
                },
                _ => Action::Nothing,
            },
            Event::Completed { generation } => match self.slot {
                Slot::Running { generation: g } => {
                    if g == generation && g == self.generation {
                        self.slot = Slot::Idle;
                        Action::Report
                    } else {
                        Action::Discard
                    }
                },
                _ => Action::Discard,
            },
            Event::ReloadFinished { ok } => {
                if !self.reloading {
                    Action::Nothing
                } else if ok {
                    let g = self.generation + 1;
                    self.slot = Slot::Running { generation: g };
                    self.generation = g;
                    self.reloading = false;
                    Action::Start { cell: INIT_CELL, generation: g }
                } else {
                    self.reloading = false;
                    Action::Nothing
                }
            },
        }
    }
}

/// A reload is only asked for when no invocation is in flight, and the module
/// generation does not change until the reload has finished.
pub proof fn lemma_reload_only_when_idle(s: Coordinator, e: Event)
    requires
        s.wf(),
        s.generation < u64::MAX,
    ensures
        next(s, e).1 == Action::Reload ==> next(s, e).0.slot == Slot::Idle && next(s, e).0.generation
            == s.generation,
        next(s, e).0.wf(),
{
}

/// A reload asked for while a cell runs goes strictly through cancel, then
/// join, then reload; only then is the next generation current.
pub proof fn lemma_cancel_join_reload(s: Coordinator)
    requires
        s.wf(),
        s.generation < u64::MAX,
        (s.slot matches Slot::Running { .. }),
    ensures
        ({
            let (s1, a1) = next(s, Event::ReloadRequested);
            let (s2, a2) = next(s1, Event::CancelDelivered);
            let (s3, a3) = next(s2, Event::Joined);
            let (s4, a4) = next(s3, Event::ReloadFinished { ok: true });
            &&& a1 == Action::Cancel
            &&& a2 == Action::Join
            &&& a3 == Action::Reload
            &&& s1.generation == s.generation && s2.generation == s.generation && s3.generation == s.generation
            &&& s4.generation == s.generation + 1
            &&& a4 == Action::Start { cell: INIT_CELL, generation: s4.generation }
        }),
{
}

/// An outcome is only shown for an invocation started against the module that
/// is current: one begun before a reload is never reported afterwards.
pub proof fn lemma_report_only_current(s: Coordinator, e: Event)
    requires
        s.wf(),
        s.generation < u64::MAX,
    ensures
        next(s, e).1 == Action::Report ==> (e matches Event::Completed { generation } && generation
            == s.generation && generation == next(s, e).0.generation),
{
}

/// Why a cell could not be started.
#[derive(Debug, Clone)]
pub enum ExecError {
    /// No cell of that name in the current module.
    NotFound(String),
    /// The cell ran and reported a failure.
    Failed(String),
}

/// The position of the cell `name` in `module`, or `NotFound`. Nothing else is
/// read or changed.
pub fn run_cell(module: &ModuleRecord, name: &str) -> (r: Result<usize, ExecError>)
    ensures
        match r {
            Ok(i) => i < module.cells@.len() && module.cells@[i as int].name@ == name@,
            Err(ExecError::NotFound(n)) => n@ == name@ && forall|i: int|
                0 <= i < module.cells@.len() ==> #[trigger] module.cells@[i].name@ != name@,
            Err(_) => false,
        },
{
    match module.find_cell(name) {
        Some(i) => Ok(i),
        None => Err(ExecError::NotFound(String::from_str(name))),
    }
}

} // verus!
