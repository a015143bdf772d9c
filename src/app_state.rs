//! What the host's interface keeps between events: the cells shown, their
//! status and output, the selection, and which command a key asks for.
use vstd::prelude::*;
use crate::settings::{AppConfig, KeyCode, KeyModifiers, Keybindings};

verus! {

/// How the last run of a cell went.
#[derive(Clone, Debug)]
pub enum CellStatus {
    Pending,
    Running,
    Success,
    Error(String),
}

/// Where the build and reload stand.
#[derive(Clone, Debug)]
pub enum BuildStatus {
    Idle,
    Building,
    Reloading,
    BuildError(String),
}

/// What a run printed, and how long it took.
#[derive(Clone, Debug)]
pub struct CellOutput {
    pub stdout: String,
    pub duration_ms: u64,
}

/// What the watcher and the running cells report to the interface.
#[derive(Debug)]
pub enum TuiEvent {
    Reloaded,
    BuildStarted,
    BuildCompleted(Option<String>),
    CellCompleted { idx: usize, name: String, stdout: String, duration_ms: u64, result: Result<(), String> },
}

/// The state of the interface.
#[derive(Debug)]
pub struct App {
    /// Names of the cells shown, the init entry first.
    pub cells: Vec<String>,
    /// Status of each cell, by position.
    pub cell_statuses: Vec<CellStatus>,
    /// How often each cell ran since the last reload, by position.
    pub cell_counts: Vec<u32>,
    /// What each cell printed on its last run, where it printed anything.
    pub cell_outputs: Vec<Option<CellOutput>>,
    /// The selected position.
    pub selected: Option<usize>,
    pub build_status: BuildStatus,
    /// The keys of the data store with their tags.
    pub context_items: Vec<(String, String)>,
    /// A cell is running.
    pub executing: bool,
    pub show_timings: bool,
}

/// `i` is the first position of `name` among `cells`.
pub open spec fn first_position(cells: Seq<String>, name: Seq<char>, i: int) -> bool {
    &&& 0 <= i < cells.len()
    &&& cells[i]@ == name
    &&& forall|j: int| 0 <= j < i ==> cells[j]@ != name
}

pub open spec fn absent(cells: Seq<String>, name: Seq<char>) -> bool {
    forall|j: int| 0 <= j < cells.len() ==> cells[j]@ != name
}

/// The selection after moving down among `n` cells, wrapping to the first.
pub open spec fn selected_after_next(n: nat, sel: Option<usize>) -> Option<usize> {
    if n == 0 {
        sel
    } else {
        Some(
            match sel {
                Some(i) => ((i + 1) % n as int) as usize,
                None => 0usize,
            },
        )
    }
}

/// The selection after moving up among `n` cells, wrapping to the last.
pub open spec fn selected_after_previous(n: nat, sel: Option<usize>) -> Option<usize> {
    if n == 0 {
        sel
    } else {
        Some(
            match sel {
                Some(i) => if i == 0 {
                    (n - 1) as usize
                } else {
                    (i - 1) as usize
                },
                None => 0usize,
            },
        )
    }
}

fn position_of(cells: &Vec<String>, name: &str) -> (r: Option<usize>)
    ensures
        match r {
            Some(i) => first_position(cells@, name@, i as int),
            None => absent(cells@, name@),
        },
{
    let target = String::from_str(name);
    let mut i: usize = 0;
    while i < cells.len()
        invariant
            i <= cells@.len(),
            target@ == name@,
            forall|j: int| 0 <= j < i ==> cells@[j]@ != name@,
        decreases cells@.len() - i,
    {
        if cells[i] == target {
            return Some(i);
        }
        i = i + 1;
    }
    None
}

fn pending_statuses(n: usize) -> (r: Vec<CellStatus>)
    ensures
        r@.len() == n,
        forall|i: int| 0 <= i < n ==> r@[i] is Pending,
{
    let mut v: Vec<CellStatus> = Vec::new();
    let mut i: usize = 0;
    while i < n
        invariant
            i <= n,
            v@.len() == i,
            forall|j: int| 0 <= j < i ==> v@[j] is Pending,
        decreases n - i,
    {
        v.push(CellStatus::Pending);
        i = i + 1;
    }
    v
}

fn zero_counts(n: usize) -> (r: Vec<u32>)
    ensures
        r@.len() == n,
        forall|i: int| 0 <= i < n ==> r@[i] == 0,
{
    let mut v: Vec<u32> = Vec::new();
    let mut i: usize = 0;
    while i < n
        invariant
            i <= n,
            v@.len() == i,
            forall|j: int| 0 <= j < i ==> v@[j] == 0,
        decreases n - i,
    {
        v.push(0);
        i = i + 1;
    }
    v
}

fn no_outputs(n: usize) -> (r: Vec<Option<CellOutput>>)
    ensures
        r@.len() == n,
        forall|i: int| 0 <= i < n ==> r@[i] is None,
{
    let mut v: Vec<Option<CellOutput>> = Vec::new();
    let mut i: usize = 0;
    while i < n
        invariant
            i <= n,
            v@.len() == i,
            forall|j: int| 0 <= j < i ==> v@[j] is None,
        decreases n - i,
    {
        v.push(None);
        i = i + 1;
    }
    v
}

impl App {
    /// The per-cell vectors follow the cells, and a selection points at one.
    pub open spec fn wf(&self) -> bool {
        &&& self.cell_statuses@.len() == self.cells@.len()
        &&& self.cell_counts@.len() == self.cells@.len()
        &&& self.cell_outputs@.len() == self.cells@.len()
        &&& (self.selected matches Some(i) ==> i < self.cells@.len())
    }

    /// The interface for `cells`, all pending, the first selected if any.
    pub fn new(cells: Vec<String>, show_timings: bool) -> (r: App)
        ensures
            r.wf(),
            r.cells@ == cells@,
            r.selected == (if cells@.len() > 0 { Some(0usize) } else { None }),
            forall|i: int| 0 <= i < cells@.len() ==> r.cell_statuses@[i] is Pending && r.cell_counts@[i] == 0
                && r.cell_outputs@[i] is None,
            !r.executing,
            r.show_timings == show_timings,
    {
        let n = cells.len();
        App {
            cells,
            cell_statuses: pending_statuses(n),
            cell_counts: zero_counts(n),
            cell_outputs: no_outputs(n),
            selected: if n > 0 { Some(0) } else { None },
            build_status: BuildStatus::Idle,
            context_items: Vec::new(),
            executing: false,
            show_timings,
        }
    }

    /// How often the cell `name` ran; 0 for a name that is not shown.
    pub fn get_count(&self, name: &str) -> (r: u32)
        requires
            self.wf(),
        ensures
            forall|i: int| first_position(self.cells@, name@, i) ==> r == self.cell_counts@[i],
            absent(self.cells@, name@) ==> r == 0,
    {
        match position_of(&self.cells, name) {
            Some(i) => self.cell_counts[i],
            None => 0,
        }
    }

    /// Counts one more run of the cell `name`.
    pub fn increment_count(&mut self, name: &str)
        requires
            old(self).wf(),
        ensures
            final(self).wf(),
            forall|i: int| first_position(old(self).cells@, name@, i) ==> final(self).cell_counts@ == old(
                self,
            ).cell_counts@.update(i, if old(self).cell_counts@[i] < u32::MAX {
                (old(self).cell_counts@[i] + 1) as u32
            } else {
                u32::MAX
            }),
            absent(old(self).cells@, name@) ==> final(self).cell_counts@ == old(self).cell_counts@,
            final(self).cells@ == old(self).cells@,
            final(self).selected == old(self).selected,
            final(self).cell_statuses@ == old(self).cell_statuses@,
            final(self).cell_outputs@ == old(self).cell_outputs@,
    {
        match position_of(&self.cells, name) {
            Some(i) => {
                let c = self.cell_counts[i];
                self.cell_counts.set(i, c.saturating_add(1));
            },
            None => {},
        }
    }

    /// The selected position.
    pub fn selected_cell_index(&self) -> (r: Option<usize>)
        ensures
            r == self.selected,
    {
        self.selected
    }

    /// The name of the selected cell.
    pub fn selected_cell_name(&self) -> (r: Option<&String>)
        requires
            self.wf(),
        ensures
            match self.selected {
                Some(i) => (r matches Some(s) && *s == self.cells@[i as int]),
                None => r is None,
            },
    {
        match self.selected {
            Some(i) => Some(&self.cells[i]),
            None => None,
        }
    }

    /// Moves the selection one down, from the last back to the first.
    pub fn select_next(&mut self)
        requires
            old(self).wf(),
        ensures
            final(self).wf(),
            final(self).cells@ == old(self).cells@,
            final(self).selected == selected_after_next(old(self).cells@.len(), old(self).selected),
    {
        let n = self.cells.len();
        if n == 0 {
            return;
        }
        let i = match self.selected {
            Some(i) => (i + 1) % n,
            None => 0,
        };
        self.selected = Some(i);
    }

    /// Moves the selection one up, from the first back to the last.
    pub fn select_previous(&mut self)
        requires
            old(self).wf(),
        ensures
            final(self).wf(),
            final(self).cells@ == old(self).cells@,
            final(self).selected == selected_after_previous(old(self).cells@.len(), old(self).selected),
    {
        let n = self.cells.len();
        if n == 0 {
            return;
        }
        let i = match self.selected {
            Some(i) => if i == 0 {
                n - 1
            } else {
                i - 1
            },
            None => 0,
        };
        self.selected = Some(i);
    }

    /// Keeps what the cell `name` printed; an empty print clears what was kept.
    pub fn store_output(&mut self, name: &str, output: CellOutput)
        requires
            old(self).wf(),
        ensures
            final(self).wf(),
            final(self).cells@ == old(self).cells@,
            forall|i: int| first_position(old(self).cells@, name@, i) ==> final(self).cell_outputs@ == old(
                self,
            ).cell_outputs@.update(i, if output.stdout@.len() == 0 {
                None
            } else {
                Some(output)
            }),
            absent(old(self).cells@, name@) ==> final(self).cell_outputs@ == old(self).cell_outputs@,
            final(self).selected == old(self).selected,
            final(self).cell_statuses@ == old(self).cell_statuses@,
            final(self).cell_counts@ == old(self).cell_counts@,
    {
        match position_of(&self.cells, name) {
            Some(i) => {
                if output.stdout.as_str().unicode_len() == 0 {
                    self.cell_outputs.set(i, None);
                } else {
                    self.cell_outputs.set(i, Some(output));
                }
            },
            None => {},
        }
    }

    /// What the cell `name` printed on its last run, if anything.
    pub fn get_output(&self, name: &str) -> (r: Option<&CellOutput>)
        requires
            self.wf(),
        ensures
            forall|i: int| first_position(self.cells@, name@, i) ==> match self.cell_outputs@[i] {
                Some(o) => (r matches Some(x) && *x == o),
                None => r is None,
            },
            absent(self.cells@, name@) ==> r is None,
    {
        match position_of(&self.cells, name) {
            Some(i) => match &self.cell_outputs[i] {
                Some(o) => Some(o),
                None => None,
            },
            None => None,
        }
    }

    /// Whether the cell `name` printed anything on its last run.
    pub fn has_output(&self, name: &str) -> (r: bool)
        requires
            self.wf(),
        ensures
            forall|i: int| first_position(self.cells@, name@, i) ==> r == self.cell_outputs@[i] is Some,
            absent(self.cells@, name@) ==> !r,
    {
        self.get_output(name).is_some()
    }

    /// The message of the cell at `idx`, where its last run failed.
    pub fn get_error(&self, idx: usize) -> (r: Option<&String>)
        requires
            self.wf(),
        ensures
            idx < self.cells@.len() && self.cell_statuses@[idx as int] is Error ==> (r matches Some(m) && self.cell_statuses@[idx as int] == CellStatus::Error(*m)),
            !(idx < self.cells@.len() && self.cell_statuses@[idx as int] is Error) ==> r is None,
    {
        if idx < self.cell_statuses.len() {
            match &self.cell_statuses[idx] {
                CellStatus::Error(m) => Some(m),
                _ => None,
            }
        } else {
            None
        }
    }

    /// Shows `cells` after a reload: all pending, counts and outputs cleared,
    /// the selection kept where it still points at a cell.
    pub fn refresh_cells(&mut self, cells: Vec<String>)
        requires
            old(self).wf(),
        ensures
            final(self).wf(),
            final(self).cells@ == cells@,
            forall|i: int| 0 <= i < cells@.len() ==> final(self).cell_statuses@[i] is Pending && final(self).cell_counts@[i]
                == 0,
            final(self).selected == match old(self).selected {
                Some(i) => if cells@.len() == 0 {
                    None
                } else if i >= cells@.len() {
                    Some((cells@.len() - 1) as usize)
                } else {
                    Some(i)
                },
                None => if cells@.len() > 0 {
                    Some(0usize)
                } else {
                    None
                },
            },
    {
        let n = cells.len();
        self.cells = cells;
        self.cell_statuses = pending_statuses(n);
        self.cell_counts = zero_counts(n);
        self.cell_outputs = no_outputs(n);
        match self.selected {
            Some(i) => {
                if n == 0 {
                    self.selected = None;
                } else if i >= n {
                    self.selected = Some(n - 1);
                }
            },
            None => {
                if n > 0 {
                    self.selected = Some(0);
                }
            },
        }
    }

    /// Marks the cell at `idx` as running; false, with nothing changed, where
    /// there is no such cell.
    pub fn mark_running(&mut self, idx: usize) -> (r: bool)
        requires
            old(self).wf(),
        ensures
            final(self).wf(),
            r == (idx < old(self).cells@.len()),
            final(self).cells@ == old(self).cells@,
            final(self).cell_counts@ == old(self).cell_counts@,
            final(self).cell_outputs@ == old(self).cell_outputs@,
            final(self).selected == old(self).selected,
            r ==> final(self).executing && final(self).cell_statuses@ == old(self).cell_statuses@.update(
                idx as int,
                CellStatus::Running,
            ),
            !r ==> final(self).executing == old(self).executing && final(self).cell_statuses@ == old(
                self,
            ).cell_statuses@,
    {
        if idx >= self.cells.len() {
            return false;
        }
        self.executing = true;
        self.cell_statuses.set(idx, CellStatus::Running);
        true
    }

    /// Takes in the outcome of the run of the cell `name` at `idx`: one more
    /// run counted, its status set from `result`, its output kept, and no
    /// cell running any more.
    pub fn record_completion(&mut self, idx: usize, name: &str, result: Result<(), String>, output: CellOutput)
        requires
            old(self).wf(),
        ensures
            final(self).wf(),
            final(self).cells@ == old(self).cells@,
            !final(self).executing,
            final(self).selected == old(self).selected,
            final(self).cell_statuses@ == if idx < old(self).cells@.len() {
                old(self).cell_statuses@.update(
                    idx as int,
                    match result {
                        Ok(()) => CellStatus::Success,
                        Err(e) => CellStatus::Error(e),
                    },
                )
            } else {
                old(self).cell_statuses@
            },
            forall|i: int| first_position(old(self).cells@, name@, i) ==> final(self).cell_counts@ == old(
                self,
            ).cell_counts@.update(i, if old(self).cell_counts@[i] < u32::MAX {
                (old(self).cell_counts@[i] + 1) as u32
            } else {
                u32::MAX
            }) && final(self).cell_outputs@ == old(self).cell_outputs@.update(i, if output.stdout@.len() == 0 {
                None
            } else {
                Some(output)
            }),
            absent(old(self).cells@, name@) ==> final(self).cell_counts@ == old(self).cell_counts@
                && final(self).cell_outputs@ == old(self).cell_outputs@,
    {
        self.increment_count(name);
        if idx < self.cell_statuses.len() {
            let status = match result {
                Ok(()) => CellStatus::Success,
                Err(e) => CellStatus::Error(e),
            };
            self.cell_statuses.set(idx, status);
        }
        self.store_output(name, output);
        self.executing = false;
    }

    /// Shows `items` as the content of the data store.
    pub fn refresh_context(&mut self, items: Vec<(String, String)>)
        ensures
            final(self).context_items@ == items@,
            final(self).cells@ == old(self).cells@,
            final(self).cell_statuses@ == old(self).cell_statuses@,
            final(self).cell_counts@ == old(self).cell_counts@,
            final(self).cell_outputs@ == old(self).cell_outputs@,
            final(self).selected == old(self).selected,
    {
        self.context_items = items;
    }
}

/// Whether a key went down, repeated or came up.
#[derive(Clone, Copy, Debug, PartialEq, Eq, Structural)]
pub enum KeyEventKind {
    Press,
    Repeat,
    Release,
}

/// A key event of the terminal.
#[derive(Clone, Copy, Debug, PartialEq, Eq, Structural)]
pub struct KeyEvent {
    pub code: KeyCode,
    pub modifiers: KeyModifiers,
    pub kind: KeyEventKind,
}

/// What the user asked for.
#[derive(Clone, Copy, Debug, PartialEq, Eq, Structural)]
pub enum Action {
    Nothing,
    Quit,
    RunCell(usize),
    ViewOutput,
    ViewError,
    ViewBuildError,
    ClearContext,
    Reload,
    Edit,
}

/// The command that a press of `code` with `m` asks for, given the selection
/// `sel`: the bindings are tried in a fixed order, and running needs a cell
/// other than the init entry selected.
pub open spec fn key_action(code: KeyCode, m: KeyModifiers, sel: Option<usize>, kb: Keybindings) -> Action {
    if kb.quit.binds(code, m) {
        Action::Quit
    } else if kb.clear_context.binds(code, m) {
        Action::ClearContext
    } else if kb.view_output.binds(code, m) {
        Action::ViewOutput
    } else if kb.view_error.binds(code, m) {
        Action::ViewError
    } else if kb.view_build_error.binds(code, m) {
        Action::ViewBuildError
    } else if kb.reload.binds(code, m) {
        Action::Reload
    } else if kb.edit.binds(code, m) {
        Action::Edit
    } else if kb.navigate_down.binds(code, m) || kb.navigate_up.binds(code, m) {
        Action::Nothing
    } else if kb.run_cell.binds(code, m) && sel is Some && sel.unwrap() > 0 {
        Action::RunCell(sel.unwrap())
    } else {
        Action::Nothing
    }
}

/// Whether a press of `code` with `m` reaches the binding for moving down.
pub open spec fn reaches_down(code: KeyCode, m: KeyModifiers, kb: Keybindings) -> bool {
    !kb.quit.binds(code, m) && !kb.clear_context.binds(code, m) && !kb.view_output.binds(code, m)
        && !kb.view_error.binds(code, m) && !kb.view_build_error.binds(code, m) && !kb.reload.binds(code, m)
        && !kb.edit.binds(code, m) && kb.navigate_down.binds(code, m)
}

/// Whether a press of `code` with `m` reaches the binding for moving up.
pub open spec fn reaches_up(code: KeyCode, m: KeyModifiers, kb: Keybindings) -> bool {
    !kb.quit.binds(code, m) && !kb.clear_context.binds(code, m) && !kb.view_output.binds(code, m)
        && !kb.view_error.binds(code, m) && !kb.view_build_error.binds(code, m) && !kb.reload.binds(code, m)
        && !kb.edit.binds(code, m) && !kb.navigate_down.binds(code, m) && kb.navigate_up.binds(code, m)
}

/// The command that `key` asks for, the bindings tried in a fixed order; the
/// navigation keys move the selection and ask for nothing else. Running is
/// asked for only with a cell other than the init entry selected.
pub fn handle_key(key: KeyEvent, app: &mut App, config: &AppConfig) -> (r: Action)
    requires
        old(app).wf(),
    ensures
        final(app).wf(),
        final(app).cells@ == old(app).cells@,
        r == if key.kind == KeyEventKind::Press {
            key_action(key.code, key.modifiers, old(app).selected, config.keybindings)
        } else {
            Action::Nothing
        },
        final(app).selected == if key.kind == KeyEventKind::Press && reaches_down(key.code, key.modifiers, config.keybindings) {
            selected_after_next(old(app).cells@.len(), old(app).selected)
        } else if key.kind == KeyEventKind::Press && reaches_up(key.code, key.modifiers, config.keybindings) {
            selected_after_previous(old(app).cells@.len(), old(app).selected)
        } else {
            old(app).selected
        },
{
    if key.kind != KeyEventKind::Press {
        return Action::Nothing;
    }
    let kb = &config.keybindings;
    if kb.quit.matches(key.code, key.modifiers) {
        return Action::Quit;
    }
    if kb.clear_context.matches(key.code, key.modifiers) {
        return Action::ClearContext;
    }
    if kb.view_output.matches(key.code, key.modifiers) {
        return Action::ViewOutput;
    }
    if kb.view_error.matches(key.code, key.modifiers) {
        return Action::ViewError;
    }
    if kb.view_build_error.matches(key.code, key.modifiers) {
        return Action::ViewBuildError;
    }
    if kb.reload.matches(key.code, key.modifiers) {
        return Action::Reload;
    }
    if kb.edit.matches(key.code, key.modifiers) {
        return Action::Edit;
    }
    if kb.navigate_down.matches(key.code, key.modifiers) {
        app.select_next();
        return Action::Nothing;
    }
    if kb.navigate_up.matches(key.code, key.modifiers) {
        app.select_previous();
        return Action::Nothing;
    }
    if kb.run_cell.matches(key.code, key.modifiers) {
        match app.selected_cell_index() {
            Some(idx) => {
                if idx > 0 {
                    return Action::RunCell(idx);
                }
            },
            None => {},
        }
    }
    Action::Nothing
}

} // verus!
