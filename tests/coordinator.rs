use cellbook::coordinator::{run_cell, Action, Coordinator, Event, ExecError, Slot};
use cellbook::loader::{CellInfo, ModuleRecord};
use cellbook::store::{list, store_value, Store};

#[test]
fn reload_during_a_running_cell_cancels_then_joins_then_reloads() {
    let mut c = Coordinator::new();
    assert_eq!(c.step(Event::RunRequested { cell: 1 }), Action::Start { cell: 1, generation: 0 });
    assert_eq!(c.step(Event::ReloadRequested), Action::Cancel);
    assert_eq!(c.generation, 0);
    assert_eq!(c.step(Event::RunRequested { cell: 2 }), Action::Nothing);
    assert_eq!(c.step(Event::CancelDelivered), Action::Join);
    assert_eq!(c.generation, 0);
    assert_eq!(c.step(Event::Joined), Action::Reload);
    assert_eq!(c.slot, Slot::Idle);
    assert_eq!(c.step(Event::ReloadFinished { ok: true }), Action::Start { cell: 0, generation: 1 });
    assert_eq!(c.generation, 1);
}

#[test]
fn stale_results_are_discarded() {
    let mut c = Coordinator::new();
    c.step(Event::ReloadRequested);
    c.step(Event::ReloadFinished { ok: true });
    assert_eq!(c.step(Event::Completed { generation: 0 }), Action::Discard);
    assert_eq!(c.step(Event::Completed { generation: 1 }), Action::Report);
    assert_eq!(c.slot, Slot::Idle);
}

#[test]
fn failed_reload_keeps_current_generation() {
    let mut c = Coordinator::new();
    assert_eq!(c.step(Event::ReloadRequested), Action::Reload);
    assert_eq!(c.step(Event::ReloadRequested), Action::Nothing);
    assert_eq!(c.step(Event::ReloadFinished { ok: false }), Action::Nothing);
    assert_eq!(c.generation, 0);
    assert!(!c.reloading);
}

#[test]
fn run_cell_missing_is_not_found_and_store_unchanged() {
    let mut store = Store::new();
    store_value(&mut store, "x", vec![1], "t");
    let before = list(&store);
    let module = ModuleRecord::loaded("lib.so", &vec![CellInfo { name: "a".into(), line: 1 }]);
    let r = run_cell(&module, "missing");
    assert!(matches!(r, Err(ExecError::NotFound(ref n)) if n == "missing"));
    assert_eq!(list(&store), before);
    assert_eq!(run_cell(&module, "a").unwrap(), 0);
}
