use cellbook::loader::{order_cells, reload_path, sorted_order, CellInfo, ModuleRecord};

fn cell(name: &str, line: u32) -> CellInfo {
    CellInfo { name: name.to_string(), line }
}

#[test]
fn cells_are_listed_by_declaration_position() {
    let cells = vec![cell("c", 30), cell("a", 10), cell("b", 20)];
    let ordered = order_cells(&cells);
    let names: Vec<(&str, u32)> = ordered.iter().map(|c| (c.name.as_str(), c.line)).collect();
    assert_eq!(names, vec![("a", 10), ("b", 20), ("c", 30)]);
}

#[test]
fn equal_keys_keep_discovery_order() {
    assert_eq!(sorted_order(&vec![0, 0, 0]), vec![0, 1, 2]);
    assert_eq!(sorted_order(&vec![5, 1, 5, 1]), vec![1, 3, 0, 2]);
    assert_eq!(sorted_order(&vec![]), Vec::<usize>::new());
}

#[test]
fn consecutive_reloads_map_distinct_copies() {
    let first = ModuleRecord::loaded("target/libnb.so", &vec![cell("a", 1)]);
    assert_eq!(first.mapped_path, "target/libnb.so");
    let p0 = first.next_copy_path();
    assert_eq!(p0, "target/libnb.so.reload.0");
    let second = first.reloaded(p0.clone(), &vec![cell("a", 1), cell("b", 0)]);
    let p1 = second.next_copy_path();
    assert_eq!(p1, "target/libnb.so.reload.1");
    let third = second.reloaded(p1.clone(), &vec![cell("a", 1)]);
    assert_ne!(second.mapped_path, third.mapped_path);
    assert_eq!(third.disposable, vec![p0, p1]);
    assert_eq!(second.cells[0].name, "b");
}

#[test]
fn reload_path_writes_counter_in_decimal() {
    assert_eq!(reload_path("x", 1234567890123), "x.reload.1234567890123");
    assert_eq!(reload_path("", u64::MAX), ".reload.18446744073709551615");
}
