use windows_erg::process::tree::{
    children_in, find_root_ancestor, kill_order, parent_id_in, parent_of, process_info_from_entry, process_links,
    tree_members,
};
use windows_erg::process::ProcessInfo;
use windows_erg::ProcessId;

fn info(pid: u32, parent: u32) -> ProcessInfo {
    let name: Vec<u16> = format!("p{pid}.exe").encode_utf16().chain([0u16]).collect();
    process_info_from_entry(pid, parent, &name, 1)
}

/// 1 -> {2, 3}, 2 -> {4}, 4 -> {5}; 9 stands alone.
fn sample() -> Vec<ProcessInfo> {
    vec![info(1, 0), info(2, 1), info(3, 1), info(4, 2), info(5, 4), info(9, 0)]
}

fn position(order: &[u32], x: u32) -> usize {
    order.iter().position(|&y| y == x).unwrap()
}

#[test]
fn kill_order_puts_children_before_parents() {
    let links = process_links(&sample());
    let order = kill_order(1, &links);
    let mut sorted = order.clone();
    sorted.sort();
    assert_eq!(sorted, vec![1, 2, 3, 4, 5]);
    assert!(position(&order, 5) < position(&order, 4));
    assert!(position(&order, 4) < position(&order, 2));
    assert!(position(&order, 2) < position(&order, 1));
    assert!(position(&order, 3) < position(&order, 1));
}

#[test]
fn kill_order_of_a_leaf_is_itself() {
    let links = process_links(&sample());
    assert_eq!(kill_order(5, &links), vec![5]);
    assert_eq!(kill_order(9, &links), vec![9]);
}

#[test]
fn kill_order_with_a_cycle_still_lists_each_once() {
    // 10 -> 11 -> 12 -> 11: a cycle below the root.
    let links = vec![(10, None), (11, Some(10)), (12, Some(11)), (11, Some(12))];
    let order = kill_order(10, &links);
    let mut sorted = order.clone();
    sorted.sort();
    assert_eq!(sorted, vec![10, 11, 12]);
}

#[test]
fn tree_members_are_the_descendants() {
    let links = process_links(&sample());
    let mut members = tree_members(2, &links);
    members.sort();
    assert_eq!(members, vec![2, 4, 5]);
}

#[test]
fn parents_and_children() {
    let procs = sample();
    let links = process_links(&procs);
    assert_eq!(parent_of(&links, 4), Some(2));
    assert_eq!(parent_of(&links, 1), None);
    assert_eq!(parent_id_in(&procs, ProcessId::new(5)), Some(ProcessId::new(4)));
    assert_eq!(parent_id_in(&procs, ProcessId::new(9)), None);
    assert_eq!(children_in(&procs, ProcessId::new(1)), vec![ProcessId::new(2), ProcessId::new(3)]);
    assert!(children_in(&procs, ProcessId::new(3)).is_empty());
}

#[test]
fn root_ancestor_walks_up() {
    let links = process_links(&sample());
    assert_eq!(find_root_ancestor(5, &links), 1);
    assert_eq!(find_root_ancestor(9, &links), 9);
    assert_eq!(find_root_ancestor(77, &links), 77);
}

#[test]
fn root_ancestor_stops_on_a_cycle() {
    let links = vec![(1, Some(2)), (2, Some(1))];
    let r = find_root_ancestor(1, &links);
    assert!(r == 1 || r == 2);
}

#[test]
fn process_entry_name_and_parent() {
    let name: Vec<u16> = "svchost.exe".encode_utf16().chain([0u16, 65, 66]).collect();
    let p = process_info_from_entry(800, 0, &name, 12);
    assert_eq!(p.pid, ProcessId::new(800));
    assert_eq!(p.parent_pid, None);
    assert_eq!(p.name, "svchost.exe");
    assert_eq!(p.thread_count, 12);
    let q = process_info_from_entry(801, 800, &name, 1);
    assert_eq!(q.parent_pid, Some(ProcessId::new(800)));
}
