use fancy_mumble::tasks::{collect_failures, RegistryError, TaskEntry, TaskKind, TaskRegistry};

#[test]
fn duplicate_task_is_refused() {
    let mut t = TaskRegistry::new();
    assert_eq!(t.register(TaskKind::Keepalive, 1), Ok(()));
    assert_eq!(t.register(TaskKind::Keepalive, 2), Err(RegistryError::DuplicateTask));
    assert!(t.contains(TaskKind::Keepalive));
    assert!(!t.contains(TaskKind::Reader));
}

#[test]
fn shutdown_all_empties_in_stop_order() {
    let mut t = TaskRegistry::new();
    t.register(TaskKind::Writer, 4).unwrap();
    t.register(TaskKind::Keepalive, 3).unwrap();
    t.register(TaskKind::Dispatcher, 2).unwrap();
    t.register(TaskKind::Reader, 1).unwrap();
    let order = t.shutdown_all();
    assert_eq!(
        order,
        vec![
            TaskEntry { kind: TaskKind::Reader, handle: 1 },
            TaskEntry { kind: TaskKind::Dispatcher, handle: 2 },
            TaskEntry { kind: TaskKind::Keepalive, handle: 3 },
            TaskEntry { kind: TaskKind::Writer, handle: 4 },
        ]
    );
    assert!(t.is_empty());
}

#[test]
fn shutdown_all_empties_even_when_stops_fail() {
    let mut t = TaskRegistry::new();
    t.register(TaskKind::Dispatcher, 2).unwrap();
    t.register(TaskKind::Keepalive, 3).unwrap();
    let order = t.shutdown_all();
    let failed = collect_failures(&order, &vec![false, true]);
    assert_eq!(failed, vec![TaskKind::Dispatcher]);
    assert!(t.is_empty());
}

#[test]
fn shutdown_all_on_empty_registry_is_noop() {
    let mut t = TaskRegistry::new();
    assert!(t.shutdown_all().is_empty());
    assert!(t.is_empty());
    assert!(t.shutdown_all().is_empty());
    assert!(t.is_empty());
}

#[test]
fn collect_failures_keeps_order() {
    let order = vec![
        TaskEntry { kind: TaskKind::Reader, handle: 1 },
        TaskEntry { kind: TaskKind::Keepalive, handle: 3 },
        TaskEntry { kind: TaskKind::Writer, handle: 4 },
    ];
    assert_eq!(
        collect_failures(&order, &vec![false, true, false]),
        vec![TaskKind::Reader, TaskKind::Writer]
    );
    assert!(collect_failures(&order, &vec![true, true, true]).is_empty());
}
