use deferred_cell::Deferred;
use deferred_cell::DeferredError;
use deferred_cell::DeferredIteratorExt;
use deferred_cell::Handle;
use deferred_cell::Registry;
use deferred_cell::SetOnce;

/// A slot already linked to `target`.
fn linked(target: &Handle) -> Deferred {
    let mut writer = SetOnce::from(Deferred::default());
    writer.try_set(target).unwrap();
    writer.into_slot()
}

/// Builds the ring-plus-center graph:
///
/// ```text
///            North
///         /    |     \
///     East - Center - West
///         \    |     /
///            South
/// ```
///
/// Returns the registry of node names, the handles in insertion order
/// (Center, North, East, South, West), and each node's outgoing slots, indexed
/// by the node's entry index.
fn make_cyclic_graph() -> (Registry<String>, Vec<Handle>, Vec<Vec<Deferred>>) {
    let mut reg: Registry<String> = Registry::new();
    let center = reg.insert(String::from("Center"));
    let north = reg.insert(String::from("North"));
    let east = reg.insert(String::from("East"));
    let south = reg.insert(String::from("South"));
    let west = reg.insert(String::from("West"));

    let mut slots: Vec<Vec<Deferred>> = vec![Vec::new(); 5];
    slots[center.index()] = vec![linked(&north), linked(&west), linked(&south), linked(&east)];
    slots[north.index()] = vec![linked(&west), linked(&center), linked(&east)];
    slots[west.index()] = vec![linked(&north), linked(&south), linked(&center)];
    slots[south.index()] = vec![linked(&center), linked(&west), linked(&east)];
    slots[east.index()] = vec![linked(&north), linked(&center), linked(&south)];

    (reg, vec![center, north, east, south, west], slots)
}

#[test]
fn cyclic_graph() {
    let (reg, handles, slots) = make_cyclic_graph();
    let center = handles.first().unwrap();

    assert_eq!(*reg.value(center), "Center");

    let north = slots[center.index()][0].get(&reg);
    let west = slots[north.index()][0].get(&reg);
    let south = slots[west.index()][1].get(&reg);
    let east = slots[south.index()][2].get(&reg);
    let center_again = slots[east.index()][1].get(&reg);

    assert_eq!(*reg.value(&north), "North");
    assert_eq!(*reg.value(&west), "West");
    assert_eq!(*reg.value(&south), "South");
    assert_eq!(*reg.value(&east), "East");
    assert_eq!(*reg.value(&center_again), "Center");
}

#[test]
fn duplicate_initialization_fails() {
    let (_reg, handles, slots) = make_cyclic_graph();
    let center = handles.first().unwrap();

    let neighbor_slot = slots[center.index()][0];
    let mut mutator = SetOnce::from(neighbor_slot);
    let duplicate_set = mutator.try_set(center);

    assert!(
        matches!(duplicate_set, Err(DeferredError::DuplicateInitialization())),
        "Expected DuplicateInitialization error"
    );
}

#[test]
fn uninitialized_access_fails() {
    let reg: Registry<String> = Registry::new();
    let uninitialized: Deferred = Deferred::default();
    let result = uninitialized.try_get(&reg);

    assert!(
        matches!(result, Err(DeferredError::NotInitializedError())),
        "Expected NotInitializedError"
    );
}

#[test]
fn iterator_extension_works() {
    let (reg, handles, slots) = make_cyclic_graph();
    let center = handles.first().unwrap();

    let values: Vec<String> = slots[center.index()]
        .get_deferred(&reg)
        .iter()
        .map(|h| reg.value(h).clone())
        .collect();

    assert_eq!(values, vec!["North", "West", "South", "East"]);
}

#[test]
fn deferred_state_checking() {
    let (_reg, handles, slots) = make_cyclic_graph();
    let center = handles.first().unwrap();
    let neighbor = slots[center.index()][0];

    assert!(neighbor.is_ready());
    let m = SetOnce::from(neighbor);
    assert!(!m.can_set());
}
