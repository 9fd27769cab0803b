use unavi_scripting::refcount::{RefCount, RefCountCell, RefResource};
use unavi_scripting::resource::{Entry, Handle, ResourceData, ResourceError, ResourceKind};
use unavi_scripting::scene::{Mesh, Node};
use unavi_scripting::table::Table;

/// A table with one node that the table and one handle hold.
fn table_with_node() -> (Table, Handle) {
    let mut table = Table::new();
    let created = table.create(ResourceData::Node(Node::default())).unwrap();
    let owned = Entry::from_res(&created, &mut table).unwrap();
    (table, owned)
}

fn count(table: &Table, rep: u32) -> Option<usize> {
    table.entry(rep).map(|entry| entry.ref_count())
}

#[test]
fn test_drop() {
    let (mut table, res_a) = table_with_node();
    let res_b = Entry::from_res(&res_a, &mut table).unwrap();

    let dummy = Handle::new(res_a.rep(), ResourceKind::Node);
    assert!(table.get(&dummy).is_ok());

    Entry::handle_drop(res_a, &mut table).unwrap();
    assert!(table.get(&dummy).is_ok());

    Entry::handle_drop(res_b, &mut table).unwrap();
    assert!(table.get(&dummy).is_err());
}

#[test]
fn test_new() {
    let (mut table, res_a) = table_with_node();

    let mut data = Entry { data: ResourceData::Node(Node::default()), ref_count: RefCountCell::default() };
    let res_b = data.new_own(res_a.rep());
    assert_eq!(res_a.rep(), res_b.rep());
    assert_eq!(res_b.kind, ResourceKind::Node);
    assert_eq!(data.ref_count(), 2);

    let res_c = Entry::from_res(&res_a, &mut table).unwrap();
    assert_eq!(res_a.rep(), res_c.rep());

    let res_d = Entry::from_rep(res_a.rep(), ResourceKind::Node, &mut table).unwrap();
    assert_eq!(res_a.rep(), res_d.rep());
    assert_eq!(res_d.kind, ResourceKind::Node);
    assert_eq!(count(&table, res_a.rep()), Some(4));
}

#[test]
fn ref_count_cell_defaults_to_one() {
    let cell = RefCountCell::default();
    assert_eq!(cell.0, 1);
    assert_eq!(cell.ref_count(), 1);
}

#[test]
fn increment_and_decrement_return_the_new_value() {
    let mut cell = RefCountCell::default();
    assert_eq!(cell.increment(), 2);
    assert_eq!(cell.increment(), 3);
    assert_eq!(cell.decrement(), 2);
    assert_eq!(cell.decrement(), 1);
    assert_eq!(cell.decrement(), 0);
    assert_eq!(cell.ref_count(), 0);
}

#[test]
fn decrement_at_zero_changes_nothing() {
    let mut cell = RefCountCell(0);
    assert_eq!(cell.decrement(), 0);
    assert_eq!(cell.0, 0);
}

#[test]
fn create_counts_the_tables_own_holding() {
    let mut table = Table::new();
    let handle = table.create(ResourceData::Capability).unwrap();
    assert_eq!(handle.kind, ResourceKind::Capability);
    assert_eq!(count(&table, handle.rep()), Some(1));
    assert!(matches!(table.get(&handle), Ok(ResourceData::Capability)));
}

#[test]
fn create_gives_distinct_ids_to_live_entries() {
    let mut table = Table::new();
    let a = table.create(ResourceData::Node(Node::default())).unwrap();
    let b = table.create(ResourceData::Mesh(Mesh::default())).unwrap();
    assert_ne!(a.rep(), b.rep());
    assert_eq!(a.kind, ResourceKind::Node);
    assert_eq!(b.kind, ResourceKind::Mesh);
    assert!(matches!(table.get(&a), Ok(ResourceData::Node(_))));
    assert!(matches!(table.get(&b), Ok(ResourceData::Mesh(_))));
}

#[test]
fn clone_handle_counts_one_more_holder() {
    let (mut table, handle) = table_with_node();
    assert_eq!(count(&table, handle.rep()), Some(2));
    let clone = table.clone_handle(&handle).unwrap();
    assert_eq!(clone, handle);
    assert_eq!(count(&table, handle.rep()), Some(3));
}

#[test]
fn a_clone_outlives_the_first_handle() {
    let (mut table, first) = table_with_node();
    let clone = table.clone_handle(&first).unwrap();

    assert_eq!(Entry::handle_drop(first, &mut table), Ok(false));
    assert!(table.get(&clone).is_ok());

    assert_eq!(Entry::handle_drop(clone, &mut table), Ok(true));
    assert_eq!(table.get(&clone).err(), Some(ResourceError::ResourceNotFound));
}

#[test]
fn clones_then_as_many_drops_delete_at_the_last_drop() {
    let mut table = Table::new();
    let fresh = table.create(ResourceData::Capability).unwrap();
    let mut handles = Vec::new();
    for _ in 0..5 {
        handles.push(Entry::from_res(&fresh, &mut table).unwrap());
    }
    assert_eq!(count(&table, fresh.rep()), Some(6));
    for (dropped, handle) in handles.into_iter().enumerate() {
        assert!(table.get(&fresh).is_ok());
        let deleted = Entry::handle_drop(handle, &mut table).unwrap();
        assert_eq!(deleted, dropped == 4);
    }
    assert_eq!(table.get(&fresh).err(), Some(ResourceError::ResourceNotFound));
}

#[test]
fn interleaved_clones_and_drops_delete_at_the_last_drop() {
    let mut table = Table::new();
    let fresh = table.create(ResourceData::Capability).unwrap();
    let a = table.clone_handle(&fresh).unwrap();
    let b = table.clone_handle(&fresh).unwrap();
    assert_eq!(Entry::handle_drop(a, &mut table), Ok(false));
    let c = table.clone_handle(&fresh).unwrap();
    assert_eq!(Entry::handle_drop(c, &mut table), Ok(false));
    assert!(table.get(&fresh).is_ok());
    assert_eq!(Entry::handle_drop(b, &mut table), Ok(true));
    assert!(table.get(&fresh).is_err());
}

#[test]
fn drop_handle_hands_out_the_deleted_entry() {
    let (mut table, handle) = table_with_node();
    let deleted = table.drop_handle(handle).unwrap();
    let entry = deleted.expect("the last handle was dropped");
    assert_eq!(entry.ref_count(), 1);
    assert!(matches!(entry.data, ResourceData::Node(_)));
    assert!(table.entry(handle.rep()).is_none());
}

#[test]
fn drop_that_leaves_other_holders_deletes_nothing() {
    let (mut table, handle) = table_with_node();
    let _clone = table.clone_handle(&handle).unwrap();
    assert!(table.drop_handle(handle).unwrap().is_none());
    assert_eq!(count(&table, handle.rep()), Some(2));
}

#[test]
fn drop_of_the_tables_own_holding_never_deletes() {
    let mut table = Table::new();
    let fresh = table.create(ResourceData::Capability).unwrap();
    // The count falls from 1 to 0: it does not end at 1, so the entry stays.
    assert_eq!(Entry::handle_drop(fresh, &mut table), Ok(false));
    assert_eq!(count(&table, fresh.rep()), Some(0));
    // At 0 a further drop changes nothing.
    assert_eq!(Entry::handle_drop(fresh, &mut table), Ok(false));
    assert_eq!(count(&table, fresh.rep()), Some(0));
    assert!(table.get(&fresh).is_ok());
}

#[test]
fn operations_on_a_deleted_entry_fail() {
    let (mut table, handle) = table_with_node();
    assert_eq!(Entry::handle_drop(handle, &mut table), Ok(true));
    assert_eq!(table.get(&handle).err(), Some(ResourceError::ResourceNotFound));
    assert_eq!(table.get_mut(&handle).err(), Some(ResourceError::ResourceNotFound));
    assert_eq!(table.clone_handle(&handle), Err(ResourceError::ResourceNotFound));
    assert_eq!(Entry::from_res(&handle, &mut table), Err(ResourceError::ResourceNotFound));
    assert_eq!(
        Entry::from_rep(handle.rep(), ResourceKind::Node, &mut table),
        Err(ResourceError::ResourceNotFound)
    );
    assert_eq!(Entry::handle_drop(handle, &mut table), Err(ResourceError::ResourceNotFound));
    assert!(table.drop_handle(handle).is_err());
}

#[test]
fn a_handle_of_the_wrong_kind_finds_nothing() {
    let (mut table, handle) = table_with_node();
    let wrong = Handle::new(handle.rep(), ResourceKind::Mesh);
    assert_eq!(table.get(&wrong).err(), Some(ResourceError::ResourceNotFound));
    assert_eq!(table.get_mut(&wrong).err(), Some(ResourceError::ResourceNotFound));
    assert_eq!(table.clone_handle(&wrong), Err(ResourceError::ResourceNotFound));
    assert_eq!(
        Entry::from_rep(handle.rep(), ResourceKind::Mesh, &mut table),
        Err(ResourceError::ResourceNotFound)
    );
    assert_eq!(Entry::handle_drop(wrong, &mut table), Err(ResourceError::ResourceNotFound));
    assert_eq!(count(&table, handle.rep()), Some(2));
}

#[test]
fn get_mut_changes_the_data_in_place() {
    let (mut table, handle) = table_with_node();
    match table.get_mut(&handle).unwrap() {
        ResourceData::Node(node) => {
            node.name = String::from("root");
            node.mesh = Some(9);
        },
        _ => panic!("not a node"),
    }
    match table.get(&handle).unwrap() {
        ResourceData::Node(node) => {
            assert_eq!(node.name, "root");
            assert_eq!(node.mesh, Some(9));
        },
        _ => panic!("not a node"),
    }
    assert_eq!(count(&table, handle.rep()), Some(2));
}

#[test]
fn an_empty_table_finds_nothing() {
    let mut table = Table::new();
    assert!(table.entry(0).is_none());
    assert!(table.get(&Handle::new(0, ResourceKind::Node)).is_err());
    assert_eq!(
        Entry::from_rep(0, ResourceKind::Node, &mut table),
        Err(ResourceError::ResourceNotFound)
    );
}

#[test]
fn a_deleted_id_is_free_for_the_next_entry() {
    let (mut table, handle) = table_with_node();
    assert_eq!(Entry::handle_drop(handle, &mut table), Ok(true));
    let next = table.create(ResourceData::Mesh(Mesh::default())).unwrap();
    assert_eq!(next.rep(), handle.rep());
    // The old handle names a node: it does not reach the mesh.
    assert!(table.get(&handle).is_err());
    assert!(table.get(&next).is_ok());
}

#[test]
fn many_creates_on_a_new_table_all_succeed() {
    let mut table = Table::new();
    let mut reps = Vec::new();
    for _ in 0..1000 {
        let handle = table.create(ResourceData::Capability).expect("a new table has room");
        assert!(!reps.contains(&handle.rep()));
        reps.push(handle.rep());
    }
    for rep in reps {
        assert_eq!(count(&table, rep), Some(1));
    }
}

#[test]
fn from_rep_makes_a_handle_of_the_kind_asked_for() {
    let (mut table, handle) = table_with_node();
    let again = Entry::from_rep(handle.rep(), ResourceKind::Node, &mut table);
    assert_eq!(again, Ok(handle));
    assert_eq!(count(&table, handle.rep()), Some(3));
    // An entry of another kind is refused before it counts a holder.
    let refused = Entry::from_rep(handle.rep(), ResourceKind::Material, &mut table);
    assert_eq!(refused, Err(ResourceError::ResourceNotFound));
    assert_eq!(count(&table, handle.rep()), Some(3));
}
