use dtb_node::database_memory::InMemoryDatabase;
use dtb_node::db::{Database, DatabaseType, Value};
use dtb_node::handler::{Action, ActionType};

fn direct(v: &Option<Value>) -> Option<Vec<u8>> {
    match v {
        Some(Value::Direct(d)) => Some(d.clone()),
        _ => None,
    }
}

#[test]
fn in_memory_database_starts_empty() {
    let db = InMemoryDatabase::new();
    assert!(db.get(b"missing").is_none());
}

#[test]
fn in_memory_insert_then_get() {
    let mut db = InMemoryDatabase::new();
    db.insert(b"k".to_vec(), Value::Direct(vec![1, 2, 3]));
    assert_eq!(direct(&db.get(b"k")), Some(vec![1, 2, 3]));
    assert!(db.get(b"other").is_none());
}

#[test]
fn in_memory_insert_overwrites() {
    let mut db = InMemoryDatabase::new();
    db.insert(b"k".to_vec(), Value::Direct(vec![1]));
    db.insert(b"k".to_vec(), Value::Pointer("peer".to_string()));
    match db.get(b"k") {
        Some(Value::Pointer(p)) => assert_eq!(p, "peer"),
        _ => panic!("expected a pointer"),
    }
}

#[test]
fn in_memory_update_returns_previous() {
    let mut db = InMemoryDatabase::new();
    assert!(db.update(b"k".to_vec(), Value::Direct(vec![1])).is_none());
    let previous = db.update(b"k".to_vec(), Value::Direct(vec![2]));
    assert_eq!(direct(&previous), Some(vec![1]));
    assert_eq!(direct(&db.get(b"k")), Some(vec![2]));
}

#[test]
fn in_memory_delete_returns_value_and_removes() {
    let mut db = InMemoryDatabase::new();
    db.insert(b"a".to_vec(), Value::Direct(vec![1]));
    db.insert(b"b".to_vec(), Value::Direct(vec![2]));
    db.insert(b"c".to_vec(), Value::Direct(vec![3]));
    assert_eq!(direct(&db.delete(b"b")), Some(vec![2]));
    assert!(db.get(b"b").is_none());
    assert_eq!(direct(&db.get(b"a")), Some(vec![1]));
    assert_eq!(direct(&db.get(b"c")), Some(vec![3]));
    assert!(db.delete(b"b").is_none());
}

#[test]
fn in_memory_keys_of_different_lengths_are_distinct() {
    let mut db = InMemoryDatabase::new();
    db.insert(vec![1, 2], Value::Direct(vec![12]));
    db.insert(vec![1], Value::Direct(vec![1]));
    db.insert(vec![], Value::Direct(vec![0]));
    assert_eq!(direct(&db.get(&[1, 2])), Some(vec![12]));
    assert_eq!(direct(&db.get(&[1])), Some(vec![1]));
    assert_eq!(direct(&db.get(&[])), Some(vec![0]));
}

#[test]
fn database_type_create_in_memory() {
    let mut db = DatabaseType::create(true);
    assert!(db.get(b"k").is_none());
    db.insert(b"k".to_vec(), Value::Direct(vec![9]));
    assert_eq!(direct(&db.get(b"k")), Some(vec![9]));
    assert_eq!(direct(&db.update(b"k".to_vec(), Value::Direct(vec![8]))), Some(vec![9]));
    assert_eq!(direct(&db.delete(b"k")), Some(vec![8]));
    assert!(db.get(b"k").is_none());
}

#[test]
fn action_apply_replies() {
    let mut db = DatabaseType::create(true);
    let insert = Action { key: b"k".to_vec(), action_type: ActionType::Insert(Value::Direct(vec![1])) };
    assert!(insert.apply(&mut db).is_none());
    let get = Action { key: b"k".to_vec(), action_type: ActionType::Get };
    assert_eq!(direct(&get.apply(&mut db).unwrap()), Some(vec![1]));
    let update = Action { key: b"k".to_vec(), action_type: ActionType::Update(Value::Direct(vec![2])) };
    assert_eq!(direct(&update.apply(&mut db).unwrap()), Some(vec![1]));
    let delete = Action { key: b"k".to_vec(), action_type: ActionType::Delete };
    assert_eq!(direct(&delete.apply(&mut db).unwrap()), Some(vec![2]));
    let get_again = Action { key: b"k".to_vec(), action_type: ActionType::Get };
    assert!(get_again.apply(&mut db).unwrap().is_none());
}
