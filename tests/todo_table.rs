use todo_api::models::{NewTodo, Todo};
use todo_api::rules::Reply;
use todo_api::table::TodoTable;

fn created(reply: Reply) -> Todo {
    match reply {
        Reply::Created { record } => record,
        _ => panic!("expected a created record"),
    }
}

fn listed(table: &TodoTable) -> Vec<Todo> {
    match table.list() {
        Reply::Listed { data } => data,
        _ => panic!("expected a listing"),
    }
}

fn is_hyphenated_uuid(s: &str) -> bool {
    s.len() == 36
        && s.chars().enumerate().all(|(i, c)| {
            if i == 8 || i == 13 || i == 18 || i == 23 {
                c == '-'
            } else {
                c.is_ascii_digit() || ('a'..='f').contains(&c)
            }
        })
}

#[test]
fn create_gives_open_record_with_fresh_id() {
    let mut table = TodoTable::new();
    let first = created(table.create("Buy milk", "Two litres"));
    assert_eq!(first.id, 1);
    assert_eq!(first.title, "Buy milk");
    assert_eq!(first.description, "Two litres");
    assert_eq!(first.completed, 0);
    assert!(is_hyphenated_uuid(&first.public_id));
    let second = created(table.create("Walk", "The dog"));
    assert_eq!(second.id, 2);
    assert_ne!(first.public_id, second.public_id);
    assert!(is_hyphenated_uuid(&second.public_id));
}

#[test]
fn create_with_empty_field_inserts_nothing() {
    let mut table = TodoTable::new();
    assert!(matches!(table.create("", "desc"), Reply::MissingFields));
    assert!(matches!(table.create("title", ""), Reply::MissingFields));
    assert!(matches!(table.create("", ""), Reply::MissingFields));
    assert!(listed(&table).is_empty());
}

#[test]
fn list_after_creates_counts_them() {
    let mut table = TodoTable::new();
    assert_eq!(listed(&table).len(), 0);
    for n in 1..=5 {
        created(table.create("t", "d"));
        assert_eq!(listed(&table).len(), n);
    }
    let ids: Vec<i32> = listed(&table).iter().map(|t| t.id).collect();
    assert_eq!(ids, vec![1, 2, 3, 4, 5]);
}

#[test]
fn get_missing_id_is_not_found() {
    let mut table = TodoTable::new();
    created(table.create("t", "d"));
    match table.get("00000000-0000-4000-8000-000000000000") {
        Reply::NotFound { id } => assert_eq!(id, "00000000-0000-4000-8000-000000000000"),
        _ => panic!("expected not found"),
    }
}

#[test]
fn get_existing_id_returns_that_row() {
    let mut table = TodoTable::new();
    created(table.create("a", "first"));
    let b = created(table.create("b", "second"));
    match table.get(&b.public_id) {
        Reply::Found { id, data } => {
            assert_eq!(id, b.public_id);
            assert_eq!(data.len(), 1);
            assert_eq!(data[0].title, "b");
            assert_eq!(data[0].id, 2);
        }
        _ => panic!("expected found"),
    }
}

#[test]
fn toggle_twice_restores_flag() {
    let mut table = TodoTable::new();
    let t = created(table.create("t", "d"));
    let r1 = table.complete(&t.public_id);
    assert!(matches!(&r1, Reply::Completed { id } if *id == t.public_id));
    assert_eq!(r1.message(), Some("Todo completed!"));
    assert_eq!(listed(&table)[0].completed, 1);
    let r2 = table.complete(&t.public_id);
    assert!(matches!(&r2, Reply::Restored { id } if *id == t.public_id));
    assert_eq!(r2.message(), Some("Todo restored!"));
    assert_eq!(listed(&table)[0].completed, 0);
}

#[test]
fn toggle_missing_id_is_not_found() {
    let mut table = TodoTable::new();
    let t = created(table.create("t", "d"));
    assert!(matches!(table.complete("nope"), Reply::NotFound { .. }));
    assert_eq!(listed(&table)[0].completed, 0);
    assert_eq!(listed(&table)[0].public_id, t.public_id);
}

#[test]
fn delete_removes_only_that_row() {
    let mut table = TodoTable::new();
    let a = created(table.create("a", "1"));
    let b = created(table.create("b", "2"));
    let c = created(table.create("c", "3"));
    let r = table.delete(&b.public_id);
    assert!(matches!(&r, Reply::Deleted { id } if *id == b.public_id));
    assert_eq!(r.message(), Some("Todo deleted!"));
    let rest: Vec<String> = listed(&table).into_iter().map(|t| t.public_id).collect();
    assert_eq!(rest, vec![a.public_id.clone(), c.public_id.clone()]);
    let again = table.delete(&b.public_id);
    assert!(matches!(&again, Reply::NotFound { id } if *id == b.public_id));
    assert!(!again.success());
    assert_eq!(listed(&table).len(), 2);
}

#[test]
fn clear_empties_table() {
    let mut table = TodoTable::new();
    created(table.create("a", "1"));
    created(table.create("b", "2"));
    let r = table.clear();
    assert!(matches!(r, Reply::Cleared));
    assert_eq!(r.message(), Some("Todos cleared!"));
    assert!(listed(&table).is_empty());
    let next = created(table.create("c", "3"));
    assert_eq!(next.id, 3);
}

#[test]
fn insert_with_taken_id_is_refused() {
    let mut table = TodoTable::new();
    let first = table.insert(NewTodo { title: "a", public_id: "same", description: "1" });
    assert_eq!(created(first).public_id, "same");
    let second = table.insert(NewTodo { title: "b", public_id: "same", description: "2" });
    assert!(matches!(&second, Reply::IdTaken { id } if id == "same"));
    assert!(!second.success());
    assert_eq!(listed(&table).len(), 1);
    assert_eq!(listed(&table)[0].title, "a");
}

#[test]
fn select_returns_one_or_none() {
    let mut table = TodoTable::new();
    table.insert(NewTodo { title: "a", public_id: "x", description: "1" });
    table.insert(NewTodo { title: "b", public_id: "y", description: "2" });
    let hit = table.select("y");
    assert_eq!(hit.len(), 1);
    assert_eq!(hit[0].title, "b");
    assert!(table.select("z").is_empty());
}
