use spindle_macros::case::LowerSnakeIdent;
use spindle_macros::db::{DbError, TypeDb};
use spindle_macros::primitives::_Primitive;

fn db_with_primitives_table() -> TypeDb {
    let conn = sqlite::open(":memory:").unwrap();
    conn.execute("CREATE TABLE primitives (uuid TEXT NOT NULL PRIMARY KEY, ident TEXT NOT NULL, span TEXT NOT NULL)")
        .unwrap();
    TypeDb::from_connection(conn)
}

#[test]
fn table_statements_are_run_on_the_database() {
    // the table definitions carry `//` comments, which SQLite does not read as
    // comments: the drop succeeds and the creation is refused
    let mut db = TypeDb::from_connection(sqlite::open(":memory:").unwrap());
    match db.new_maps() {
        Err(DbError::Sqlite { message, .. }) => assert!(message.is_some()),
        Ok(()) => panic!("the maps table definition was accepted"),
    }
    assert!(db.new_primitives().is_err());
}

#[test]
fn primitives_are_recorded_once() {
    let mut db = db_with_primitives_table();
    let i32_prim = _Primitive { ident: LowerSnakeIdent("i32".to_string()) };
    assert_eq!(db.get_primitive_uuid(&i32_prim).unwrap(), None);
    let first = db.add_primitive_if_not_exists(LowerSnakeIdent("i32".to_string()), "#0 bytes(1..4)").unwrap();
    assert_eq!(first.ident, "i32");
    assert_eq!(first.uuid.len(), 36);
    for (i, c) in first.uuid.chars().enumerate() {
        if [8, 13, 18, 23].contains(&i) {
            assert_eq!(c, '-');
        } else {
            assert!(c.is_ascii_hexdigit() && !c.is_ascii_uppercase());
        }
    }
    assert_eq!(first.uuid.as_bytes()[14], b'4');
    assert!(b"89ab".contains(&first.uuid.as_bytes()[19]));
    assert_eq!(db.get_primitive_uuid(&i32_prim).unwrap(), Some(first.uuid.clone()));
    let again = db.add_primitive_if_not_exists(LowerSnakeIdent("i32".to_string()), "elsewhere").unwrap();
    assert_eq!(again.uuid, first.uuid);
    let other = db.add_primitive_if_not_exists(LowerSnakeIdent("f64".to_string()), "here").unwrap();
    assert_ne!(other.uuid, first.uuid);
    assert_eq!(other.ident, "f64");
}

#[test]
fn lookups_fail_without_the_table() {
    let mut db = TypeDb::from_connection(sqlite::open(":memory:").unwrap());
    let prim = _Primitive { ident: LowerSnakeIdent("i32".to_string()) };
    assert!(db.get_primitive_uuid(&prim).is_err());
    assert!(db.add_primitive_if_not_exists(LowerSnakeIdent("i32".to_string()), "s").is_err());
}

#[test]
fn lookup_reads_the_uuid_column_by_name() {
    // the identifier is found by its column's name, whatever the column order
    let conn = sqlite::open(":memory:").unwrap();
    conn.execute("CREATE TABLE primitives (ident TEXT NOT NULL, span TEXT NOT NULL, uuid TEXT NOT NULL PRIMARY KEY)")
        .unwrap();
    conn.execute("INSERT INTO primitives (ident, span, uuid) VALUES ('bool', 's', 'the-uuid')").unwrap();
    let mut db = TypeDb::from_connection(conn);
    let p = _Primitive { ident: LowerSnakeIdent("bool".to_string()) };
    assert_eq!(db.get_primitive_uuid(&p).unwrap(), Some("the-uuid".to_string()));
    let q = db.add_primitive_if_not_exists(LowerSnakeIdent("bool".to_string()), "x").unwrap();
    assert_eq!(q.uuid, "the-uuid");
}
