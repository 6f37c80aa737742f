use dbnest::instance::registry::{has_json_extension, order_newest_first};
use dbnest::paths::{Dirs, FsPath};
use dbnest::sqlite::sqlite_instance;
use dbnest::{Instance, Registry};

const SECOND: i128 = 1_000_000_000;

fn make_sqlite_instance(id: &str, created_at: i128, db_path: &str) -> Instance {
    sqlite_instance(id.to_string(), created_at, FsPath::new(db_path), true)
}

#[test]
fn registry_list_returns_all_instances() {
    let now: i128 = 1_700_000_000 * SECOND;
    let t1 = now - 10 * SECOND;
    let t2 = now;

    let inst1 = make_sqlite_instance("old11111", t1, "/tmp/x/db1.sqlite");
    let inst2 = make_sqlite_instance("new22222", t2, "/tmp/x/db2.sqlite");

    let list = order_newest_first(vec![inst1, inst2]);
    assert_eq!(list.len(), 2);

    let ids = list.iter().map(|i| i.id.as_str()).collect::<Vec<_>>();
    assert!(ids.contains(&"old11111"));
    assert!(ids.contains(&"new22222"));
}

#[test]
fn registry_list_is_sorted_newest_first() {
    let now: i128 = 1_700_000_000 * SECOND;
    let older = now - 60 * SECOND;
    let newer = now;

    let inst_old = make_sqlite_instance("old00001", older, "/tmp/x/old.sqlite");
    let inst_new = make_sqlite_instance("new00002", newer, "/tmp/x/new.sqlite");

    let list = order_newest_first(vec![inst_old, inst_new]);
    assert_eq!(list.len(), 2);

    assert_eq!(list[0].id, "new00002");
    assert_eq!(list[1].id, "old00001");
}

#[test]
fn newest_first_keeps_order_of_equal_instants() {
    let list = order_newest_first(vec![
        make_sqlite_instance("a", 5, "/a"),
        make_sqlite_instance("b", 9, "/b"),
        make_sqlite_instance("c", 5, "/c"),
        make_sqlite_instance("d", 7, "/d"),
        make_sqlite_instance("e", 9, "/e"),
        make_sqlite_instance("f", -3, "/f"),
    ]);
    let ids = list.iter().map(|i| i.id.as_str()).collect::<Vec<_>>();
    assert_eq!(ids, vec!["b", "e", "d", "a", "c", "f"]);
}

#[test]
fn newest_first_of_nothing_is_nothing() {
    assert!(order_newest_first(vec![]).is_empty());
}

#[test]
fn json_extension_follows_path_rules() {
    assert!(has_json_extension("abc.json"));
    assert!(has_json_extension("a.b.json"));
    assert!(has_json_extension("corrupt.json"));
    assert!(!has_json_extension(".json"));
    assert!(!has_json_extension("json"));
    assert!(!has_json_extension("a.json.bak"));
    assert!(!has_json_extension("a.JSON"));
    assert!(!has_json_extension(".registry.lock"));
    assert!(has_json_extension("..json"));
    assert!(!has_json_extension(".."));
    assert!(!has_json_extension("."));
    assert!(!has_json_extension("a."));
}

#[test]
fn registry_paths_are_under_instances() {
    let dirs = Dirs::from_base(FsPath::new("/data/dbnest"));
    let registry = Registry::with_dirs(dirs);
    let p = registry.instance_path("deadbeef");
    assert_eq!(p.segments, vec!["/data/dbnest", "instances", "deadbeef.json"]);
    assert_eq!(registry.dirs().instances.segments, vec!["/data/dbnest", "instances"]);
}
