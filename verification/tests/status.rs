use dbnest::instance::status::{
    needs_connection_check, postgres_status, sqlite_status, status_for_instance, status_probe,
    StatusDetails, StatusProbe,
};
use dbnest::paths::FsPath;
use dbnest::runtime::postgres_instance;
use dbnest::sqlite::sqlite_instance;
use dbnest::{Engine, Instance, InstanceStatus, PostgresSpec};

fn sqlite_inst(id: &str, path: &str) -> Instance {
    sqlite_instance(id.to_string(), 0, FsPath::new(path), false)
}

fn pg_inst() -> Instance {
    postgres_instance(
        "pg1".to_string(),
        0,
        PostgresSpec { user: "dev".into(), password: "dev".into(), db: "appdb".into(), image: None },
        5433,
        "c0ffee".to_string(),
        "postgres:16-alpine".to_string(),
    )
}

#[test]
fn status_sqlite_running_when_file_exists() {
    let inst = sqlite_inst("sqlite1", "/tmp/dbnest-test/db.sqlite");
    let report = sqlite_status(&inst, true);
    assert_eq!(report.status, InstanceStatus::Running);
}

#[test]
fn status_sqlite_missing_when_file_deleted() {
    let inst = sqlite_inst("sqlite2", "/tmp/dbnest-test/db.sqlite");
    let report = sqlite_status(&inst, false);
    assert_eq!(report.status, InstanceStatus::Missing);
}

#[test]
fn sqlite_report_details() {
    let inst = sqlite_inst("s", "/x/db.sqlite");
    let r = status_for_instance(&inst, true, None, false);
    assert_eq!(r.id, "s");
    assert_eq!(r.engine, Engine::Sqlite);
    match r.details {
        StatusDetails::SqliteFile { path, file_exists, managed } => {
            assert_eq!(path.segments, vec!["/x/db.sqlite"]);
            assert!(file_exists);
            assert!(!managed);
        }
        other => panic!("unexpected details {:?}", other),
    }
}

#[test]
fn sqlite_without_info_is_unknown() {
    let mut inst = sqlite_inst("s", "/x/db.sqlite");
    inst.sqlite = None;
    let r = sqlite_status(&inst, true);
    assert_eq!(r.status, InstanceStatus::Unknown);
    assert!(matches!(r.details, StatusDetails::Error(ref m) if m == "missing sqlite info"));
    assert!(matches!(status_probe(&inst), StatusProbe::Nothing));
}

#[test]
fn postgres_statuses() {
    let inst = pg_inst();
    assert_eq!(postgres_status(&inst, None, true).status, InstanceStatus::Missing);
    assert_eq!(postgres_status(&inst, Some("running".into()), true).status, InstanceStatus::Running);
    assert_eq!(postgres_status(&inst, Some("running".into()), false).status, InstanceStatus::Unhealthy);
    let stopped = postgres_status(&inst, Some("exited".into()), true);
    assert_eq!(stopped.status, InstanceStatus::Stopped);
    assert!(matches!(stopped.details,
        StatusDetails::ContainerState { ref container_id, ref docker_state }
            if container_id == "c0ffee" && docker_state == "exited"));
    assert!(matches!(status_probe(&inst), StatusProbe::DockerState(ref c) if c == "c0ffee"));
}

#[test]
fn postgres_without_container_is_unknown() {
    let mut inst = pg_inst();
    inst.container = None;
    let r = postgres_status(&inst, Some("running".into()), true);
    assert_eq!(r.status, InstanceStatus::Unknown);
    assert!(matches!(r.details, StatusDetails::Error(ref m) if m == "missing container info"));
}

#[test]
fn mysql_status_is_unknown_with_note() {
    let mut inst = sqlite_inst("m", "/x");
    inst.engine = Engine::Mysql;
    let r = status_for_instance(&inst, true, Some("running".into()), true);
    assert_eq!(r.status, InstanceStatus::Unknown);
    assert!(matches!(r.details, StatusDetails::Note(ref m) if m == "mysql status not implemented yet"));
}

#[test]
fn connection_check_only_when_running() {
    assert!(needs_connection_check(&Some("running".to_string())));
    assert!(!needs_connection_check(&Some("Running".to_string())));
    assert!(!needs_connection_check(&Some("exited".to_string())));
    assert!(!needs_connection_check(&None));
}
