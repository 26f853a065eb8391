//! The dispatch core: registry, validation, routing and envelopes.

use clara_mcp::catalog::default_catalog;
use clara_mcp::dispatch::{route, RequestEnvelope, RouteOutcome};
use clara_mcp::envelope::{wrap_outcome, Response};
use clara_mcp::json::JsonVal;
use clara_mcp::params::{CalendarListParams, CodeCliParams, SaveFileParams};
use clara_mcp::registry::{Descriptor, OpKind, Registry, RegistryError};
use clara_mcp::schema::{validate, FieldSpec, FieldType, Schema, ValidationError};

fn text(s: &str) -> JsonVal {
    JsonVal::Text(String::from(s))
}

fn obj(entries: Vec<(&str, JsonVal)>) -> JsonVal {
    JsonVal::Obj(entries.into_iter().map(|(k, v)| (String::from(k), v)).collect())
}

fn descriptor(name: &str, op: OpKind) -> Descriptor {
    Descriptor {
        name: String::from(name),
        description: String::from("a test operation"),
        schema: Schema { fields: vec![] },
        op,
    }
}

#[test]
fn register_then_lookup_returns_descriptor() {
    let mut reg = Registry::new();
    reg.register(descriptor("alpha", OpKind::RunShell)).unwrap();
    reg.register(descriptor("beta", OpKind::ExecutePython)).unwrap();
    let d = reg.lookup("alpha").expect("alpha must resolve");
    assert_eq!(d.name, "alpha");
    assert!(matches!(d.op, OpKind::RunShell));
    let d2 = reg.lookup("beta").expect("beta must resolve");
    assert!(matches!(d2.op, OpKind::ExecutePython));
}

#[test]
fn lookup_of_never_registered_name_is_none() {
    let mut reg = Registry::new();
    reg.register(descriptor("alpha", OpKind::RunShell)).unwrap();
    assert!(reg.lookup("gamma").is_none());
    assert!(reg.lookup("Alpha").is_none(), "lookups are case-sensitive");
}

#[test]
fn duplicate_registration_is_refused_and_changes_nothing() {
    let mut reg = Registry::new();
    reg.register(descriptor("alpha", OpKind::RunShell)).unwrap();
    let r = reg.register(descriptor("alpha", OpKind::ExecutePython));
    assert!(matches!(r, Err(RegistryError::DuplicateName)));
    assert_eq!(reg.list().len(), 1);
    assert!(matches!(reg.lookup("alpha").unwrap().op, OpKind::RunShell));
}

#[test]
fn list_preserves_insertion_order() {
    let mut reg = Registry::new();
    reg.register(descriptor("zeta", OpKind::RunShell)).unwrap();
    reg.register(descriptor("alpha", OpKind::ExecutePython)).unwrap();
    let names: Vec<&str> = reg.list().iter().map(|d| d.name.as_str()).collect();
    assert_eq!(names, vec!["zeta", "alpha"]);
}

#[test]
fn default_catalog_covers_every_tool() {
    let reg = default_catalog();
    assert_eq!(reg.list().len(), 33);
    for name in [
        "code_cli",
        "code_cli_get_workdir",
        "code_cli_set_workdir",
        "code_cli_status",
        "send_message_to_channel",
        "execute_python",
        "install_package",
        "sandbox_read_file",
        "sandbox_write_file",
        "sandbox_list_files",
        "run_shell",
        "save_to_local",
        "list_local_files",
        "read_local_file",
        "delete_local_file",
        "download_from_sandbox",
        "upload_to_sandbox",
        "google_calendar_list_events",
        "google_calendar_create_event",
        "google_sheets_read",
        "google_sheets_write",
        "google_drive_list",
        "google_drive_download",
        "ors_list_notes",
        "ors_add_note",
        "ors_archive_note",
        "backup_now",
        "backup_list",
        "backup_status",
        "backup_schedule",
        "backup_config",
        "backup_destinations",
        "backup_delete_destination",
    ] {
        assert!(reg.lookup(name).is_some(), "missing operation {name}");
    }
}

#[test]
fn validation_rejects_missing_required_field() {
    let schema = Schema {
        fields: vec![
            FieldSpec { name: String::from("task"), ty: FieldType::Text, required: true },
            FieldSpec { name: String::from("workdir"), ty: FieldType::Text, required: false },
        ],
    };
    let r = validate(&schema, &obj(vec![("workdir", text("/tmp"))]));
    match r {
        Err(ValidationError::MissingField(n)) => assert_eq!(n, "task"),
        other => panic!("expected a missing-field error, got {:?}", other.is_ok()),
    }
}

#[test]
fn validation_accepts_required_and_welltyped_optional_fields() {
    let schema = Schema {
        fields: vec![
            FieldSpec { name: String::from("task"), ty: FieldType::Text, required: true },
            FieldSpec { name: String::from("workdir"), ty: FieldType::Text, required: false },
        ],
    };
    assert!(validate(&schema, &obj(vec![("task", text("do it"))])).is_ok());
    assert!(validate(
        &schema,
        &obj(vec![("task", text("do it")), ("workdir", text("/tmp"))]),
    )
    .is_ok());
    assert!(
        validate(&schema, &obj(vec![("task", text("do it")), ("extra", JsonVal::Null)])).is_ok(),
        "unknown fields are ignored"
    );
}

#[test]
fn validation_rejects_wrong_types() {
    let schema = Schema {
        fields: vec![
            FieldSpec { name: String::from("task"), ty: FieldType::Text, required: true },
            FieldSpec { name: String::from("limit"), ty: FieldType::Integer, required: false },
        ],
    };
    let r = validate(&schema, &obj(vec![("task", JsonVal::Int(3))]));
    assert!(matches!(r, Err(ValidationError::WrongType(_))));
    let r2 = validate(
        &schema,
        &obj(vec![("task", text("x")), ("limit", text("five"))]),
    );
    assert!(matches!(r2, Err(ValidationError::WrongType(_))));
    let r3 = validate(&schema, &JsonVal::Null);
    assert!(matches!(r3, Err(ValidationError::NotAnObject)));
}

#[test]
fn dispatch_of_unregistered_name_returns_failure_envelope() {
    let reg = default_catalog();
    let req = RequestEnvelope {
        name: String::from("does_not_exist"),
        payload: obj(vec![]),
    };
    match route(&reg, &req) {
        RouteOutcome::Rejected(Response::Failure(blocks)) => {
            assert_eq!(blocks.len(), 1);
            assert_eq!(blocks[0], "Unknown operation: does_not_exist");
        },
        _ => panic!("an unknown name must reject with a failure envelope"),
    }
}

#[test]
fn dispatch_of_invalid_payload_returns_failure_envelope() {
    let reg = default_catalog();
    let req = RequestEnvelope {
        name: String::from("code_cli"),
        payload: obj(vec![("workdir", text("/tmp"))]),
    };
    match route(&reg, &req) {
        RouteOutcome::Rejected(Response::Failure(blocks)) => {
            assert_eq!(blocks.len(), 1);
            assert_eq!(blocks[0], "Invalid parameters: missing required field 'task'");
        },
        _ => panic!("an invalid payload must reject with a failure envelope"),
    }
}

#[test]
fn dispatch_checks_each_operations_own_schema() {
    let reg = default_catalog();
    let req = RequestEnvelope {
        name: String::from("backup_schedule"),
        payload: obj(vec![("enabled", text("yes"))]),
    };
    match route(&reg, &req) {
        RouteOutcome::Rejected(Response::Failure(blocks)) => {
            assert_eq!(blocks[0], "Invalid parameters: wrong type for field 'enabled'");
        },
        _ => panic!("a mistyped flag must reject"),
    }
}

#[test]
fn dispatch_of_valid_request_is_ready_with_the_descriptor() {
    let reg = default_catalog();
    let req = RequestEnvelope {
        name: String::from("run_shell"),
        payload: obj(vec![("command", text("ls"))]),
    };
    match route(&reg, &req) {
        RouteOutcome::Ready(d) => assert!(matches!(d.op, OpKind::RunShell)),
        _ => panic!("a valid request must be ready to invoke"),
    }
}

#[test]
fn wrap_outcome_tags_success_and_failure() {
    match wrap_outcome(Ok(String::from("done"))) {
        Response::Success(blocks) => assert_eq!(blocks, vec![String::from("done")]),
        _ => panic!("an Ok outcome must wrap as success"),
    }
    match wrap_outcome(Err(String::from("broken"))) {
        Response::Failure(blocks) => assert_eq!(blocks, vec![String::from("broken")]),
        _ => panic!("an Err outcome must wrap as failure"),
    }
}

#[test]
fn schemas_render_for_discovery() {
    let schema = Schema {
        fields: vec![
            FieldSpec { name: String::from("task"), ty: FieldType::Text, required: true },
            FieldSpec { name: String::from("workdir"), ty: FieldType::Text, required: false },
        ],
    };
    assert_eq!(
        schema.to_json().to_text(),
        "{\"type\":\"object\",\"properties\":{\"task\":{\"type\":\"string\"},\"workdir\":{\"type\":\"string\"}},\"required\":[\"task\"]}"
    );
}

#[test]
fn typed_parameters_extract_from_validated_payloads() {
    let p = obj(vec![("task", text("fix it")), ("workdir", text("/tmp"))]);
    let x = CodeCliParams::from_payload(&p).expect("required field present");
    assert_eq!(x.task, "fix it");
    assert_eq!(x.workdir.as_deref(), Some("/tmp"));
    assert!(CodeCliParams::from_payload(&obj(vec![("workdir", text("/tmp"))])).is_none());
    let s = SaveFileParams::from_payload(&obj(vec![
        ("filename", text("a.txt")),
        ("content", text("hello")),
        ("user_id", text("u1")),
    ]))
    .unwrap();
    assert_eq!(s.filename, "a.txt");
    let c = CalendarListParams::from_payload(&obj(vec![
        ("user_id", text("u1")),
        ("max_results", JsonVal::Int(25)),
    ]))
    .unwrap();
    assert_eq!(c.max_results, Some(25));
    assert_eq!(c.calendar_id, None);
}
