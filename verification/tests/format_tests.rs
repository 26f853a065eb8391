//! Text shaping: serialization, numbers, sizes, sanitization, and the
//! backup reply formatters.

use clara_mcp::backup::{
    backup_now_response, format_backup_list, format_backup_now, format_destinations,
    format_size_full, format_size_mk, format_status, list_backups_response, set_schedule_body,
    BackupDestination, BackupEntry, BackupSchedule, BackupStatus, BackupTools,
};
use clara_mcp::http::JsonFetch;
use clara_mcp::json::JsonVal;
use clara_mcp::local_files::{
    downloaded_message, list_message, local_name_for, sanitize_filename, sandbox_dest,
    uploaded_message, LocalFilesTools,
};
use clara_mcp::text::{i32_to_string, join_strings, u64_to_string};

fn text(s: &str) -> JsonVal {
    JsonVal::Text(String::from(s))
}

fn obj(entries: Vec<(&str, JsonVal)>) -> JsonVal {
    JsonVal::Obj(entries.into_iter().map(|(k, v)| (String::from(k), v)).collect())
}

#[test]
fn numbers_render_in_decimal() {
    assert_eq!(u64_to_string(0), "0");
    assert_eq!(u64_to_string(7), "7");
    assert_eq!(u64_to_string(1048576), "1048576");
    assert_eq!(u64_to_string(u64::MAX), "18446744073709551615");
    assert_eq!(i32_to_string(10), "10");
    assert_eq!(i32_to_string(-5), "-5");
    assert_eq!(i32_to_string(i32::MIN), "-2147483648");
}

#[test]
fn join_inserts_separators_between_parts() {
    let parts = vec![String::from("a"), String::from("b"), String::from("c")];
    assert_eq!(join_strings(&parts, "&"), "a&b&c");
    assert_eq!(join_strings(&vec![], ","), "");
    assert_eq!(join_strings(&vec![String::from("only")], ","), "only");
}

#[test]
fn serialization_matches_the_standard_decoder() {
    let v = obj(vec![
        ("name", text("a\"b\nc")),
        ("count", JsonVal::Int(-42)),
        ("flag", JsonVal::Bool(true)),
        ("nothing", JsonVal::Null),
        ("items", JsonVal::Arr(vec![JsonVal::Int(1), text("two")])),
    ]);
    let rendered = v.to_text();
    let reparsed: serde_json::Value = serde_json::from_str(&rendered).expect("well-formed");
    let expected: serde_json::Value =
        serde_json::from_str("{\"name\":\"a\\\"b\\nc\",\"count\":-42,\"flag\":true,\"nothing\":null,\"items\":[1,\"two\"]}")
            .unwrap();
    assert_eq!(reparsed, expected);
}

#[test]
fn serialization_escapes_control_characters() {
    let v = text("tab\tcr\rbell\u{0007}");
    assert_eq!(v.to_text(), "\"tab\\tcr\\rbell\\u0007\"");
}

#[test]
fn sizes_render_with_two_truncated_decimals() {
    assert_eq!(format_size_full(800), "800 bytes");
    assert_eq!(format_size_full(1500), "1.46 KB");
    assert_eq!(format_size_full(2621440), "2.50 MB");
    assert_eq!(format_size_mk(500), "0.48 KB");
    assert_eq!(format_size_mk(5242880), "5.00 MB");
}

#[test]
fn sanitization_keeps_only_allowed_characters() {
    let s = sanitize_filename("../../etc/passwd");
    assert_eq!(s, "_.._etc_passwd");
    assert!(s.chars().all(|c| c.is_ascii_alphanumeric() || c == '.' || c == '-' || c == '_'));
    assert!(!s.starts_with('.'));
    assert_eq!(sanitize_filename("notes.txt"), "notes.txt");
    assert_eq!(sanitize_filename(".hidden"), "hidden");
    assert_eq!(sanitize_filename("...."), "");
    assert_eq!(sanitize_filename("a b:c"), "a_b_c");
    assert_eq!(sanitize_filename("café"), "caf_");
    assert_eq!(
        sanitize_filename("../../etc/passwd"),
        sanitize_filename("../../etc/passwd"),
        "sanitization is deterministic"
    );
}

#[test]
fn user_paths_are_separated_by_sanitized_identity() {
    let t = LocalFilesTools::new(String::from("/srv/files"));
    assert_eq!(t.user_dir("alice"), "/srv/files/alice");
    assert_eq!(t.file_path("notes.txt", "alice"), "/srv/files/alice/notes.txt");
    assert_ne!(t.user_dir("alice"), t.user_dir("bob"));
    assert!(!t.file_path("same.txt", "alice").starts_with(&format!("{}/", t.user_dir("bob"))));
}

#[test]
fn listing_text_shows_each_file_or_the_empty_note() {
    assert_eq!(list_message(&vec![]), "No files saved.");
    let files = vec![(String::from("a.txt"), 10u64), (String::from("b.bin"), 2048u64)];
    assert_eq!(
        list_message(&files),
        "**Saved Files:**\n- a.txt (10 bytes)\n- b.bin (2048 bytes)"
    );
}

#[test]
fn backup_now_urls_carry_exactly_the_given_filters() {
    let tools = BackupTools::new(String::from("http://localhost:8000"));
    assert_eq!(tools.backup_now_url(&None, &None), "http://localhost:8000/api/backup/now");
    assert_eq!(
        tools.backup_now_url(&Some(String::from("wasabi")), &None),
        "http://localhost:8000/api/backup/now?destination=wasabi"
    );
    assert_eq!(
        tools.backup_now_url(
            &Some(String::from("wasabi")),
            &Some(vec![String::from("clara"), String::from("mem0")]),
        ),
        "http://localhost:8000/api/backup/now?destination=wasabi&databases=clara,mem0"
    );
    assert_eq!(
        tools.list_backups_url(&None, &Some(String::from("clara")), Some(5)),
        "http://localhost:8000/api/backup/list?database=clara&limit=5"
    );
}

#[test]
fn backup_now_scenario_maps_success_body_to_text() {
    let reg = clara_mcp::catalog::default_catalog();
    assert!(reg.lookup("backup_now").is_some());
    let tools = BackupTools::new(String::from("http://localhost:8000"));
    let url = tools.backup_now_url(&None, &None);
    assert_eq!(url, "http://localhost:8000/api/backup/now", "no query parameters");
    let body = obj(vec![("status", text("success")), ("backup_id", text("abc"))]);
    let out = backup_now_response(JsonFetch::Parsed(Ok(body))).expect("success maps to Ok");
    assert!(out.contains("Backup success"));
    assert!(out.contains("Backup ID: abc"));
    assert_eq!(out, "Backup success\nBackup ID: abc\n");
}

#[test]
fn backup_now_reports_each_failure_kind() {
    let r = backup_now_response(JsonFetch::ConnectError(String::from("refused")));
    assert_eq!(r.unwrap_err(), "Failed to connect to backup service: refused");
    let r2 = backup_now_response(JsonFetch::HttpError(
        String::from("500 Internal Server Error"),
        String::from("boom"),
    ));
    assert_eq!(r2.unwrap_err(), "Backup failed: 500 Internal Server Error - boom");
    let r3 = backup_now_response(JsonFetch::Parsed(Err(String::from("bad json"))));
    assert_eq!(r3.unwrap(), "Backup triggered (response parse error: bad json)");
}

#[test]
fn backup_listing_formats_entries_and_details() {
    let data = obj(vec![(
        "backups",
        JsonVal::Arr(vec![obj(vec![
            ("name", text("daily-1")),
            ("database", text("clara")),
            ("timestamp", text("2025-01-01T03:00:00Z")),
            ("size_bytes", JsonVal::Int(2048)),
            ("destination", text("wasabi")),
        ])]),
    )]);
    assert_eq!(
        format_backup_list(&data),
        "Found 1 backup(s):\n\n- daily-1 (2025-01-01T03:00:00Z)\n  Database: clara\n  Size: 2.00 KB\n  Destination: wasabi\n\n"
    );
    assert_eq!(format_backup_list(&obj(vec![])), "No backups found.");
    let r = list_backups_response(JsonFetch::Parsed(Err(String::from("truncated"))));
    assert_eq!(r.unwrap_err(), "Failed to parse backup list: truncated");
}

#[test]
fn backup_entry_defaults_cover_absent_fields() {
    let e = BackupEntry::from_json(&obj(vec![("name", text("x"))]));
    assert_eq!(e.name, "x");
    assert_eq!(e.database, "unknown");
    assert_eq!(e.timestamp, "unknown");
    assert_eq!(e.size_bytes, 0);
    assert_eq!(e.destination, "default");
}

#[test]
fn status_report_includes_each_reported_section() {
    let data = obj(vec![
        ("last_backup", text("2025-01-01T03:00:00Z")),
        ("last_backup_size", JsonVal::Int(5242880)),
        ("last_error", text("")),
        ("total_backups", JsonVal::Int(12)),
        (
            "schedule",
            obj(vec![
                ("enabled", JsonVal::Bool(true)),
                ("cron", text("0 3 * * *")),
                ("retention_days", JsonVal::Int(14)),
            ]),
        ),
        (
            "destinations",
            JsonVal::Arr(vec![obj(vec![
                ("name", text("wasabi")),
                ("type", text("s3")),
                ("status", text("ok")),
            ])]),
        ),
    ]);
    assert_eq!(
        format_status(&data),
        "Backup Status:\n\nLast backup: 2025-01-01T03:00:00Z\nLast backup size: 5.00 MB\nTotal backups: 12\n\nSchedule:\n  Enabled: true\n  Cron: 0 3 * * *\n  Retention: 14 days\n\nConfigured destinations:\n  - wasabi (s3) - ok\n"
    );
    assert_eq!(format_status(&obj(vec![])), "Backup Status:\n\nLast backup: Never\n");
}

#[test]
fn schedule_body_serializes_only_given_fields() {
    let full = set_schedule_body(true, &Some(String::from("0 3 * * *")), Some(7));
    assert_eq!(full.to_text(), "{\"enabled\":true,\"cron\":\"0 3 * * *\",\"retention_days\":7}");
    let bare = set_schedule_body(false, &None, None);
    assert_eq!(bare.to_text(), "{\"enabled\":false}");
}

#[test]
fn destination_listing_shows_type_specific_details() {
    let data = obj(vec![(
        "destinations",
        JsonVal::Arr(vec![
            obj(vec![
                ("name", text("wasabi")),
                ("type", text("s3")),
                ("status", text("ok")),
                ("is_default", JsonVal::Bool(true)),
                ("config", obj(vec![("bucket", text("backups"))])),
            ]),
            obj(vec![
                ("name", text("ftp-box")),
                ("type", text("ftp")),
                ("status", text("ok")),
                (
                    "config",
                    obj(vec![("host", text("files.example")), ("use_sftp", JsonVal::Bool(true))]),
                ),
            ]),
        ]),
    )]);
    assert_eq!(
        format_destinations(&data),
        "Configured destinations (2):\n\n- wasabi (s3) [default]\n  Status: ok\n  Bucket: backups\n\n- ftp-box (ftp)\n  Status: ok\n  Host: files.example:21 (SFTP)\n\n"
    );
    assert_eq!(
        format_destinations(&obj(vec![])),
        "No destinations configured.\n\nUse backup_config to add a destination."
    );
}

#[test]
fn typed_schedule_and_status_read_their_objects() {
    let sched = BackupSchedule::from_json(&obj(vec![
        ("enabled", JsonVal::Bool(true)),
        ("cron", text("0 3 * * *")),
        ("retention_days", JsonVal::Int(14)),
        ("destinations", JsonVal::Arr(vec![text("wasabi"), JsonVal::Int(9), text("drive")])),
    ]));
    assert!(sched.enabled);
    assert_eq!(sched.cron, "0 3 * * *");
    assert_eq!(sched.retention_days, 14);
    assert_eq!(sched.destinations, vec!["wasabi", "drive"]);
    let status = BackupStatus::from_json(&obj(vec![
        ("last_backup", text("yesterday")),
        ("last_backup_size", JsonVal::Int(1024)),
        ("total_backups", JsonVal::Int(3)),
        ("schedule", obj(vec![("enabled", JsonVal::Bool(false))])),
    ]));
    assert_eq!(status.last_backup.as_deref(), Some("yesterday"));
    assert_eq!(status.last_backup_size, Some(1024));
    assert_eq!(status.last_error, None);
    assert_eq!(status.next_scheduled, None);
    assert_eq!(status.total_backups, 3);
    let inner = status.schedule.expect("schedule present");
    assert!(!inner.enabled);
    assert_eq!(inner.cron, "");
}

#[test]
fn destination_kinds_carry_their_service_tags() {
    let s3 = BackupDestination::S3 {
        bucket: String::from("backups"),
        endpoint_url: None,
        region: None,
        prefix: None,
    };
    assert_eq!(s3.kind_name(), "s3");
    let drive = BackupDestination::GoogleDrive { folder_id: None };
    assert_eq!(drive.kind_name(), "google_drive");
    let ftp = BackupDestination::Ftp {
        host: String::from("files.example"),
        port: Some(21),
        path: None,
        use_sftp: false,
    };
    assert_eq!(ftp.kind_name(), "ftp");
}

#[test]
fn sandbox_transfer_names_follow_the_path() {
    assert_eq!(local_name_for("/home/user/out.csv", None), "out.csv");
    assert_eq!(local_name_for("plain", None), "plain");
    assert_eq!(local_name_for("/dir/", None), "");
    assert_eq!(
        local_name_for("/home/user/out.csv", Some(String::from("kept.csv"))),
        "kept.csv"
    );
    assert_eq!(sandbox_dest("a.txt", None), "/home/user/a.txt");
    assert_eq!(sandbox_dest("a.txt", Some(String::from("/tmp/b.txt"))), "/tmp/b.txt");
    assert_eq!(downloaded_message("out.csv"), "Downloaded out.csv from sandbox");
    assert_eq!(uploaded_message("a.txt", "/tmp/b.txt"), "Uploaded a.txt to /tmp/b.txt");
}
