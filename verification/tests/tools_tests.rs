//! The tool groups' planning and interpretation: subprocess plans,
//! sandbox calls, messaging, workspace URLs and the notes service.

use clara_mcp::code_cli::CodeCliTools;
use clara_mcp::discord::DiscordTools;
use clara_mcp::google::{
    calendar_create_body, calendar_create_response, calendar_create_url, calendar_list_url,
    calendar_list_url_at, drive_download_url, drive_list_url, invalid_values_message,
    passthrough_response, sheets_read_url, sheets_write_body, sheets_write_response,
    sheets_write_url, GoogleTools,
};
use clara_mcp::http::{HttpPlan, JsonFetch, Method, TextFetch};
use clara_mcp::json::JsonVal;
use clara_mcp::ors_notes::OrsNotesTools;
use clara_mcp::sandbox::{
    execute_python_body, install_package_body, list_files_body, read_file_body, run_shell_body,
    write_file_body, SandboxTools,
};

fn text(s: &str) -> JsonVal {
    JsonVal::Text(String::from(s))
}

fn obj(entries: Vec<(&str, JsonVal)>) -> JsonVal {
    JsonVal::Obj(entries.into_iter().map(|(k, v)| (String::from(k), v)).collect())
}

#[test]
fn cli_plan_carries_task_turns_and_directory() {
    let t = CodeCliTools::new(Some(String::from("/stored")));
    let plan = t.execute_plan("fix the bug", None, Some(String::from("12")));
    assert_eq!(plan.program, "coder");
    assert_eq!(plan.args, vec!["--print", "fix the bug", "--max-turns", "12"]);
    assert_eq!(plan.dir.as_deref(), Some("/stored"));
    let plan2 = t.execute_plan("fix", Some(String::from("/override")), None);
    assert_eq!(plan2.args, vec!["--print", "fix"]);
    assert_eq!(plan2.dir.as_deref(), Some("/override"));
}

#[test]
fn cli_outcomes_map_to_text_or_error() {
    let ok = CodeCliTools::execute_outcome(Ok((
        true,
        String::from("done\n"),
        String::from(""),
    )));
    assert_eq!(ok.unwrap(), "done\n");
    let failed = CodeCliTools::execute_outcome(Ok((
        false,
        String::from("partial"),
        String::from("crash"),
    )));
    assert_eq!(failed.unwrap_err(), "Code CLI failed: partial\ncrash");
    let spawn = CodeCliTools::execute_outcome(Err(String::from("no such file")));
    assert_eq!(spawn.unwrap_err(), "Failed to run Code CLI: no such file");
}

#[test]
fn workdir_is_set_only_for_existing_paths() {
    let mut t = CodeCliTools::new(Some(String::from("/start")));
    assert_eq!(t.get_workdir(), "/start");
    let err = t.set_workdir(String::from("/definitely/missing"), false).unwrap_err();
    assert!(err.contains("Path does not exist"));
    assert_eq!(t.get_workdir(), "/start", "a failed set leaves the state unchanged");
    let ok = t.set_workdir(String::from("/new"), true).unwrap();
    assert_eq!(ok, "Working directory set to: /new");
    assert_eq!(t.get_workdir(), "/new");
    let empty = CodeCliTools::new(None);
    assert_eq!(empty.get_workdir(), "Not set");
}

#[test]
fn status_report_trims_the_version() {
    let t = CodeCliTools::new(None);
    let up = t.status_report(Ok((true, String::from("  1.2.3\n"))));
    assert_eq!(up.unwrap(), "Code CLI: Available\nVersion: 1.2.3\nWorkdir: Not set");
    let unauth = t.status_report(Ok((false, String::from(""))));
    assert_eq!(unauth.unwrap_err(), "Code CLI not authenticated or configured");
    let missing = t.status_report(Err(String::from("spawn failed")));
    assert_eq!(missing.unwrap_err(), "Code CLI not installed");
}

#[test]
fn sandbox_requests_require_configuration() {
    let unconfigured = SandboxTools::new(None, None);
    let r = unconfigured.sandbox_request("/execute", execute_python_body(String::from("1+1")));
    assert_eq!(r.err().unwrap(), "SANDBOX_API_URL not configured");
    let configured = SandboxTools::new(
        Some(String::from("http://sandbox:9000")),
        Some(String::from("SECRET-REDACTED")),
    );
    let plan: HttpPlan = configured
        .sandbox_request("/shell", run_shell_body(String::from("ls")))
        .unwrap();
    assert!(matches!(plan.method, Method::Post));
    assert_eq!(plan.url, "http://sandbox:9000/shell");
    assert_eq!(plan.headers[0].0, "Content-Type");
    assert_eq!(plan.headers[1].0, "X-API-Key");
    assert_eq!(plan.body.unwrap().to_text(), "{\"command\":\"ls\"}");
}

#[test]
fn sandbox_bodies_carry_their_parameters() {
    assert_eq!(
        execute_python_body(String::from("print(1)")).to_text(),
        "{\"code\":\"print(1)\",\"language\":\"python\"}"
    );
    assert_eq!(install_package_body(String::from("numpy")).to_text(), "{\"package\":\"numpy\"}");
    assert_eq!(read_file_body(String::from("/a.txt")).to_text(), "{\"path\":\"/a.txt\"}");
    assert_eq!(
        write_file_body(String::from("/a.txt"), String::from("hi")).to_text(),
        "{\"path\":\"/a.txt\",\"content\":\"hi\"}"
    );
    assert_eq!(list_files_body(None).to_text(), "{\"path\":\"/home/user\"}");
    assert_eq!(
        list_files_body(Some(String::from("/tmp"))).to_text(),
        "{\"path\":\"/tmp\"}"
    );
}

#[test]
fn sandbox_replies_split_on_the_success_flag() {
    let ok = SandboxTools::sandbox_response(JsonFetch::Parsed(Ok(obj(vec![
        ("success", JsonVal::Bool(true)),
        ("output", text("42")),
    ]))));
    assert_eq!(ok.unwrap(), "42");
    let ok_empty = SandboxTools::sandbox_response(JsonFetch::Parsed(Ok(obj(vec![(
        "success",
        JsonVal::Bool(true),
    )]))));
    assert_eq!(ok_empty.unwrap(), "");
    let failed = SandboxTools::sandbox_response(JsonFetch::Parsed(Ok(obj(vec![
        ("success", JsonVal::Bool(false)),
        ("error", text("NameError")),
    ]))));
    assert_eq!(failed.unwrap_err(), "NameError");
    let failed_bare = SandboxTools::sandbox_response(JsonFetch::Parsed(Ok(obj(vec![(
        "success",
        JsonVal::Bool(false),
    )]))));
    assert_eq!(failed_bare.unwrap_err(), "Unknown error");
    let status = SandboxTools::sandbox_response(JsonFetch::HttpError(
        String::from("503"),
        String::from("overloaded"),
    ));
    assert_eq!(status.unwrap_err(), "Sandbox API error 503: overloaded");
    let transport = SandboxTools::sandbox_response(JsonFetch::ConnectError(String::from("down")));
    assert_eq!(transport.unwrap_err(), "Sandbox request failed: down");
    let undecodable = SandboxTools::sandbox_response(JsonFetch::Parsed(Ok(obj(vec![]))));
    assert!(undecodable.unwrap_err().contains("Failed to parse response"));
    let bad_output = SandboxTools::sandbox_response(JsonFetch::Parsed(Ok(obj(vec![
        ("success", JsonVal::Bool(true)),
        ("output", JsonVal::Int(7)),
    ]))));
    assert_eq!(bad_output.unwrap_err(), "Failed to parse response: unexpected shape");
    let bad_error = SandboxTools::sandbox_response(JsonFetch::Parsed(Ok(obj(vec![
        ("success", JsonVal::Bool(false)),
        ("error", JsonVal::Null),
    ]))));
    assert_eq!(bad_error.unwrap_err(), "Failed to parse response: unexpected shape");
}

#[test]
fn channel_messages_need_a_token_and_name_the_channel() {
    let no_token = DiscordTools::new(None);
    let r = no_token.send_message_request("123", String::from("hi"));
    assert_eq!(r.err().unwrap(), "DISCORD_BOT_TOKEN not set");
    let with_token = DiscordTools::new(Some(String::from("SECRET-REDACTED")));
    let plan = with_token.send_message_request("123", String::from("hi")).unwrap();
    assert_eq!(plan.url, "https://discord.com/api/v10/channels/123/messages");
    assert_eq!(plan.headers[0].0, "Authorization");
    assert!(plan.headers[0].1.starts_with("Bot "));
    assert_eq!(plan.body.unwrap().to_text(), "{\"content\":\"hi\"}");
    let sent = DiscordTools::send_message_response(
        "123",
        TextFetch::Response { ok: true, status: String::from("200"), body: Ok(String::new()) },
    );
    assert_eq!(sent.unwrap(), "Message sent to channel 123");
    let rejected = DiscordTools::send_message_response(
        "123",
        TextFetch::Response {
            ok: false,
            status: String::from("403 Forbidden"),
            body: Ok(String::from("missing access")),
        },
    );
    assert_eq!(rejected.unwrap_err(), "Discord API error 403 Forbidden: missing access");
}

#[test]
fn workspace_urls_carry_their_parameters() {
    let g = GoogleTools::new(String::from("http://localhost:8000"));
    assert_eq!(g.token_url("user7"), "http://localhost:8000/oauth/google/token/user7");
    assert_eq!(
        calendar_list_url_at(&None, None, "2025-01-01T00:00:00+00:00"),
        "https://www.googleapis.com/calendar/v3/calendars/primary/events?maxResults=10&singleEvents=true&orderBy=startTime&timeMin=2025-01-01T00:00:00+00:00"
    );
    assert_eq!(
        calendar_list_url_at(&Some(String::from("work")), Some(3), "T"),
        "https://www.googleapis.com/calendar/v3/calendars/work/events?maxResults=3&singleEvents=true&orderBy=startTime&timeMin=T"
    );
    let with_now = calendar_list_url(&None, None);
    assert!(with_now.starts_with(
        "https://www.googleapis.com/calendar/v3/calendars/primary/events?maxResults=10"
    ));
    assert!(with_now.contains("&timeMin="));
    assert_eq!(
        calendar_create_url(),
        "https://www.googleapis.com/calendar/v3/calendars/primary/events"
    );
    assert_eq!(
        sheets_read_url("sheet9", "A1:B2"),
        "https://sheets.googleapis.com/v4/spreadsheets/sheet9/values/A1:B2"
    );
    assert_eq!(
        sheets_write_url("sheet9", "A1:B2"),
        "https://sheets.googleapis.com/v4/spreadsheets/sheet9/values/A1:B2?valueInputOption=USER_ENTERED"
    );
    assert_eq!(
        drive_download_url("f42"),
        "https://www.googleapis.com/drive/v3/files/f42?alt=media"
    );
}

#[test]
fn drive_queries_are_percent_encoded() {
    assert_eq!(
        drive_list_url(&None),
        "https://www.googleapis.com/drive/v3/files?pageSize=20"
    );
    assert_eq!(
        drive_list_url(&Some(String::from("name contains 'report'"))),
        "https://www.googleapis.com/drive/v3/files?pageSize=20&q=name%20contains%20%27report%27"
    );
}

#[test]
fn token_replies_cover_every_outcome() {
    let ok = GoogleTools::token_response(JsonFetch::Parsed(Ok(obj(vec![(
        "access_token",
        text("tok"),
    )]))));
    assert_eq!(ok.unwrap(), "tok");
    let not_connected =
        GoogleTools::token_response(JsonFetch::HttpError(String::from("404"), String::new()));
    assert_eq!(
        not_connected.unwrap_err(),
        "Google account not connected. Use google_connect first."
    );
    let transport = GoogleTools::token_response(JsonFetch::ConnectError(String::from("dns")));
    assert_eq!(transport.unwrap_err(), "Failed to get token: dns");
    let bad = GoogleTools::token_response(JsonFetch::Parsed(Err(String::from("eof"))));
    assert_eq!(bad.unwrap_err(), "Failed to parse token: eof");
}

#[test]
fn event_bodies_and_replies_are_shaped_as_sent() {
    let body = calendar_create_body(
        String::from("Standup"),
        String::from("2025-01-01T09:00:00Z"),
        String::from("2025-01-01T09:15:00Z"),
        None,
    );
    assert_eq!(
        body.to_text(),
        "{\"summary\":\"Standup\",\"description\":\"\",\"start\":{\"dateTime\":\"2025-01-01T09:00:00Z\"},\"end\":{\"dateTime\":\"2025-01-01T09:15:00Z\"}}"
    );
    let created = calendar_create_response(
        "Standup",
        TextFetch::Response { ok: true, status: String::from("200"), body: Ok(String::new()) },
    );
    assert_eq!(created.unwrap(), "Created event: Standup");
    let wrote = sheets_write_response(
        "A1:B2",
        TextFetch::Response { ok: true, status: String::from("200"), body: Ok(String::new()) },
    );
    assert_eq!(wrote.unwrap(), "Wrote data to A1:B2");
    assert_eq!(
        sheets_write_body(JsonVal::Arr(vec![JsonVal::Arr(vec![text("a")])])).to_text(),
        "{\"values\":[[\"a\"]]}"
    );
    assert_eq!(invalid_values_message("expected value"), "Invalid JSON values: expected value");
    let passed = passthrough_response(
        "Drive API failed: ",
        TextFetch::Response {
            ok: true,
            status: String::from("200"),
            body: Ok(String::from("{\"files\":[]}")),
        },
    );
    assert_eq!(passed.unwrap(), "{\"files\":[]}");
    let down = passthrough_response("Drive API failed: ", TextFetch::ConnectError(String::from("x")));
    assert_eq!(down.unwrap_err(), "Drive API failed: x");
    let rejected = passthrough_response(
        "Drive API failed: ",
        TextFetch::Response {
            ok: false,
            status: String::from("403 Forbidden"),
            body: Ok(String::from("insufficient scope")),
        },
    );
    assert_eq!(rejected.unwrap_err(), "Drive API failed: 403 Forbidden - insufficient scope");
}

#[test]
fn notes_urls_bodies_and_replies_match_the_service() {
    let t = OrsNotesTools::new(String::from("http://localhost:8000"));
    assert_eq!(t.list_url("u1"), "http://localhost:8000/ors/notes/u1");
    assert_eq!(t.add_url(), "http://localhost:8000/ors/notes");
    assert_eq!(t.archive_url("n9"), "http://localhost:8000/ors/notes/n9/archive");
    assert_eq!(
        OrsNotesTools::add_body(String::from("u1"), String::from("likes tea"), None).to_text(),
        "{\"user_id\":\"u1\",\"content\":\"likes tea\",\"category\":\"general\"}"
    );
    let listed = OrsNotesTools::list_response(TextFetch::Response {
        ok: true,
        status: String::from("200"),
        body: Ok(String::from("[]")),
    });
    assert_eq!(listed.unwrap(), "[]");
    let rejected = OrsNotesTools::list_response(TextFetch::Response {
        ok: false,
        status: String::from("404 Not Found"),
        body: Ok(String::from("no such user")),
    });
    assert_eq!(rejected.unwrap_err(), "Failed to list notes: 404 Not Found - no such user");
    let added = OrsNotesTools::add_response(TextFetch::Response {
        ok: true,
        status: String::from("200"),
        body: Ok(String::new()),
    });
    assert_eq!(added.unwrap(), "Note added successfully.");
    let archived = OrsNotesTools::archive_response(TextFetch::Response {
        ok: true,
        status: String::from("200"),
        body: Ok(String::new()),
    });
    assert_eq!(archived.unwrap(), "Note archived.");
}

#[test]
fn disjoint_operations_give_the_same_results_in_either_order() {
    // One state-touching operation and one independent operation, run
    // in both orders: the independent result and the final state agree.
    let run_set_then_plan = || {
        let mut t = CodeCliTools::new(None);
        t.set_workdir(String::from("/w"), true).unwrap();
        let body = run_shell_body(String::from("ls"));
        (t.get_workdir(), body.to_text())
    };
    let run_plan_then_set = || {
        let mut t = CodeCliTools::new(None);
        let body = run_shell_body(String::from("ls"));
        t.set_workdir(String::from("/w"), true).unwrap();
        (t.get_workdir(), body.to_text())
    };
    assert_eq!(run_set_then_plan(), run_plan_then_set());
}
