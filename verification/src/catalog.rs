//! The fixed operation catalog: every operation the dispatcher can
//! resolve, with its name, description, input schema and handler,
//! built once at startup and read-only afterwards.

use vstd::prelude::*;
use crate::registry::{Descriptor, OpKind, Registry, names_unique};
use crate::schema::{FieldSpec, FieldType, Schema};

verus! {

fn t(s: &str) -> (r: String)
    ensures
        r@ == s@,
{
    s.to_owned()
}

fn field(name: &str, ty: FieldType, required: bool) -> (r: FieldSpec)
    ensures
        r.name@ == name@,
        r.ty == ty,
        r.required == required,
{
    FieldSpec { name: t(name), ty, required }
}

fn entry(name: &str, description: &str, schema: Schema, op: OpKind) -> (r: Descriptor)
    ensures
        r.name@ == name@,
        r.description@ == description@,
        r.schema == schema,
        r.op == op,
{
    Descriptor { name: t(name), description: t(description), schema, op }
}

/// The name, shape and required flag of each field of a schema.
pub open spec fn fields_view(s: Schema) -> Seq<(Seq<char>, FieldType, bool)> {
    s.fields@.map_values(|f: FieldSpec| (f.name@, f.ty, f.required))
}

/// Which name resolves to which handler, position by position, in the
/// default catalog.
pub open spec fn catalog_names(s: Seq<Descriptor>) -> bool {
    &&& s.len() == 33
    &&& s[0].name@ == "code_cli"@ && s[0].op == OpKind::CodeCli
    &&& s[1].name@ == "code_cli_get_workdir"@ && s[1].op == OpKind::CodeCliGetWorkdir
    &&& s[2].name@ == "code_cli_set_workdir"@ && s[2].op == OpKind::CodeCliSetWorkdir
    &&& s[3].name@ == "code_cli_status"@ && s[3].op == OpKind::CodeCliStatus
    &&& s[4].name@ == "send_message_to_channel"@ && s[4].op == OpKind::SendMessageToChannel
    &&& s[5].name@ == "execute_python"@ && s[5].op == OpKind::ExecutePython
    &&& s[6].name@ == "install_package"@ && s[6].op == OpKind::InstallPackage
    &&& s[7].name@ == "sandbox_read_file"@ && s[7].op == OpKind::SandboxReadFile
    &&& s[8].name@ == "sandbox_write_file"@ && s[8].op == OpKind::SandboxWriteFile
    &&& s[9].name@ == "sandbox_list_files"@ && s[9].op == OpKind::SandboxListFiles
    &&& s[10].name@ == "run_shell"@ && s[10].op == OpKind::RunShell
    &&& s[11].name@ == "save_to_local"@ && s[11].op == OpKind::SaveToLocal
    &&& s[12].name@ == "list_local_files"@ && s[12].op == OpKind::ListLocalFiles
    &&& s[13].name@ == "read_local_file"@ && s[13].op == OpKind::ReadLocalFile
    &&& s[14].name@ == "delete_local_file"@ && s[14].op == OpKind::DeleteLocalFile
    &&& s[15].name@ == "download_from_sandbox"@ && s[15].op == OpKind::DownloadFromSandbox
    &&& s[16].name@ == "upload_to_sandbox"@ && s[16].op == OpKind::UploadToSandbox
    &&& s[17].name@ == "google_calendar_list_events"@ && s[17].op == OpKind::GoogleCalendarListEvents
    &&& s[18].name@ == "google_calendar_create_event"@ && s[18].op == OpKind::GoogleCalendarCreateEvent
    &&& s[19].name@ == "google_sheets_read"@ && s[19].op == OpKind::GoogleSheetsRead
    &&& s[20].name@ == "google_sheets_write"@ && s[20].op == OpKind::GoogleSheetsWrite
    &&& s[21].name@ == "google_drive_list"@ && s[21].op == OpKind::GoogleDriveList
    &&& s[22].name@ == "google_drive_download"@ && s[22].op == OpKind::GoogleDriveDownload
    &&& s[23].name@ == "ors_list_notes"@ && s[23].op == OpKind::OrsListNotes
    &&& s[24].name@ == "ors_add_note"@ && s[24].op == OpKind::OrsAddNote
    &&& s[25].name@ == "ors_archive_note"@ && s[25].op == OpKind::OrsArchiveNote
    &&& s[26].name@ == "backup_now"@ && s[26].op == OpKind::BackupNow
    &&& s[27].name@ == "backup_list"@ && s[27].op == OpKind::BackupList
    &&& s[28].name@ == "backup_status"@ && s[28].op == OpKind::BackupStatus
    &&& s[29].name@ == "backup_schedule"@ && s[29].op == OpKind::BackupSchedule
    &&& s[30].name@ == "backup_config"@ && s[30].op == OpKind::BackupConfig
    &&& s[31].name@ == "backup_destinations"@ && s[31].op == OpKind::BackupDestinations
    &&& s[32].name@ == "backup_delete_destination"@ && s[32].op == OpKind::BackupDeleteDestination
}

/// The input schema of each operation in the default catalog,
/// position by position: its fields' names, shapes and required
/// flags, in order.
pub open spec fn catalog_schemas(s: Seq<Descriptor>) -> bool {
    &&& s.len() == 33
    &&& fields_view(s[0].schema) == seq![("task"@, FieldType::Text, true), ("workdir"@, FieldType::Text, false)]
    &&& fields_view(s[1].schema) == Seq::<(Seq<char>, FieldType, bool)>::empty()
    &&& fields_view(s[2].schema) == seq![("path"@, FieldType::Text, true)]
    &&& fields_view(s[3].schema) == Seq::<(Seq<char>, FieldType, bool)>::empty()
    &&& fields_view(s[4].schema) == seq![("channel_id"@, FieldType::Text, true), ("message"@, FieldType::Text, true)]
    &&& fields_view(s[5].schema) == seq![("code"@, FieldType::Text, true)]
    &&& fields_view(s[6].schema) == seq![("package"@, FieldType::Text, true)]
    &&& fields_view(s[7].schema) == seq![("path"@, FieldType::Text, true)]
    &&& fields_view(s[8].schema) == seq![("path"@, FieldType::Text, true), ("content"@, FieldType::Text, true)]
    &&& fields_view(s[9].schema) == seq![("path"@, FieldType::Text, false)]
    &&& fields_view(s[10].schema) == seq![("command"@, FieldType::Text, true)]
    &&& fields_view(s[11].schema) == seq![("filename"@, FieldType::Text, true), ("content"@, FieldType::Text, true), ("user_id"@, FieldType::Text, true)]
    &&& fields_view(s[12].schema) == seq![("user_id"@, FieldType::Text, true)]
    &&& fields_view(s[13].schema) == seq![("filename"@, FieldType::Text, true), ("user_id"@, FieldType::Text, true)]
    &&& fields_view(s[14].schema) == seq![("filename"@, FieldType::Text, true), ("user_id"@, FieldType::Text, true)]
    &&& fields_view(s[15].schema) == seq![("sandbox_path"@, FieldType::Text, true), ("local_filename"@, FieldType::Text, false), ("user_id"@, FieldType::Text, true)]
    &&& fields_view(s[16].schema) == seq![("local_filename"@, FieldType::Text, true), ("sandbox_path"@, FieldType::Text, false), ("user_id"@, FieldType::Text, true)]
    &&& fields_view(s[17].schema) == seq![("user_id"@, FieldType::Text, true), ("calendar_id"@, FieldType::Text, false), ("max_results"@, FieldType::Integer, false)]
    &&& fields_view(s[18].schema) == seq![("user_id"@, FieldType::Text, true), ("title"@, FieldType::Text, true), ("start_time"@, FieldType::Text, true), ("end_time"@, FieldType::Text, true), ("description"@, FieldType::Text, false)]
    &&& fields_view(s[19].schema) == seq![("user_id"@, FieldType::Text, true), ("spreadsheet_id"@, FieldType::Text, true), ("range"@, FieldType::Text, true)]
    &&& fields_view(s[20].schema) == seq![("user_id"@, FieldType::Text, true), ("spreadsheet_id"@, FieldType::Text, true), ("range"@, FieldType::Text, true), ("values"@, FieldType::Text, true)]
    &&& fields_view(s[21].schema) == seq![("user_id"@, FieldType::Text, true), ("query"@, FieldType::Text, false)]
    &&& fields_view(s[22].schema) == seq![("user_id"@, FieldType::Text, true), ("file_id"@, FieldType::Text, true)]
    &&& fields_view(s[23].schema) == seq![("user_id"@, FieldType::Text, true)]
    &&& fields_view(s[24].schema) == seq![("user_id"@, FieldType::Text, true), ("content"@, FieldType::Text, true), ("category"@, FieldType::Text, false)]
    &&& fields_view(s[25].schema) == seq![("note_id"@, FieldType::Text, true)]
    &&& fields_view(s[26].schema) == seq![("destination"@, FieldType::Text, false), ("databases"@, FieldType::TextList, false)]
    &&& fields_view(s[27].schema) == seq![("destination"@, FieldType::Text, false), ("database"@, FieldType::Text, false), ("limit"@, FieldType::Integer, false)]
    &&& fields_view(s[28].schema) == Seq::<(Seq<char>, FieldType, bool)>::empty()
    &&& fields_view(s[29].schema) == seq![("enabled"@, FieldType::Boolean, true), ("cron"@, FieldType::Text, false), ("retention_days"@, FieldType::Integer, false)]
    &&& fields_view(s[30].schema) == seq![("name"@, FieldType::Text, true), ("type"@, FieldType::Text, true), ("config"@, FieldType::Object, true)]
    &&& fields_view(s[31].schema) == Seq::<(Seq<char>, FieldType, bool)>::empty()
    &&& fields_view(s[32].schema) == seq![("name"@, FieldType::Text, true)]
}

/// In the default catalog no two operations share a name.
#[verifier::rlimit(100)]
#[verifier::spinoff_prover]
proof fn lemma_catalog_unique(s: Seq<Descriptor>)
    requires
        catalog_names(s),
    ensures
        names_unique(s),
{
    reveal_strlit("code_cli");
    reveal_strlit("code_cli_get_workdir");
    reveal_strlit("code_cli_set_workdir");
    reveal_strlit("code_cli_status");
    reveal_strlit("send_message_to_channel");
    reveal_strlit("execute_python");
    reveal_strlit("install_package");
    reveal_strlit("sandbox_read_file");
    reveal_strlit("sandbox_write_file");
    reveal_strlit("sandbox_list_files");
    reveal_strlit("run_shell");
    reveal_strlit("save_to_local");
    reveal_strlit("list_local_files");
    reveal_strlit("read_local_file");
    reveal_strlit("delete_local_file");
    reveal_strlit("download_from_sandbox");
    reveal_strlit("upload_to_sandbox");
    reveal_strlit("google_calendar_list_events");
    reveal_strlit("google_calendar_create_event");
    reveal_strlit("google_sheets_read");
    reveal_strlit("google_sheets_write");
    reveal_strlit("google_drive_list");
    reveal_strlit("google_drive_download");
    reveal_strlit("ors_list_notes");
    reveal_strlit("ors_add_note");
    reveal_strlit("ors_archive_note");
    reveal_strlit("backup_now");
    reveal_strlit("backup_list");
    reveal_strlit("backup_status");
    reveal_strlit("backup_schedule");
    reveal_strlit("backup_config");
    reveal_strlit("backup_destinations");
    reveal_strlit("backup_delete_destination");
    assert("code_cli"@.len() == 8);
    assert("code_cli_get_workdir"@.len() == 20);
    assert("code_cli_set_workdir"@.len() == 20);
    assert("code_cli_status"@.len() == 15);
    assert("send_message_to_channel"@.len() == 23);
    assert("execute_python"@.len() == 14);
    assert("install_package"@.len() == 15);
    assert("sandbox_read_file"@.len() == 17);
    assert("sandbox_write_file"@.len() == 18);
    assert("sandbox_list_files"@.len() == 18);
    assert("run_shell"@.len() == 9);
    assert("save_to_local"@.len() == 13);
    assert("list_local_files"@.len() == 16);
    assert("read_local_file"@.len() == 15);
    assert("delete_local_file"@.len() == 17);
    assert("download_from_sandbox"@.len() == 21);
    assert("upload_to_sandbox"@.len() == 17);
    assert("google_calendar_list_events"@.len() == 27);
    assert("google_calendar_create_event"@.len() == 28);
    assert("google_sheets_read"@.len() == 18);
    assert("google_sheets_write"@.len() == 19);
    assert("google_drive_list"@.len() == 17);
    assert("google_drive_download"@.len() == 21);
    assert("ors_list_notes"@.len() == 14);
    assert("ors_add_note"@.len() == 12);
    assert("ors_archive_note"@.len() == 16);
    assert("backup_now"@.len() == 10);
    assert("backup_list"@.len() == 11);
    assert("backup_status"@.len() == 13);
    assert("backup_schedule"@.len() == 15);
    assert("backup_config"@.len() == 13);
    assert("backup_destinations"@.len() == 19);
    assert("backup_delete_destination"@.len() == 25);
    assert("code_cli_get_workdir"@[9] == 'g');
    assert("code_cli_set_workdir"@[9] == 's');
    assert("code_cli_get_workdir"@ != "code_cli_set_workdir"@);
    assert("code_cli_status"@[0] == 'c');
    assert("install_package"@[0] == 'i');
    assert("code_cli_status"@ != "install_package"@);
    assert("code_cli_status"@[0] == 'c');
    assert("read_local_file"@[0] == 'r');
    assert("code_cli_status"@ != "read_local_file"@);
    assert("code_cli_status"@[0] == 'c');
    assert("backup_schedule"@[0] == 'b');
    assert("code_cli_status"@ != "backup_schedule"@);
    assert("execute_python"@[0] == 'e');
    assert("ors_list_notes"@[0] == 'o');
    assert("execute_python"@ != "ors_list_notes"@);
    assert("install_package"@[0] == 'i');
    assert("read_local_file"@[0] == 'r');
    assert("install_package"@ != "read_local_file"@);
    assert("install_package"@[0] == 'i');
    assert("backup_schedule"@[0] == 'b');
    assert("install_package"@ != "backup_schedule"@);
    assert("sandbox_read_file"@[0] == 's');
    assert("delete_local_file"@[0] == 'd');
    assert("sandbox_read_file"@ != "delete_local_file"@);
    assert("sandbox_read_file"@[0] == 's');
    assert("upload_to_sandbox"@[0] == 'u');
    assert("sandbox_read_file"@ != "upload_to_sandbox"@);
    assert("sandbox_read_file"@[0] == 's');
    assert("google_drive_list"@[0] == 'g');
    assert("sandbox_read_file"@ != "google_drive_list"@);
    assert("sandbox_write_file"@[8] == 'w');
    assert("sandbox_list_files"@[8] == 'l');
    assert("sandbox_write_file"@ != "sandbox_list_files"@);
    assert("sandbox_write_file"@[0] == 's');
    assert("google_sheets_read"@[0] == 'g');
    assert("sandbox_write_file"@ != "google_sheets_read"@);
    assert("sandbox_list_files"@[0] == 's');
    assert("google_sheets_read"@[0] == 'g');
    assert("sandbox_list_files"@ != "google_sheets_read"@);
    assert("save_to_local"@[0] == 's');
    assert("backup_status"@[0] == 'b');
    assert("save_to_local"@ != "backup_status"@);
    assert("save_to_local"@[0] == 's');
    assert("backup_config"@[0] == 'b');
    assert("save_to_local"@ != "backup_config"@);
    assert("list_local_files"@[0] == 'l');
    assert("ors_archive_note"@[0] == 'o');
    assert("list_local_files"@ != "ors_archive_note"@);
    assert("read_local_file"@[0] == 'r');
    assert("backup_schedule"@[0] == 'b');
    assert("read_local_file"@ != "backup_schedule"@);
    assert("delete_local_file"@[0] == 'd');
    assert("upload_to_sandbox"@[0] == 'u');
    assert("delete_local_file"@ != "upload_to_sandbox"@);
    assert("delete_local_file"@[0] == 'd');
    assert("google_drive_list"@[0] == 'g');
    assert("delete_local_file"@ != "google_drive_list"@);
    assert("download_from_sandbox"@[0] == 'd');
    assert("google_drive_download"@[0] == 'g');
    assert("download_from_sandbox"@ != "google_drive_download"@);
    assert("upload_to_sandbox"@[0] == 'u');
    assert("google_drive_list"@[0] == 'g');
    assert("upload_to_sandbox"@ != "google_drive_list"@);
    assert("google_sheets_write"@[0] == 'g');
    assert("backup_destinations"@[0] == 'b');
    assert("google_sheets_write"@ != "backup_destinations"@);
    assert("backup_status"@[7] == 's');
    assert("backup_config"@[7] == 'c');
    assert("backup_status"@ != "backup_config"@);
    assert forall|i: int, j: int| 0 <= i < j < s.len() implies (#[trigger] s[i]).name@ != (
    #[trigger] s[j]).name@ by {}
}

/// The compiled-in catalog of every operation, in a well-formed
/// registry.
#[verifier::rlimit(100)]
#[verifier::spinoff_prover]
pub fn default_catalog() -> (r: Registry)
    ensures
        r.wf(),
        catalog_names(r@),
        catalog_schemas(r@),
{
    let mut items: Vec<Descriptor> = Vec::new();
    {
        let mut fs: Vec<FieldSpec> = Vec::new();
        fs.push(field("task", FieldType::Text, true));
        fs.push(field("workdir", FieldType::Text, false));
        items.push(entry(
            "code_cli",
            "Execute a coding task using Code CLI",
            Schema { fields: fs },
            OpKind::CodeCli,
        ));
        proof {
            assert(fields_view(items@[0].schema) =~~= seq![("task"@, FieldType::Text, true), ("workdir"@, FieldType::Text, false)]);
            assert(fields_view(items@[0].schema) == seq![("task"@, FieldType::Text, true), ("workdir"@, FieldType::Text, false)]);
        }
    }
    {
        let mut fs: Vec<FieldSpec> = Vec::new();
        items.push(entry(
            "code_cli_get_workdir",
            "Get the current working directory for Code CLI",
            Schema { fields: fs },
            OpKind::CodeCliGetWorkdir,
        ));
        proof {
            assert(fields_view(items@[1].schema) =~~= Seq::<(Seq<char>, FieldType, bool)>::empty());
            assert(fields_view(items@[1].schema) == Seq::<(Seq<char>, FieldType, bool)>::empty());
        }
    }
    {
        let mut fs: Vec<FieldSpec> = Vec::new();
        fs.push(field("path", FieldType::Text, true));
        items.push(entry(
            "code_cli_set_workdir",
            "Set the working directory for Code CLI",
            Schema { fields: fs },
            OpKind::CodeCliSetWorkdir,
        ));
        proof {
            assert(fields_view(items@[2].schema) =~~= seq![("path"@, FieldType::Text, true)]);
            assert(fields_view(items@[2].schema) == seq![("path"@, FieldType::Text, true)]);
        }
    }
    {
        let mut fs: Vec<FieldSpec> = Vec::new();
        items.push(entry(
            "code_cli_status",
            "Check Code CLI availability and status",
            Schema { fields: fs },
            OpKind::CodeCliStatus,
        ));
        proof {
            assert(fields_view(items@[3].schema) =~~= Seq::<(Seq<char>, FieldType, bool)>::empty());
            assert(fields_view(items@[3].schema) == Seq::<(Seq<char>, FieldType, bool)>::empty());
        }
    }
    {
        let mut fs: Vec<FieldSpec> = Vec::new();
        fs.push(field("channel_id", FieldType::Text, true));
        fs.push(field("message", FieldType::Text, true));
        items.push(entry(
            "send_message_to_channel",
            "Send a message to a Discord channel",
            Schema { fields: fs },
            OpKind::SendMessageToChannel,
        ));
        proof {
            assert(fields_view(items@[4].schema) =~~= seq![("channel_id"@, FieldType::Text, true), ("message"@, FieldType::Text, true)]);
            assert(fields_view(items@[4].schema) == seq![("channel_id"@, FieldType::Text, true), ("message"@, FieldType::Text, true)]);
        }
    }
    {
        let mut fs: Vec<FieldSpec> = Vec::new();
        fs.push(field("code", FieldType::Text, true));
        items.push(entry(
            "execute_python",
            "Execute Python code in a sandboxed environment",
            Schema { fields: fs },
            OpKind::ExecutePython,
        ));
        proof {
            assert(fields_view(items@[5].schema) =~~= seq![("code"@, FieldType::Text, true)]);
            assert(fields_view(items@[5].schema) == seq![("code"@, FieldType::Text, true)]);
        }
    }
    {
        let mut fs: Vec<FieldSpec> = Vec::new();
        fs.push(field("package", FieldType::Text, true));
        items.push(entry(
            "install_package",
            "Install a Python package in the sandbox",
            Schema { fields: fs },
            OpKind::InstallPackage,
        ));
        proof {
            assert(fields_view(items@[6].schema) =~~= seq![("package"@, FieldType::Text, true)]);
            assert(fields_view(items@[6].schema) == seq![("package"@, FieldType::Text, true)]);
        }
    }
    {
        let mut fs: Vec<FieldSpec> = Vec::new();
        fs.push(field("path", FieldType::Text, true));
        items.push(entry(
            "sandbox_read_file",
            "Read a file from the sandbox",
            Schema { fields: fs },
            OpKind::SandboxReadFile,
        ));
        proof {
            assert(fields_view(items@[7].schema) =~~= seq![("path"@, FieldType::Text, true)]);
            assert(fields_view(items@[7].schema) == seq![("path"@, FieldType::Text, true)]);
        }
    }
    {
        let mut fs: Vec<FieldSpec> = Vec::new();
        fs.push(field("path", FieldType::Text, true));
        fs.push(field("content", FieldType::Text, true));
        items.push(entry(
            "sandbox_write_file",
            "Write content to a file in the sandbox",
            Schema { fields: fs },
            OpKind::SandboxWriteFile,
        ));
        proof {
            assert(fields_view(items@[8].schema) =~~= seq![("path"@, FieldType::Text, true), ("content"@, FieldType::Text, true)]);
            assert(fields_view(items@[8].schema) == seq![("path"@, FieldType::Text, true), ("content"@, FieldType::Text, true)]);
        }
    }
    {
        let mut fs: Vec<FieldSpec> = Vec::new();
        fs.push(field("path", FieldType::Text, false));
        items.push(entry(
            "sandbox_list_files",
            "List files in a sandbox directory",
            Schema { fields: fs },
            OpKind::SandboxListFiles,
        ));
        proof {
            assert(fields_view(items@[9].schema) =~~= seq![("path"@, FieldType::Text, false)]);
            assert(fields_view(items@[9].schema) == seq![("path"@, FieldType::Text, false)]);
        }
    }
    {
        let mut fs: Vec<FieldSpec> = Vec::new();
        fs.push(field("command", FieldType::Text, true));
        items.push(entry(
            "run_shell",
            "Run a shell command in the sandbox",
            Schema { fields: fs },
            OpKind::RunShell,
        ));
        proof {
            assert(fields_view(items@[10].schema) =~~= seq![("command"@, FieldType::Text, true)]);
            assert(fields_view(items@[10].schema) == seq![("command"@, FieldType::Text, true)]);
        }
    }
    {
        let mut fs: Vec<FieldSpec> = Vec::new();
        fs.push(field("filename", FieldType::Text, true));
        fs.push(field("content", FieldType::Text, true));
        fs.push(field("user_id", FieldType::Text, true));
        items.push(entry(
            "save_to_local",
            "Save content to local file storage",
            Schema { fields: fs },
            OpKind::SaveToLocal,
        ));
        proof {
            assert(fields_view(items@[11].schema) =~~= seq![("filename"@, FieldType::Text, true), ("content"@, FieldType::Text, true), ("user_id"@, FieldType::Text, true)]);
            assert(fields_view(items@[11].schema) == seq![("filename"@, FieldType::Text, true), ("content"@, FieldType::Text, true), ("user_id"@, FieldType::Text, true)]);
        }
    }
    {
        let mut fs: Vec<FieldSpec> = Vec::new();
        fs.push(field("user_id", FieldType::Text, true));
        items.push(entry(
            "list_local_files",
            "List files in local storage for a user",
            Schema { fields: fs },
            OpKind::ListLocalFiles,
        ));
        proof {
            assert(fields_view(items@[12].schema) =~~= seq![("user_id"@, FieldType::Text, true)]);
            assert(fields_view(items@[12].schema) == seq![("user_id"@, FieldType::Text, true)]);
        }
    }
    {
        let mut fs: Vec<FieldSpec> = Vec::new();
        fs.push(field("filename", FieldType::Text, true));
        fs.push(field("user_id", FieldType::Text, true));
        items.push(entry(
            "read_local_file",
            "Read a file from local storage",
            Schema { fields: fs },
            OpKind::ReadLocalFile,
        ));
        proof {
            assert(fields_view(items@[13].schema) =~~= seq![("filename"@, FieldType::Text, true), ("user_id"@, FieldType::Text, true)]);
            assert(fields_view(items@[13].schema) == seq![("filename"@, FieldType::Text, true), ("user_id"@, FieldType::Text, true)]);
        }
    }
    {
        let mut fs: Vec<FieldSpec> = Vec::new();
        fs.push(field("filename", FieldType::Text, true));
        fs.push(field("user_id", FieldType::Text, true));
        items.push(entry(
            "delete_local_file",
            "Delete a file from local storage",
            Schema { fields: fs },
            OpKind::DeleteLocalFile,
        ));
        proof {
            assert(fields_view(items@[14].schema) =~~= seq![("filename"@, FieldType::Text, true), ("user_id"@, FieldType::Text, true)]);
            assert(fields_view(items@[14].schema) == seq![("filename"@, FieldType::Text, true), ("user_id"@, FieldType::Text, true)]);
        }
    }
    {
        let mut fs: Vec<FieldSpec> = Vec::new();
        fs.push(field("sandbox_path", FieldType::Text, true));
        fs.push(field("local_filename", FieldType::Text, false));
        fs.push(field("user_id", FieldType::Text, true));
        items.push(entry(
            "download_from_sandbox",
            "Download a file from sandbox to local storage",
            Schema { fields: fs },
            OpKind::DownloadFromSandbox,
        ));
        proof {
            assert(fields_view(items@[15].schema) =~~= seq![("sandbox_path"@, FieldType::Text, true), ("local_filename"@, FieldType::Text, false), ("user_id"@, FieldType::Text, true)]);
            assert(fields_view(items@[15].schema) == seq![("sandbox_path"@, FieldType::Text, true), ("local_filename"@, FieldType::Text, false), ("user_id"@, FieldType::Text, true)]);
        }
    }
    {
        let mut fs: Vec<FieldSpec> = Vec::new();
        fs.push(field("local_filename", FieldType::Text, true));
        fs.push(field("sandbox_path", FieldType::Text, false));
        fs.push(field("user_id", FieldType::Text, true));
        items.push(entry(
            "upload_to_sandbox",
            "Upload a file from local storage to sandbox",
            Schema { fields: fs },
            OpKind::UploadToSandbox,
        ));
        proof {
            assert(fields_view(items@[16].schema) =~~= seq![("local_filename"@, FieldType::Text, true), ("sandbox_path"@, FieldType::Text, false), ("user_id"@, FieldType::Text, true)]);
            assert(fields_view(items@[16].schema) == seq![("local_filename"@, FieldType::Text, true), ("sandbox_path"@, FieldType::Text, false), ("user_id"@, FieldType::Text, true)]);
        }
    }
    {
        let mut fs: Vec<FieldSpec> = Vec::new();
        fs.push(field("user_id", FieldType::Text, true));
        fs.push(field("calendar_id", FieldType::Text, false));
        fs.push(field("max_results", FieldType::Integer, false));
        items.push(entry(
            "google_calendar_list_events",
            "List upcoming Google Calendar events",
            Schema { fields: fs },
            OpKind::GoogleCalendarListEvents,
        ));
        proof {
            assert(fields_view(items@[17].schema) =~~= seq![("user_id"@, FieldType::Text, true), ("calendar_id"@, FieldType::Text, false), ("max_results"@, FieldType::Integer, false)]);
            assert(fields_view(items@[17].schema) == seq![("user_id"@, FieldType::Text, true), ("calendar_id"@, FieldType::Text, false), ("max_results"@, FieldType::Integer, false)]);
        }
    }
    {
        let mut fs: Vec<FieldSpec> = Vec::new();
        fs.push(field("user_id", FieldType::Text, true));
        fs.push(field("title", FieldType::Text, true));
        fs.push(field("start_time", FieldType::Text, true));
        fs.push(field("end_time", FieldType::Text, true));
        fs.push(field("description", FieldType::Text, false));
        items.push(entry(
            "google_calendar_create_event",
            "Create a Google Calendar event",
            Schema { fields: fs },
            OpKind::GoogleCalendarCreateEvent,
        ));
        proof {
            assert(fields_view(items@[18].schema) =~~= seq![("user_id"@, FieldType::Text, true), ("title"@, FieldType::Text, true), ("start_time"@, FieldType::Text, true), ("end_time"@, FieldType::Text, true), ("description"@, FieldType::Text, false)]);
            assert(fields_view(items@[18].schema) == seq![("user_id"@, FieldType::Text, true), ("title"@, FieldType::Text, true), ("start_time"@, FieldType::Text, true), ("end_time"@, FieldType::Text, true), ("description"@, FieldType::Text, false)]);
        }
    }
    {
        let mut fs: Vec<FieldSpec> = Vec::new();
        fs.push(field("user_id", FieldType::Text, true));
        fs.push(field("spreadsheet_id", FieldType::Text, true));
        fs.push(field("range", FieldType::Text, true));
        items.push(entry(
            "google_sheets_read",
            "Read data from a Google Sheets range",
            Schema { fields: fs },
            OpKind::GoogleSheetsRead,
        ));
        proof {
            assert(fields_view(items@[19].schema) =~~= seq![("user_id"@, FieldType::Text, true), ("spreadsheet_id"@, FieldType::Text, true), ("range"@, FieldType::Text, true)]);
            assert(fields_view(items@[19].schema) == seq![("user_id"@, FieldType::Text, true), ("spreadsheet_id"@, FieldType::Text, true), ("range"@, FieldType::Text, true)]);
        }
    }
    {
        let mut fs: Vec<FieldSpec> = Vec::new();
        fs.push(field("user_id", FieldType::Text, true));
        fs.push(field("spreadsheet_id", FieldType::Text, true));
        fs.push(field("range", FieldType::Text, true));
        fs.push(field("values", FieldType::Text, true));
        items.push(entry(
            "google_sheets_write",
            "Write data to a Google Sheets range",
            Schema { fields: fs },
            OpKind::GoogleSheetsWrite,
        ));
        proof {
            assert(fields_view(items@[20].schema) =~~= seq![("user_id"@, FieldType::Text, true), ("spreadsheet_id"@, FieldType::Text, true), ("range"@, FieldType::Text, true), ("values"@, FieldType::Text, true)]);
            assert(fields_view(items@[20].schema) == seq![("user_id"@, FieldType::Text, true), ("spreadsheet_id"@, FieldType::Text, true), ("range"@, FieldType::Text, true), ("values"@, FieldType::Text, true)]);
        }
    }
    {
        let mut fs: Vec<FieldSpec> = Vec::new();
        fs.push(field("user_id", FieldType::Text, true));
        fs.push(field("query", FieldType::Text, false));
        items.push(entry(
            "google_drive_list",
            "List files in Google Drive",
            Schema { fields: fs },
            OpKind::GoogleDriveList,
        ));
        proof {
            assert(fields_view(items@[21].schema) =~~= seq![("user_id"@, FieldType::Text, true), ("query"@, FieldType::Text, false)]);
            assert(fields_view(items@[21].schema) == seq![("user_id"@, FieldType::Text, true), ("query"@, FieldType::Text, false)]);
        }
    }
    {
        let mut fs: Vec<FieldSpec> = Vec::new();
        fs.push(field("user_id", FieldType::Text, true));
        fs.push(field("file_id", FieldType::Text, true));
        items.push(entry(
            "google_drive_download",
            "Download a file from Google Drive",
            Schema { fields: fs },
            OpKind::GoogleDriveDownload,
        ));
        proof {
            assert(fields_view(items@[22].schema) =~~= seq![("user_id"@, FieldType::Text, true), ("file_id"@, FieldType::Text, true)]);
            assert(fields_view(items@[22].schema) == seq![("user_id"@, FieldType::Text, true), ("file_id"@, FieldType::Text, true)]);
        }
    }
    {
        let mut fs: Vec<FieldSpec> = Vec::new();
        fs.push(field("user_id", FieldType::Text, true));
        items.push(entry(
            "ors_list_notes",
            "List ORS notes for a user",
            Schema { fields: fs },
            OpKind::OrsListNotes,
        ));
        proof {
            assert(fields_view(items@[23].schema) =~~= seq![("user_id"@, FieldType::Text, true)]);
            assert(fields_view(items@[23].schema) == seq![("user_id"@, FieldType::Text, true)]);
        }
    }
    {
        let mut fs: Vec<FieldSpec> = Vec::new();
        fs.push(field("user_id", FieldType::Text, true));
        fs.push(field("content", FieldType::Text, true));
        fs.push(field("category", FieldType::Text, false));
        items.push(entry(
            "ors_add_note",
            "Add an ORS note",
            Schema { fields: fs },
            OpKind::OrsAddNote,
        ));
        proof {
            assert(fields_view(items@[24].schema) =~~= seq![("user_id"@, FieldType::Text, true), ("content"@, FieldType::Text, true), ("category"@, FieldType::Text, false)]);
            assert(fields_view(items@[24].schema) == seq![("user_id"@, FieldType::Text, true), ("content"@, FieldType::Text, true), ("category"@, FieldType::Text, false)]);
        }
    }
    {
        let mut fs: Vec<FieldSpec> = Vec::new();
        fs.push(field("note_id", FieldType::Text, true));
        items.push(entry(
            "ors_archive_note",
            "Archive an ORS note",
            Schema { fields: fs },
            OpKind::OrsArchiveNote,
        ));
        proof {
            assert(fields_view(items@[25].schema) =~~= seq![("note_id"@, FieldType::Text, true)]);
            assert(fields_view(items@[25].schema) == seq![("note_id"@, FieldType::Text, true)]);
        }
    }
    {
        let mut fs: Vec<FieldSpec> = Vec::new();
        fs.push(field("destination", FieldType::Text, false));
        fs.push(field("databases", FieldType::TextList, false));
        items.push(entry(
            "backup_now",
            "Trigger an immediate database backup",
            Schema { fields: fs },
            OpKind::BackupNow,
        ));
        proof {
            assert(fields_view(items@[26].schema) =~~= seq![("destination"@, FieldType::Text, false), ("databases"@, FieldType::TextList, false)]);
            assert(fields_view(items@[26].schema) == seq![("destination"@, FieldType::Text, false), ("databases"@, FieldType::TextList, false)]);
        }
    }
    {
        let mut fs: Vec<FieldSpec> = Vec::new();
        fs.push(field("destination", FieldType::Text, false));
        fs.push(field("database", FieldType::Text, false));
        fs.push(field("limit", FieldType::Integer, false));
        items.push(entry(
            "backup_list",
            "List available backups",
            Schema { fields: fs },
            OpKind::BackupList,
        ));
        proof {
            assert(fields_view(items@[27].schema) =~~= seq![("destination"@, FieldType::Text, false), ("database"@, FieldType::Text, false), ("limit"@, FieldType::Integer, false)]);
            assert(fields_view(items@[27].schema) == seq![("destination"@, FieldType::Text, false), ("database"@, FieldType::Text, false), ("limit"@, FieldType::Integer, false)]);
        }
    }
    {
        let mut fs: Vec<FieldSpec> = Vec::new();
        items.push(entry(
            "backup_status",
            "Get backup status and schedule information",
            Schema { fields: fs },
            OpKind::BackupStatus,
        ));
        proof {
            assert(fields_view(items@[28].schema) =~~= Seq::<(Seq<char>, FieldType, bool)>::empty());
            assert(fields_view(items@[28].schema) == Seq::<(Seq<char>, FieldType, bool)>::empty());
        }
    }
    {
        let mut fs: Vec<FieldSpec> = Vec::new();
        fs.push(field("enabled", FieldType::Boolean, true));
        fs.push(field("cron", FieldType::Text, false));
        fs.push(field("retention_days", FieldType::Integer, false));
        items.push(entry(
            "backup_schedule",
            "Set the backup schedule",
            Schema { fields: fs },
            OpKind::BackupSchedule,
        ));
        proof {
            assert(fields_view(items@[29].schema) =~~= seq![("enabled"@, FieldType::Boolean, true), ("cron"@, FieldType::Text, false), ("retention_days"@, FieldType::Integer, false)]);
            assert(fields_view(items@[29].schema) == seq![("enabled"@, FieldType::Boolean, true), ("cron"@, FieldType::Text, false), ("retention_days"@, FieldType::Integer, false)]);
        }
    }
    {
        let mut fs: Vec<FieldSpec> = Vec::new();
        fs.push(field("name", FieldType::Text, true));
        fs.push(field("type", FieldType::Text, true));
        fs.push(field("config", FieldType::Object, true));
        items.push(entry(
            "backup_config",
            "Configure a backup storage destination",
            Schema { fields: fs },
            OpKind::BackupConfig,
        ));
        proof {
            assert(fields_view(items@[30].schema) =~~= seq![("name"@, FieldType::Text, true), ("type"@, FieldType::Text, true), ("config"@, FieldType::Object, true)]);
            assert(fields_view(items@[30].schema) == seq![("name"@, FieldType::Text, true), ("type"@, FieldType::Text, true), ("config"@, FieldType::Object, true)]);
        }
    }
    {
        let mut fs: Vec<FieldSpec> = Vec::new();
        items.push(entry(
            "backup_destinations",
            "List configured backup destinations",
            Schema { fields: fs },
            OpKind::BackupDestinations,
        ));
        proof {
            assert(fields_view(items@[31].schema) =~~= Seq::<(Seq<char>, FieldType, bool)>::empty());
            assert(fields_view(items@[31].schema) == Seq::<(Seq<char>, FieldType, bool)>::empty());
        }
    }
    {
        let mut fs: Vec<FieldSpec> = Vec::new();
        fs.push(field("name", FieldType::Text, true));
        items.push(entry(
            "backup_delete_destination",
            "Delete a backup destination",
            Schema { fields: fs },
            OpKind::BackupDeleteDestination,
        ));
        proof {
            assert(fields_view(items@[32].schema) =~~= seq![("name"@, FieldType::Text, true)]);
            assert(fields_view(items@[32].schema) == seq![("name"@, FieldType::Text, true)]);
        }
    }
    proof {
        reveal_strlit("code_cli");
        reveal_strlit("code_cli_get_workdir");
        reveal_strlit("code_cli_set_workdir");
        reveal_strlit("code_cli_status");
        reveal_strlit("send_message_to_channel");
        reveal_strlit("execute_python");
        reveal_strlit("install_package");
        reveal_strlit("sandbox_read_file");
        reveal_strlit("sandbox_write_file");
        reveal_strlit("sandbox_list_files");
        reveal_strlit("run_shell");
        reveal_strlit("save_to_local");
        reveal_strlit("list_local_files");
        reveal_strlit("read_local_file");
        reveal_strlit("delete_local_file");
        reveal_strlit("download_from_sandbox");
        reveal_strlit("upload_to_sandbox");
        reveal_strlit("google_calendar_list_events");
        reveal_strlit("google_calendar_create_event");
        reveal_strlit("google_sheets_read");
        reveal_strlit("google_sheets_write");
        reveal_strlit("google_drive_list");
        reveal_strlit("google_drive_download");
        reveal_strlit("ors_list_notes");
        reveal_strlit("ors_add_note");
        reveal_strlit("ors_archive_note");
        reveal_strlit("backup_now");
        reveal_strlit("backup_list");
        reveal_strlit("backup_status");
        reveal_strlit("backup_schedule");
        reveal_strlit("backup_config");
        reveal_strlit("backup_destinations");
        reveal_strlit("backup_delete_destination");
        assert(catalog_names(items@));
        assert(catalog_schemas(items@));
        lemma_catalog_unique(items@);
    }
    Registry::from_items(items)
}

} // verus!
