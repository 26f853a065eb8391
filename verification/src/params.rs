//! Typed parameter values, one per operation shape: the fields an
//! operation reads from its validated payload, extracted once at the
//! dispatch boundary.  Extraction succeeds exactly when every required
//! field is present as text; optional fields carry over when present
//! and well shaped.

use vstd::prelude::*;
use crate::json::{JsonVal, get_spec, get_text_spec, opt_text_view};

verus! {

/// The optional signed 32-bit reading of the value bound to `key`:
/// present only for an integer in range.
pub open spec fn opt_i32_spec(v: JsonVal, key: Seq<char>) -> Option<i32> {
    match get_spec(v, key) {
        Some(JsonVal::Int(i)) => if -2147483648 <= i && i <= 2147483647 {
            Some(i as i32)
        } else {
            None
        },
        _ => None,
    }
}

/// The optional unsigned 32-bit reading of the value bound to `key`:
/// present only for an integer in range.
pub open spec fn opt_u32_spec(v: JsonVal, key: Seq<char>) -> Option<u32> {
    match get_spec(v, key) {
        Some(JsonVal::Int(i)) => if 0 <= i && i <= 4294967295 {
            Some(i as u32)
        } else {
            None
        },
        _ => None,
    }
}

/// Reads the optional unsigned 32-bit value bound to `key`.
pub fn opt_u32(v: &JsonVal, key: &str) -> (r: Option<u32>)
    ensures
        r == opt_u32_spec(*v, key@),
{
    match v.get(key) {
        Some(w) => match w {
            JsonVal::Int(i) => {
                if 0 <= *i && *i <= 4294967295 {
                    Some(*i as u32)
                } else {
                    None
                }
            },
            _ => None,
        },
        None => None,
    }
}

fn opt_i32(v: &JsonVal, key: &str) -> (r: Option<i32>)
    ensures
        r == opt_i32_spec(*v, key@),
{
    match v.get(key) {
        Some(w) => match w {
            JsonVal::Int(i) => {
                if -2147483648 <= *i && *i <= 2147483647 {
                    Some(*i as i32)
                } else {
                    None
                }
            },
            _ => None,
        },
        None => None,
    }
}

/// A coding task and its optional working directory.
pub struct CodeCliParams {
    pub task: String,
    pub workdir: Option<String>,
}

impl CodeCliParams {
    /// Reads the fields from a payload: the value exists exactly when
    /// every required field is present as text.
    pub fn from_payload(p: &JsonVal) -> (r: Option<Self>)
        ensures
            r is Some <==> (get_text_spec(*p, "task"@) is Some),
            match r {
                Some(x) => get_text_spec(*p, "task"@) == Some(x.task@)
                    && opt_text_view(x.workdir) == get_text_spec(*p, "workdir"@),
                None => true,
            },
    {
        let task: String = match p.get_text("task") {
            Some(t) => t.clone(),
            None => { return None; },
        };
        let workdir: Option<String> = match p.get_text("workdir") {
            Some(t) => Some(t.clone()),
            None => None,
        };
        Some(CodeCliParams { task, workdir })
    }
}

/// A working-directory path.
pub struct WorkdirParams {
    pub path: String,
}

impl WorkdirParams {
    /// Reads the fields from a payload: the value exists exactly when
    /// every required field is present as text.
    pub fn from_payload(p: &JsonVal) -> (r: Option<Self>)
        ensures
            r is Some <==> (get_text_spec(*p, "path"@) is Some),
            match r {
                Some(x) => get_text_spec(*p, "path"@) == Some(x.path@),
                None => true,
            },
    {
        let path: String = match p.get_text("path") {
            Some(t) => t.clone(),
            None => { return None; },
        };
        Some(WorkdirParams { path })
    }
}

/// A channel and the message to send to it.
pub struct ChannelMessageParams {
    pub channel_id: String,
    pub message: String,
}

impl ChannelMessageParams {
    /// Reads the fields from a payload: the value exists exactly when
    /// every required field is present as text.
    pub fn from_payload(p: &JsonVal) -> (r: Option<Self>)
        ensures
            r is Some <==> (get_text_spec(*p, "channel_id"@) is Some && get_text_spec(*p, "message"@) is Some),
            match r {
                Some(x) => get_text_spec(*p, "channel_id"@) == Some(x.channel_id@)
                    && get_text_spec(*p, "message"@) == Some(x.message@),
                None => true,
            },
    {
        let channel_id: String = match p.get_text("channel_id") {
            Some(t) => t.clone(),
            None => { return None; },
        };
        let message: String = match p.get_text("message") {
            Some(t) => t.clone(),
            None => { return None; },
        };
        Some(ChannelMessageParams { channel_id, message })
    }
}

/// Code to execute.
pub struct CodeParams {
    pub code: String,
}

impl CodeParams {
    /// Reads the fields from a payload: the value exists exactly when
    /// every required field is present as text.
    pub fn from_payload(p: &JsonVal) -> (r: Option<Self>)
        ensures
            r is Some <==> (get_text_spec(*p, "code"@) is Some),
            match r {
                Some(x) => get_text_spec(*p, "code"@) == Some(x.code@),
                None => true,
            },
    {
        let code: String = match p.get_text("code") {
            Some(t) => t.clone(),
            None => { return None; },
        };
        Some(CodeParams { code })
    }
}

/// A package name to install.
pub struct PackageParams {
    pub package: String,
}

impl PackageParams {
    /// Reads the fields from a payload: the value exists exactly when
    /// every required field is present as text.
    pub fn from_payload(p: &JsonVal) -> (r: Option<Self>)
        ensures
            r is Some <==> (get_text_spec(*p, "package"@) is Some),
            match r {
                Some(x) => get_text_spec(*p, "package"@) == Some(x.package@),
                None => true,
            },
    {
        let package: String = match p.get_text("package") {
            Some(t) => t.clone(),
            None => { return None; },
        };
        Some(PackageParams { package })
    }
}

/// A file or directory path.
pub struct PathParams {
    pub path: String,
}

impl PathParams {
    /// Reads the fields from a payload: the value exists exactly when
    /// every required field is present as text.
    pub fn from_payload(p: &JsonVal) -> (r: Option<Self>)
        ensures
            r is Some <==> (get_text_spec(*p, "path"@) is Some),
            match r {
                Some(x) => get_text_spec(*p, "path"@) == Some(x.path@),
                None => true,
            },
    {
        let path: String = match p.get_text("path") {
            Some(t) => t.clone(),
            None => { return None; },
        };
        Some(PathParams { path })
    }
}

/// A path and the content to write there.
pub struct WriteFileParams {
    pub path: String,
    pub content: String,
}

impl WriteFileParams {
    /// Reads the fields from a payload: the value exists exactly when
    /// every required field is present as text.
    pub fn from_payload(p: &JsonVal) -> (r: Option<Self>)
        ensures
            r is Some <==> (get_text_spec(*p, "path"@) is Some && get_text_spec(*p, "content"@) is Some),
            match r {
                Some(x) => get_text_spec(*p, "path"@) == Some(x.path@)
                    && get_text_spec(*p, "content"@) == Some(x.content@),
                None => true,
            },
    {
        let path: String = match p.get_text("path") {
            Some(t) => t.clone(),
            None => { return None; },
        };
        let content: String = match p.get_text("content") {
            Some(t) => t.clone(),
            None => { return None; },
        };
        Some(WriteFileParams { path, content })
    }
}

/// An optional directory path.
pub struct ListFilesParams {
    pub path: Option<String>,
}

impl ListFilesParams {
    /// Reads the fields from a payload: the value exists exactly when
    /// every required field is present as text.
    pub fn from_payload(p: &JsonVal) -> (r: Option<Self>)
        ensures
            r is Some <==> (true),
            match r {
                Some(x) => opt_text_view(x.path) == get_text_spec(*p, "path"@),
                None => true,
            },
    {
        let path: Option<String> = match p.get_text("path") {
            Some(t) => Some(t.clone()),
            None => None,
        };
        Some(ListFilesParams { path })
    }
}

/// A shell command.
pub struct ShellParams {
    pub command: String,
}

impl ShellParams {
    /// Reads the fields from a payload: the value exists exactly when
    /// every required field is present as text.
    pub fn from_payload(p: &JsonVal) -> (r: Option<Self>)
        ensures
            r is Some <==> (get_text_spec(*p, "command"@) is Some),
            match r {
                Some(x) => get_text_spec(*p, "command"@) == Some(x.command@),
                None => true,
            },
    {
        let command: String = match p.get_text("command") {
            Some(t) => t.clone(),
            None => { return None; },
        };
        Some(ShellParams { command })
    }
}

/// A stored filename and its owner.
pub struct LocalFileParams {
    pub filename: String,
    pub user_id: String,
}

impl LocalFileParams {
    /// Reads the fields from a payload: the value exists exactly when
    /// every required field is present as text.
    pub fn from_payload(p: &JsonVal) -> (r: Option<Self>)
        ensures
            r is Some <==> (get_text_spec(*p, "filename"@) is Some && get_text_spec(*p, "user_id"@) is Some),
            match r {
                Some(x) => get_text_spec(*p, "filename"@) == Some(x.filename@)
                    && get_text_spec(*p, "user_id"@) == Some(x.user_id@),
                None => true,
            },
    {
        let filename: String = match p.get_text("filename") {
            Some(t) => t.clone(),
            None => { return None; },
        };
        let user_id: String = match p.get_text("user_id") {
            Some(t) => t.clone(),
            None => { return None; },
        };
        Some(LocalFileParams { filename, user_id })
    }
}

/// A filename, its content, and its owner.
pub struct SaveFileParams {
    pub filename: String,
    pub content: String,
    pub user_id: String,
}

impl SaveFileParams {
    /// Reads the fields from a payload: the value exists exactly when
    /// every required field is present as text.
    pub fn from_payload(p: &JsonVal) -> (r: Option<Self>)
        ensures
            r is Some <==> (get_text_spec(*p, "filename"@) is Some && get_text_spec(*p, "content"@) is Some && get_text_spec(*p, "user_id"@) is Some),
            match r {
                Some(x) => get_text_spec(*p, "filename"@) == Some(x.filename@)
                    && get_text_spec(*p, "content"@) == Some(x.content@)
                    && get_text_spec(*p, "user_id"@) == Some(x.user_id@),
                None => true,
            },
    {
        let filename: String = match p.get_text("filename") {
            Some(t) => t.clone(),
            None => { return None; },
        };
        let content: String = match p.get_text("content") {
            Some(t) => t.clone(),
            None => { return None; },
        };
        let user_id: String = match p.get_text("user_id") {
            Some(t) => t.clone(),
            None => { return None; },
        };
        Some(SaveFileParams { filename, content, user_id })
    }
}

/// A user identity.
pub struct UserIdParams {
    pub user_id: String,
}

impl UserIdParams {
    /// Reads the fields from a payload: the value exists exactly when
    /// every required field is present as text.
    pub fn from_payload(p: &JsonVal) -> (r: Option<Self>)
        ensures
            r is Some <==> (get_text_spec(*p, "user_id"@) is Some),
            match r {
                Some(x) => get_text_spec(*p, "user_id"@) == Some(x.user_id@),
                None => true,
            },
    {
        let user_id: String = match p.get_text("user_id") {
            Some(t) => t.clone(),
            None => { return None; },
        };
        Some(UserIdParams { user_id })
    }
}

/// A sandbox path, an optional local name, and the owner.
pub struct DownloadFromSandboxParams {
    pub sandbox_path: String,
    pub local_filename: Option<String>,
    pub user_id: String,
}

impl DownloadFromSandboxParams {
    /// Reads the fields from a payload: the value exists exactly when
    /// every required field is present as text.
    pub fn from_payload(p: &JsonVal) -> (r: Option<Self>)
        ensures
            r is Some <==> (get_text_spec(*p, "sandbox_path"@) is Some && get_text_spec(*p, "user_id"@) is Some),
            match r {
                Some(x) => get_text_spec(*p, "sandbox_path"@) == Some(x.sandbox_path@)
                    && opt_text_view(x.local_filename) == get_text_spec(*p, "local_filename"@)
                    && get_text_spec(*p, "user_id"@) == Some(x.user_id@),
                None => true,
            },
    {
        let sandbox_path: String = match p.get_text("sandbox_path") {
            Some(t) => t.clone(),
            None => { return None; },
        };
        let local_filename: Option<String> = match p.get_text("local_filename") {
            Some(t) => Some(t.clone()),
            None => None,
        };
        let user_id: String = match p.get_text("user_id") {
            Some(t) => t.clone(),
            None => { return None; },
        };
        Some(DownloadFromSandboxParams { sandbox_path, local_filename, user_id })
    }
}

/// A local name, an optional sandbox destination, and the owner.
pub struct UploadToSandboxParams {
    pub local_filename: String,
    pub sandbox_path: Option<String>,
    pub user_id: String,
}

impl UploadToSandboxParams {
    /// Reads the fields from a payload: the value exists exactly when
    /// every required field is present as text.
    pub fn from_payload(p: &JsonVal) -> (r: Option<Self>)
        ensures
            r is Some <==> (get_text_spec(*p, "local_filename"@) is Some && get_text_spec(*p, "user_id"@) is Some),
            match r {
                Some(x) => get_text_spec(*p, "local_filename"@) == Some(x.local_filename@)
                    && opt_text_view(x.sandbox_path) == get_text_spec(*p, "sandbox_path"@)
                    && get_text_spec(*p, "user_id"@) == Some(x.user_id@),
                None => true,
            },
    {
        let local_filename: String = match p.get_text("local_filename") {
            Some(t) => t.clone(),
            None => { return None; },
        };
        let sandbox_path: Option<String> = match p.get_text("sandbox_path") {
            Some(t) => Some(t.clone()),
            None => None,
        };
        let user_id: String = match p.get_text("user_id") {
            Some(t) => t.clone(),
            None => { return None; },
        };
        Some(UploadToSandboxParams { local_filename, sandbox_path, user_id })
    }
}

/// A user, an optional calendar, and an optional result limit.
pub struct CalendarListParams {
    pub user_id: String,
    pub calendar_id: Option<String>,
    pub max_results: Option<i32>,
}

impl CalendarListParams {
    /// Reads the fields from a payload: the value exists exactly when
    /// every required field is present as text.
    pub fn from_payload(p: &JsonVal) -> (r: Option<Self>)
        ensures
            r is Some <==> (get_text_spec(*p, "user_id"@) is Some),
            match r {
                Some(x) => get_text_spec(*p, "user_id"@) == Some(x.user_id@)
                    && opt_text_view(x.calendar_id) == get_text_spec(*p, "calendar_id"@)
                    && x.max_results == opt_i32_spec(*p, "max_results"@),
                None => true,
            },
    {
        let user_id: String = match p.get_text("user_id") {
            Some(t) => t.clone(),
            None => { return None; },
        };
        let calendar_id: Option<String> = match p.get_text("calendar_id") {
            Some(t) => Some(t.clone()),
            None => None,
        };
        let max_results: Option<i32> = opt_i32(p, "max_results");
        Some(CalendarListParams { user_id, calendar_id, max_results })
    }
}

/// A user and the event to create.
pub struct CalendarCreateParams {
    pub user_id: String,
    pub title: String,
    pub start_time: String,
    pub end_time: String,
    pub description: Option<String>,
}

impl CalendarCreateParams {
    /// Reads the fields from a payload: the value exists exactly when
    /// every required field is present as text.
    pub fn from_payload(p: &JsonVal) -> (r: Option<Self>)
        ensures
            r is Some <==> (get_text_spec(*p, "user_id"@) is Some && get_text_spec(*p, "title"@) is Some && get_text_spec(*p, "start_time"@) is Some && get_text_spec(*p, "end_time"@) is Some),
            match r {
                Some(x) => get_text_spec(*p, "user_id"@) == Some(x.user_id@)
                    && get_text_spec(*p, "title"@) == Some(x.title@)
                    && get_text_spec(*p, "start_time"@) == Some(x.start_time@)
                    && get_text_spec(*p, "end_time"@) == Some(x.end_time@)
                    && opt_text_view(x.description) == get_text_spec(*p, "description"@),
                None => true,
            },
    {
        let user_id: String = match p.get_text("user_id") {
            Some(t) => t.clone(),
            None => { return None; },
        };
        let title: String = match p.get_text("title") {
            Some(t) => t.clone(),
            None => { return None; },
        };
        let start_time: String = match p.get_text("start_time") {
            Some(t) => t.clone(),
            None => { return None; },
        };
        let end_time: String = match p.get_text("end_time") {
            Some(t) => t.clone(),
            None => { return None; },
        };
        let description: Option<String> = match p.get_text("description") {
            Some(t) => Some(t.clone()),
            None => None,
        };
        Some(CalendarCreateParams { user_id, title, start_time, end_time, description })
    }
}

/// A user, a spreadsheet, and the range to read.
pub struct SheetsReadParams {
    pub user_id: String,
    pub spreadsheet_id: String,
    pub range: String,
}

impl SheetsReadParams {
    /// Reads the fields from a payload: the value exists exactly when
    /// every required field is present as text.
    pub fn from_payload(p: &JsonVal) -> (r: Option<Self>)
        ensures
            r is Some <==> (get_text_spec(*p, "user_id"@) is Some && get_text_spec(*p, "spreadsheet_id"@) is Some && get_text_spec(*p, "range"@) is Some),
            match r {
                Some(x) => get_text_spec(*p, "user_id"@) == Some(x.user_id@)
                    && get_text_spec(*p, "spreadsheet_id"@) == Some(x.spreadsheet_id@)
                    && get_text_spec(*p, "range"@) == Some(x.range@),
                None => true,
            },
    {
        let user_id: String = match p.get_text("user_id") {
            Some(t) => t.clone(),
            None => { return None; },
        };
        let spreadsheet_id: String = match p.get_text("spreadsheet_id") {
            Some(t) => t.clone(),
            None => { return None; },
        };
        let range: String = match p.get_text("range") {
            Some(t) => t.clone(),
            None => { return None; },
        };
        Some(SheetsReadParams { user_id, spreadsheet_id, range })
    }
}

/// A user, a spreadsheet, a range, and the values to write.
pub struct SheetsWriteParams {
    pub user_id: String,
    pub spreadsheet_id: String,
    pub range: String,
    pub values: String,
}

impl SheetsWriteParams {
    /// Reads the fields from a payload: the value exists exactly when
    /// every required field is present as text.
    pub fn from_payload(p: &JsonVal) -> (r: Option<Self>)
        ensures
            r is Some <==> (get_text_spec(*p, "user_id"@) is Some && get_text_spec(*p, "spreadsheet_id"@) is Some && get_text_spec(*p, "range"@) is Some && get_text_spec(*p, "values"@) is Some),
            match r {
                Some(x) => get_text_spec(*p, "user_id"@) == Some(x.user_id@)
                    && get_text_spec(*p, "spreadsheet_id"@) == Some(x.spreadsheet_id@)
                    && get_text_spec(*p, "range"@) == Some(x.range@)
                    && get_text_spec(*p, "values"@) == Some(x.values@),
                None => true,
            },
    {
        let user_id: String = match p.get_text("user_id") {
            Some(t) => t.clone(),
            None => { return None; },
        };
        let spreadsheet_id: String = match p.get_text("spreadsheet_id") {
            Some(t) => t.clone(),
            None => { return None; },
        };
        let range: String = match p.get_text("range") {
            Some(t) => t.clone(),
            None => { return None; },
        };
        let values: String = match p.get_text("values") {
            Some(t) => t.clone(),
            None => { return None; },
        };
        Some(SheetsWriteParams { user_id, spreadsheet_id, range, values })
    }
}

/// A user and an optional search query.
pub struct DriveListParams {
    pub user_id: String,
    pub query: Option<String>,
}

impl DriveListParams {
    /// Reads the fields from a payload: the value exists exactly when
    /// every required field is present as text.
    pub fn from_payload(p: &JsonVal) -> (r: Option<Self>)
        ensures
            r is Some <==> (get_text_spec(*p, "user_id"@) is Some),
            match r {
                Some(x) => get_text_spec(*p, "user_id"@) == Some(x.user_id@)
                    && opt_text_view(x.query) == get_text_spec(*p, "query"@),
                None => true,
            },
    {
        let user_id: String = match p.get_text("user_id") {
            Some(t) => t.clone(),
            None => { return None; },
        };
        let query: Option<String> = match p.get_text("query") {
            Some(t) => Some(t.clone()),
            None => None,
        };
        Some(DriveListParams { user_id, query })
    }
}

/// A user and the file to download.
pub struct DriveDownloadParams {
    pub user_id: String,
    pub file_id: String,
}

impl DriveDownloadParams {
    /// Reads the fields from a payload: the value exists exactly when
    /// every required field is present as text.
    pub fn from_payload(p: &JsonVal) -> (r: Option<Self>)
        ensures
            r is Some <==> (get_text_spec(*p, "user_id"@) is Some && get_text_spec(*p, "file_id"@) is Some),
            match r {
                Some(x) => get_text_spec(*p, "user_id"@) == Some(x.user_id@)
                    && get_text_spec(*p, "file_id"@) == Some(x.file_id@),
                None => true,
            },
    {
        let user_id: String = match p.get_text("user_id") {
            Some(t) => t.clone(),
            None => { return None; },
        };
        let file_id: String = match p.get_text("file_id") {
            Some(t) => t.clone(),
            None => { return None; },
        };
        Some(DriveDownloadParams { user_id, file_id })
    }
}

/// A user, the note's content, and an optional category.
pub struct AddNoteParams {
    pub user_id: String,
    pub content: String,
    pub category: Option<String>,
}

impl AddNoteParams {
    /// Reads the fields from a payload: the value exists exactly when
    /// every required field is present as text.
    pub fn from_payload(p: &JsonVal) -> (r: Option<Self>)
        ensures
            r is Some <==> (get_text_spec(*p, "user_id"@) is Some && get_text_spec(*p, "content"@) is Some),
            match r {
                Some(x) => get_text_spec(*p, "user_id"@) == Some(x.user_id@)
                    && get_text_spec(*p, "content"@) == Some(x.content@)
                    && opt_text_view(x.category) == get_text_spec(*p, "category"@),
                None => true,
            },
    {
        let user_id: String = match p.get_text("user_id") {
            Some(t) => t.clone(),
            None => { return None; },
        };
        let content: String = match p.get_text("content") {
            Some(t) => t.clone(),
            None => { return None; },
        };
        let category: Option<String> = match p.get_text("category") {
            Some(t) => Some(t.clone()),
            None => None,
        };
        Some(AddNoteParams { user_id, content, category })
    }
}

/// A note identity.
pub struct NoteIdParams {
    pub note_id: String,
}

impl NoteIdParams {
    /// Reads the fields from a payload: the value exists exactly when
    /// every required field is present as text.
    pub fn from_payload(p: &JsonVal) -> (r: Option<Self>)
        ensures
            r is Some <==> (get_text_spec(*p, "note_id"@) is Some),
            match r {
                Some(x) => get_text_spec(*p, "note_id"@) == Some(x.note_id@),
                None => true,
            },
    {
        let note_id: String = match p.get_text("note_id") {
            Some(t) => t.clone(),
            None => { return None; },
        };
        Some(NoteIdParams { note_id })
    }
}

} // verus!
