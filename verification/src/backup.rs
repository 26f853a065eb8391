//! The backup tool group's decision logic: request URLs and query
//! strings, request bodies, and the reshaping of the backup service's
//! replies into display text.  The service itself is an external
//! collaborator; the process edge carries the calls planned here.

use vstd::prelude::*;
use vstd::string::StringExecFns;
use crate::http::{JsonFetch, TextFetch, body_or_empty, body_text};
use crate::json::{
    JsonVal, get_bool_spec, get_spec, get_text_spec, get_u64_spec, json_str, or_bool, or_text,
    or_u64, text_of, opt_text_view, opt_strs_view,
};
use crate::text::{concat2, concat3, concat4, concat5, dec_str, join_spec, join_strings,
    str_views, u64_to_string};

verus! {

/// A storage destination the backup service can be configured with.
pub enum BackupDestination {
    S3 { bucket: String, endpoint_url: Option<String>, region: Option<String>, prefix: Option<
        String,
    > },
    GoogleDrive { folder_id: Option<String> },
    Ftp { host: String, port: Option<u16>, path: Option<String>, use_sftp: bool },
}

/// A backup schedule as the service reports or accepts it.
pub struct BackupSchedule {
    pub enabled: bool,
    pub cron: String,
    pub retention_days: u32,
    pub destinations: Vec<String>,
}

/// The service's status report, in typed form.
pub struct BackupStatus {
    pub last_backup: Option<String>,
    pub last_backup_size: Option<u64>,
    pub last_error: Option<String>,
    pub next_scheduled: Option<String>,
    pub total_backups: u32,
    pub schedule: Option<BackupSchedule>,
}

/// One backup in a listing, in typed form.
pub struct BackupEntry {
    pub name: String,
    pub database: String,
    pub timestamp: String,
    pub size_bytes: u64,
    pub destination: String,
}

/// The backup tool group: the base URL of the backup service.
pub struct BackupTools {
    pub api_base_url: String,
}

/// A query string: empty without parameters, else a question mark and
/// the parameters joined by ampersands.
pub open spec fn query_of(params: Seq<Seq<char>>) -> Seq<char> {
    if params.len() == 0 {
        Seq::<char>::empty()
    } else {
        "?"@ + join_spec(params, "&"@)
    }
}

/// Builds the query string for `params`.
pub fn build_query(params: &Vec<String>) -> (r: String)
    ensures
        r@ == query_of(str_views(params@)),
{
    if params.len() == 0 {
        proof {
            assert(str_views(params@).len() == 0);
        }
        String::new()
    } else {
        let joined: String = join_strings(params, "&");
        proof {
            assert(str_views(params@).len() == params@.len());
        }
        concat2("?", joined.as_str())
    }
}

/// The query parameters of an immediate-backup request.
pub open spec fn backup_now_params_spec(
    dest: Option<Seq<char>>,
    dbs: Option<Seq<Seq<char>>>,
) -> Seq<Seq<char>> {
    (match dest {
        Some(d) => seq!["destination="@ + d],
        None => Seq::<Seq<char>>::empty(),
    }) + (match dbs {
        Some(l) => seq!["databases="@ + join_spec(l, ","@)],
        None => Seq::<Seq<char>>::empty(),
    })
}

/// The query parameters of a listing request.
pub open spec fn list_backups_params_spec(
    dest: Option<Seq<char>>,
    db: Option<Seq<char>>,
    limit: Option<u32>,
) -> Seq<Seq<char>> {
    (match dest {
        Some(d) => seq!["destination="@ + d],
        None => Seq::<Seq<char>>::empty(),
    }) + (match db {
        Some(d) => seq!["database="@ + d],
        None => Seq::<Seq<char>>::empty(),
    }) + (match limit {
        Some(l) => seq!["limit="@ + dec_str(l as nat)],
        None => Seq::<Seq<char>>::empty(),
    })
}

impl BackupTools {
    /// A tool group talking to the service at `api_base_url`.
    pub fn new(api_base_url: String) -> (r: BackupTools)
        ensures
            r.api_base_url == api_base_url,
    {
        BackupTools { api_base_url }
    }

    /// The URL that triggers an immediate backup, with its optional
    /// destination and database filters as query parameters.
    pub fn backup_now_url(&self, destination: &Option<String>, databases: &Option<Vec<String>>) -> (
        r: String)
        ensures
            r@ == self.api_base_url@ + "/api/backup/now"@ + query_of(
                backup_now_params_spec(opt_text_view(*destination), opt_strs_view(*databases)),
            ),
    {
        let mut params: Vec<String> = Vec::new();
        match destination {
            Some(d) => params.push(concat2("destination=", d.as_str())),
            None => {},
        }
        match databases {
            Some(dbs) => {
                let joined: String = join_strings(dbs, ",");
                params.push(concat2("databases=", joined.as_str()));
            },
            None => {},
        }
        proof {
            assert(str_views(params@) =~~= backup_now_params_spec(
                opt_text_view(*destination),
                opt_strs_view(*databases),
            ));
        }
        let query: String = build_query(&params);
        let r: String = concat3(self.api_base_url.as_str(), "/api/backup/now", query.as_str());
        r
    }

    /// The URL that lists backups, with its optional filters.
    pub fn list_backups_url(
        &self,
        destination: &Option<String>,
        database: &Option<String>,
        limit: Option<u32>,
    ) -> (r: String)
        ensures
            r@ == self.api_base_url@ + "/api/backup/list"@ + query_of(
                list_backups_params_spec(
                    opt_text_view(*destination),
                    opt_text_view(*database),
                    limit,
                ),
            ),
    {
        let mut params: Vec<String> = Vec::new();
        match destination {
            Some(d) => params.push(concat2("destination=", d.as_str())),
            None => {},
        }
        match database {
            Some(d) => params.push(concat2("database=", d.as_str())),
            None => {},
        }
        match limit {
            Some(l) => {
                let n: String = u64_to_string(l as u64);
                params.push(concat2("limit=", n.as_str()));
            },
            None => {},
        }
        proof {
            assert(str_views(params@) =~~= list_backups_params_spec(
                opt_text_view(*destination),
                opt_text_view(*database),
                limit,
            ));
        }
        let query: String = build_query(&params);
        let r: String = concat3(self.api_base_url.as_str(), "/api/backup/list", query.as_str());
        r
    }

    /// The URL of the status report.
    pub fn status_url(&self) -> (r: String)
        ensures
            r@ == self.api_base_url@ + "/api/backup/status"@,
    {
        concat2(self.api_base_url.as_str(), "/api/backup/status")
    }

    /// The URL of the schedule resource.
    pub fn schedule_url(&self) -> (r: String)
        ensures
            r@ == self.api_base_url@ + "/api/backup/schedule"@,
    {
        concat2(self.api_base_url.as_str(), "/api/backup/schedule")
    }

    /// The URL of the destination collection.
    pub fn destinations_url(&self) -> (r: String)
        ensures
            r@ == self.api_base_url@ + "/api/backup/destinations"@,
    {
        concat2(self.api_base_url.as_str(), "/api/backup/destinations")
    }

    /// The URL of one named destination.
    pub fn destination_url(&self, name: &str) -> (r: String)
        ensures
            r@ == self.api_base_url@ + "/api/backup/destinations/"@ + name@,
    {
        concat3(self.api_base_url.as_str(), "/api/backup/destinations/", name)
    }
}

/// The display text for a size in megabytes, two truncated decimals.
pub open spec fn mb_text(size: u64) -> Seq<char> {
    dec_str((size as nat) / 1048576) + "."@ + pad2(((size as nat) % 1048576) * 100 / 1048576)
        + " MB"@
}

/// The display text for a size in kilobytes, two truncated decimals.
pub open spec fn kb_text(size: u64) -> Seq<char> {
    dec_str((size as nat) / 1024) + "."@ + pad2(((size as nat) % 1024) * 100 / 1024) + " KB"@
}

/// A two-digit decimal fraction, zero padded.
pub open spec fn pad2(f: nat) -> Seq<char> {
    if f < 10 {
        "0"@ + dec_str(f)
    } else {
        dec_str(f)
    }
}

/// Sizes over a mebibyte in MB, over a kibibyte in KB, else in bytes.
pub open spec fn size_text_full(size: u64) -> Seq<char> {
    if size > 1048576 {
        mb_text(size)
    } else if size > 1024 {
        kb_text(size)
    } else {
        dec_str(size as nat) + " bytes"@
    }
}

/// Sizes over a mebibyte in MB, everything else in KB.
pub open spec fn size_text_mk(size: u64) -> Seq<char> {
    if size > 1048576 {
        mb_text(size)
    } else {
        kb_text(size)
    }
}

fn pad2_string(f: u64) -> (r: String)
    ensures
        r@ == pad2(f as nat),
{
    let digits: String = u64_to_string(f);
    if f < 10 {
        concat2("0", digits.as_str())
    } else {
        digits
    }
}

fn mb_string(size: u64) -> (r: String)
    ensures
        r@ == mb_text(size),
{
    let whole: String = u64_to_string(size / 1048576);
    let frac: String = pad2_string((size % 1048576) * 100 / 1048576);
    concat4(whole.as_str(), ".", frac.as_str(), " MB")
}

fn kb_string(size: u64) -> (r: String)
    ensures
        r@ == kb_text(size),
{
    let whole: String = u64_to_string(size / 1024);
    let frac: String = pad2_string((size % 1024) * 100 / 1024);
    concat4(whole.as_str(), ".", frac.as_str(), " KB")
}

/// Renders a size as the full three-way display text.
pub fn format_size_full(size: u64) -> (r: String)
    ensures
        r@ == size_text_full(size),
{
    if size > 1048576 {
        mb_string(size)
    } else if size > 1024 {
        kb_string(size)
    } else {
        let n: String = u64_to_string(size);
        concat2(n.as_str(), " bytes")
    }
}

/// Renders a size as the two-way MB/KB display text.
pub fn format_size_mk(size: u64) -> (r: String)
    ensures
        r@ == size_text_mk(size),
{
    if size > 1048576 {
        mb_string(size)
    } else {
        kb_string(size)
    }
}

impl BackupEntry {
    /// The typed form of one listed backup, with the listing's
    /// defaults for absent or mistyped fields.
    pub fn from_json(v: &JsonVal) -> (r: BackupEntry)
        ensures
            r.name@ == or_text(get_text_spec(*v, "name"@), "unknown"@),
            r.database@ == or_text(get_text_spec(*v, "database"@), "unknown"@),
            r.timestamp@ == or_text(get_text_spec(*v, "timestamp"@), "unknown"@),
            r.size_bytes == or_u64(get_u64_spec(*v, "size_bytes"@), 0),
            r.destination@ == or_text(get_text_spec(*v, "destination"@), "default"@),
    {
        BackupEntry {
            name: v.get_text_or("name", "unknown"),
            database: v.get_text_or("database", "unknown"),
            timestamp: v.get_text_or("timestamp", "unknown"),
            size_bytes: v.get_u64_or("size_bytes", 0),
            destination: v.get_text_or("destination", "default"),
        }
    }
}

/// The listing line of one backup.
pub open spec fn backup_entry_line(v: JsonVal) -> Seq<char> {
    "- "@ + or_text(get_text_spec(v, "name"@), "unknown"@) + " ("@ + or_text(
        get_text_spec(v, "timestamp"@),
        "unknown"@,
    ) + ")\n  Database: "@ + or_text(get_text_spec(v, "database"@), "unknown"@) + "\n  Size: "@
        + size_text_full(or_u64(get_u64_spec(v, "size_bytes"@), 0)) + "\n  Destination: "@
        + or_text(get_text_spec(v, "destination"@), "default"@) + "\n\n"@
}

/// The listing lines of a sequence of backups, in order.
pub open spec fn backup_entry_lines(xs: Seq<JsonVal>) -> Seq<char>
    decreases xs.len(),
{
    if xs.len() == 0 {
        Seq::<char>::empty()
    } else {
        backup_entry_lines(xs.drop_last()) + backup_entry_line(xs.last())
    }
}

/// The listing text: a count and one block per backup, or the fixed
/// empty-listing text when the reply holds no non-empty array.
pub open spec fn backup_list_text(data: JsonVal) -> Seq<char> {
    match get_spec(data, "backups"@) {
        Some(JsonVal::Arr(list)) => if list@.len() > 0 {
            "Found "@ + dec_str(list@.len() as nat) + " backup(s):\n\n"@ + backup_entry_lines(
                list@,
            )
        } else {
            "No backups found."@
        },
        _ => "No backups found."@,
    }
}

/// Formats a listing reply.
#[verifier::loop_isolation(false)]
pub fn format_backup_list(data: &JsonVal) -> (r: String)
    ensures
        r@ == backup_list_text(*data),
{
    let list: Option<&Vec<JsonVal>> = match data.get("backups") {
        Some(v) => v.as_arr(),
        None => None,
    };
    match list {
        Some(xs) if xs.len() > 0 => {
            let count: String = u64_to_string(xs.len() as u64);
            let mut out: String = concat3("Found ", count.as_str(), " backup(s):\n\n");
            let mut k: usize = 0;
            while k < xs.len()
                invariant
                    0 <= k <= xs@.len(),
                    out@ == "Found "@ + dec_str(xs@.len() as nat) + " backup(s):\n\n"@
                        + backup_entry_lines(xs@.take(k as int)),
                decreases xs@.len() - k,
            {
                let e: BackupEntry = BackupEntry::from_json(&xs[k]);
                let size_str: String = format_size_full(e.size_bytes);
                let mut line: String = String::new();
                line.append("- ");
                line.append(e.name.as_str());
                line.append(" (");
                line.append(e.timestamp.as_str());
                line.append(")\n  Database: ");
                line.append(e.database.as_str());
                line.append("\n  Size: ");
                line.append(size_str.as_str());
                line.append("\n  Destination: ");
                line.append(e.destination.as_str());
                line.append("\n\n");
                proof {
                    assert(line@ =~= backup_entry_line(xs@[k as int]));
                    assert(xs@.take((k + 1) as int).drop_last() =~= xs@.take(k as int));
                    assert(xs@.take((k + 1) as int).last() == xs@[k as int]);
                }
                out.append(line.as_str());
                proof {
                    assert(out@ =~= "Found "@ + dec_str(xs@.len() as nat) + " backup(s):\n\n"@
                        + backup_entry_lines(xs@.take((k + 1) as int)));
                }
                k = k + 1;
            }
            proof {
                assert(xs@.take(xs@.len() as int) =~= xs@);
            }
            out
        },
        _ => {
            let mut out: String = String::new();
            out.append("No backups found.");
            proof {
                assert(out@ =~= "No backups found."@);
            }
            out
        },
    }
}

/// The text reported after an immediate backup: status, optional
/// message and identifier, and any per-database details rendered as
/// serialized values.
pub open spec fn backup_now_text(data: JsonVal) -> Seq<char> {
    let message = or_text(get_text_spec(data, "message"@), Seq::<char>::empty());
    "Backup "@ + or_text(get_text_spec(data, "status"@), "unknown"@) + "\n"@ + (if message.len()
        > 0 {
        "Message: "@ + message + "\n"@
    } else {
        Seq::<char>::empty()
    }) + (match get_text_spec(data, "backup_id"@) {
        Some(id) => "Backup ID: "@ + id + "\n"@,
        None => Seq::<char>::empty(),
    }) + (match get_spec(data, "details"@) {
        Some(details) => (match get_spec(details, "clara"@) {
            Some(v) => "\nClara DB: "@ + json_str(v),
            None => Seq::<char>::empty(),
        }) + (match get_spec(details, "mem0"@) {
            Some(v) => "\nMem0 DB: "@ + json_str(v),
            None => Seq::<char>::empty(),
        }),
        None => Seq::<char>::empty(),
    })
}

/// Formats an immediate-backup reply.
pub fn format_backup_now(data: &JsonVal) -> (r: String)
    ensures
        r@ == backup_now_text(*data),
{
    let status: String = data.get_text_or("status", "unknown");
    let message: String = data.get_text_or("message", "");
    let mut out: String = concat3("Backup ", status.as_str(), "\n");
    if !message.as_str().is_empty() {
        let line: String = concat3("Message: ", message.as_str(), "\n");
        out.append(line.as_str());
    }
    match data.get_text("backup_id") {
        Some(id) => {
            let line: String = concat3("Backup ID: ", id.as_str(), "\n");
            out.append(line.as_str());
        },
        None => {},
    }
    match data.get("details") {
        Some(details) => {
            match details.get("clara") {
                Some(v) => {
                    let t: String = v.to_text();
                    let line: String = concat2("\nClara DB: ", t.as_str());
                    out.append(line.as_str());
                },
                None => {},
            }
            match details.get("mem0") {
                Some(v) => {
                    let t: String = v.to_text();
                    let line: String = concat2("\nMem0 DB: ", t.as_str());
                    out.append(line.as_str());
                },
                None => {},
            }
        },
        None => {},
    }
    proof {
        reveal_strlit("");
        assert(out@ =~= backup_now_text(*data));
    }
    out
}

/// The display text of a boolean.
pub open spec fn bool_text(b: bool) -> Seq<char> {
    if b {
        "true"@
    } else {
        "false"@
    }
}

fn bool_string(b: bool) -> (r: String)
    ensures
        r@ == bool_text(b),
{
    let mut s: String = String::new();
    if b {
        s.append("true");
    } else {
        s.append("false");
    }
    proof {
        assert(s@ =~= bool_text(b));
    }
    s
}

/// The first line of the status report: the last backup time, or
/// `Never`.
pub open spec fn status_last_line(data: JsonVal) -> Seq<char> {
    match get_text_spec(data, "last_backup"@) {
        Some(l) => "Last backup: "@ + l + "\n"@,
        None => "Last backup: Never\n"@,
    }
}

/// The size line of the status report, present only when reported.
pub open spec fn status_size_line(data: JsonVal) -> Seq<char> {
    match get_u64_spec(data, "last_backup_size"@) {
        Some(size) => "Last backup size: "@ + size_text_mk(size) + "\n"@,
        None => Seq::<char>::empty(),
    }
}

/// The error line of the status report, present only when a non-empty
/// error is reported.
pub open spec fn status_error_line(data: JsonVal) -> Seq<char> {
    match get_text_spec(data, "last_error"@) {
        Some(e) => if e.len() > 0 {
            "Last error: "@ + e + "\n"@
        } else {
            Seq::<char>::empty()
        },
        None => Seq::<char>::empty(),
    }
}

/// The next-run line of the status report, present only when reported.
pub open spec fn status_next_line(data: JsonVal) -> Seq<char> {
    match get_text_spec(data, "next_scheduled"@) {
        Some(n) => "Next scheduled: "@ + n + "\n"@,
        None => Seq::<char>::empty(),
    }
}

/// The total-count line of the status report, present only when
/// reported.
pub open spec fn status_total_line(data: JsonVal) -> Seq<char> {
    match get_u64_spec(data, "total_backups"@) {
        Some(t) => "Total backups: "@ + dec_str(t as nat) + "\n"@,
        None => Seq::<char>::empty(),
    }
}

/// The schedule block of the status report, present only when a
/// schedule is reported.
pub open spec fn status_schedule_block(data: JsonVal) -> Seq<char> {
    match get_spec(data, "schedule"@) {
        Some(sch) => "\nSchedule:\n"@ + "  Enabled: "@ + bool_text(
            or_bool(get_bool_spec(sch, "enabled"@), false),
        ) + "\n"@ + (match get_text_spec(sch, "cron"@) {
            Some(c) => "  Cron: "@ + c + "\n"@,
            None => Seq::<char>::empty(),
        }) + (match get_u64_spec(sch, "retention_days"@) {
            Some(r) => "  Retention: "@ + dec_str(r as nat) + " days\n"@,
            None => Seq::<char>::empty(),
        }),
        None => Seq::<char>::empty(),
    }
}

/// The line of one configured destination in the status report,
/// present only for named destinations.
pub open spec fn status_dest_line(v: JsonVal) -> Seq<char> {
    match get_text_spec(v, "name"@) {
        Some(name) => "  - "@ + name + " ("@ + or_text(get_text_spec(v, "type"@), "unknown"@)
            + ") - "@ + or_text(get_text_spec(v, "status"@), "unknown"@) + "\n"@,
        None => Seq::<char>::empty(),
    }
}

/// The destination lines of the status report, in order.
pub open spec fn status_dest_lines(xs: Seq<JsonVal>) -> Seq<char>
    decreases xs.len(),
{
    if xs.len() == 0 {
        Seq::<char>::empty()
    } else {
        status_dest_lines(xs.drop_last()) + status_dest_line(xs.last())
    }
}

/// The destinations block of the status report, present only when a
/// destination array is reported.
pub open spec fn status_dest_block(data: JsonVal) -> Seq<char> {
    match get_spec(data, "destinations"@) {
        Some(JsonVal::Arr(ds)) => "\nConfigured destinations:\n"@ + status_dest_lines(ds@),
        _ => Seq::<char>::empty(),
    }
}

/// The whole status report.
pub open spec fn status_text(data: JsonVal) -> Seq<char> {
    "Backup Status:\n\n"@ + status_last_line(data) + status_size_line(data) + status_error_line(
        data,
    ) + status_next_line(data) + status_total_line(data) + status_schedule_block(data)
        + status_dest_block(data)
}

/// Formats the scalar lines of a status reply.
fn format_status_header(data: &JsonVal) -> (r: String)
    ensures
        r@ == "Backup Status:\n\n"@ + status_last_line(*data) + status_size_line(*data)
            + status_error_line(*data) + status_next_line(*data) + status_total_line(*data),
{
    let mut out: String = String::new();
    out.append("Backup Status:\n\n");
    match data.get_text("last_backup") {
        Some(l) => {
            let line: String = concat3("Last backup: ", l.as_str(), "\n");
            out.append(line.as_str());
        },
        None => {
            out.append("Last backup: Never\n");
        },
    }
    proof {
        assert(out@ =~= "Backup Status:\n\n"@ + status_last_line(*data));
    }
    match data.get_u64("last_backup_size") {
        Some(size) => {
            let st: String = format_size_mk(size);
            let line: String = concat3("Last backup size: ", st.as_str(), "\n");
            out.append(line.as_str());
        },
        None => {},
    }
    match data.get_text("last_error") {
        Some(e) => {
            if !e.as_str().is_empty() {
                let line: String = concat3("Last error: ", e.as_str(), "\n");
                out.append(line.as_str());
            }
        },
        None => {},
    }
    proof {
        assert(out@ =~= "Backup Status:\n\n"@ + status_last_line(*data) + status_size_line(*data)
            + status_error_line(*data));
    }
    match data.get_text("next_scheduled") {
        Some(n) => {
            let line: String = concat3("Next scheduled: ", n.as_str(), "\n");
            out.append(line.as_str());
        },
        None => {},
    }
    match data.get_u64("total_backups") {
        Some(t) => {
            let n: String = u64_to_string(t);
            let line: String = concat3("Total backups: ", n.as_str(), "\n");
            out.append(line.as_str());
        },
        None => {},
    }
    proof {
        assert(out@ =~= "Backup Status:\n\n"@ + status_last_line(*data) + status_size_line(*data)
            + status_error_line(*data) + status_next_line(*data) + status_total_line(*data));
    }
    out
}

/// Formats the schedule block of a status reply.
fn format_status_schedule(data: &JsonVal) -> (r: String)
    ensures
        r@ == status_schedule_block(*data),
{
    let mut out: String = String::new();
    match data.get("schedule") {
        Some(sch) => {
            out.append("\nSchedule:\n");
            let enabled: bool = sch.get_bool_or("enabled", false);
            let eb: String = bool_string(enabled);
            let line: String = concat3("  Enabled: ", eb.as_str(), "\n");
            out.append(line.as_str());
            match sch.get_text("cron") {
                Some(c) => {
                    let line2: String = concat3("  Cron: ", c.as_str(), "\n");
                    out.append(line2.as_str());
                },
                None => {},
            }
            match sch.get_u64("retention_days") {
                Some(r) => {
                    let n: String = u64_to_string(r);
                    let line3: String = concat3("  Retention: ", n.as_str(), " days\n");
                    out.append(line3.as_str());
                },
                None => {},
            }
        },
        None => {},
    }
    proof {
        assert(out@ =~= status_schedule_block(*data));
    }
    out
}

/// Formats the destinations block of a status reply.
#[verifier::loop_isolation(false)]
fn format_status_destinations(data: &JsonVal) -> (r: String)
    ensures
        r@ == status_dest_block(*data),
{
    let mut out: String = String::new();
    match data.get("destinations") {
        Some(dv) => match dv.as_arr() {
            Some(ds) => {
                out.append("\nConfigured destinations:\n");
                let mut k: usize = 0;
                while k < ds.len()
                    invariant
                        0 <= k <= ds@.len(),
                        out@ == "\nConfigured destinations:\n"@ + status_dest_lines(
                            ds@.take(k as int),
                        ),
                    decreases ds@.len() - k,
                {
                    match ds[k].get_text("name") {
                        Some(name) => {
                            let ty: String = ds[k].get_text_or("type", "unknown");
                            let st: String = ds[k].get_text_or("status", "unknown");
                            let mut line: String = String::new();
                            line.append("  - ");
                            line.append(name.as_str());
                            line.append(" (");
                            line.append(ty.as_str());
                            line.append(") - ");
                            line.append(st.as_str());
                            line.append("\n");
                            proof {
                                assert(line@ =~= status_dest_line(ds@[k as int]));
                            }
                            out.append(line.as_str());
                        },
                        None => {},
                    }
                    proof {
                        assert(ds@.take((k + 1) as int).drop_last() =~= ds@.take(k as int));
                        assert(ds@.take((k + 1) as int).last() == ds@[k as int]);
                        assert(out@ =~= "\nConfigured destinations:\n"@ + status_dest_lines(
                            ds@.take((k + 1) as int),
                        ));
                    }
                    k = k + 1;
                }
                proof {
                    assert(ds@.take(ds@.len() as int) =~= ds@);
                }
            },
            None => {},
        },
        None => {},
    }
    proof {
        assert(out@ =~= status_dest_block(*data));
    }
    out
}

/// Formats a status reply, section by section.
pub fn format_status(data: &JsonVal) -> (r: String)
    ensures
        r@ == status_text(*data),
{
    let mut out: String = format_status_header(data);
    let sched: String = format_status_schedule(data);
    out.append(sched.as_str());
    let dests: String = format_status_destinations(data);
    out.append(dests.as_str());
    proof {
        assert(out@ =~= status_text(*data));
    }
    out
}

/// The body of a schedule update: the flag, and the optional fields
/// only when given.
pub fn set_schedule_body(enabled: bool, cron: &Option<String>, retention_days: Option<u32>) -> (r:
    JsonVal)
    ensures
        r is Obj,
        get_spec(r, "enabled"@) == Some(JsonVal::Bool(enabled)),
        get_spec(r, "cron"@) == match *cron {
            Some(c) => Some(JsonVal::Text(c)),
            None => None::<JsonVal>,
        },
        get_spec(r, "retention_days"@) == match retention_days {
            Some(x) => Some(JsonVal::Int(x as i64)),
            None => None::<JsonVal>,
        },
{
    let mut entries: Vec<(String, JsonVal)> = Vec::new();
    let mut k_enabled: String = String::new();
    k_enabled.append("enabled");
    entries.push((k_enabled, JsonVal::Bool(enabled)));
    match cron {
        Some(c) => {
            let mut k_cron: String = String::new();
            k_cron.append("cron");
            entries.push((k_cron, JsonVal::Text(c.clone())));
        },
        None => {},
    }
    match retention_days {
        Some(x) => {
            let mut k_ret: String = String::new();
            k_ret.append("retention_days");
            entries.push((k_ret, JsonVal::Int(x as i64)));
        },
        None => {},
    }
    proof {
        reveal_strlit("enabled");
        reveal_strlit("cron");
        reveal_strlit("retention_days");
        assert("enabled"@ != "cron"@);
        assert("enabled"@ != "retention_days"@);
        assert("cron"@ != "retention_days"@);
        let es = entries@;
        crate::json::lemma_obj_get_at(es, "enabled"@, 0);
        if *cron is Some {
            assert(es[1].0@ == "cron"@);
            crate::json::lemma_obj_get_at(es, "cron"@, 1);
            if retention_days is Some {
                assert(es[2].0@ == "retention_days"@);
                crate::json::lemma_obj_get_at(es, "retention_days"@, 2);
            } else {
                crate::json::lemma_obj_get_none(es, "retention_days"@);
            }
        } else {
            crate::json::lemma_obj_get_none(es, "cron"@);
            if retention_days is Some {
                assert(es[1].0@ == "retention_days"@);
                crate::json::lemma_obj_get_at(es, "retention_days"@, 1);
            } else {
                crate::json::lemma_obj_get_none(es, "retention_days"@);
            }
        }
    }
    JsonVal::Obj(entries)
}

/// The text reported after a schedule update.
pub open spec fn schedule_response_text(data: JsonVal) -> Seq<char> {
    let message = or_text(get_text_spec(data, "message"@), Seq::<char>::empty());
    "Schedule "@ + or_text(get_text_spec(data, "status"@), "updated"@) + "\n"@ + (
    if message.len() > 0 {
        message + "\n"@
    } else {
        Seq::<char>::empty()
    }) + (match get_spec(data, "schedule"@) {
        Some(sch) => "\nNew schedule:\n"@ + "  Enabled: "@ + bool_text(
            or_bool(get_bool_spec(sch, "enabled"@), false),
        ) + "\n"@ + "  Cron: "@ + or_text(get_text_spec(sch, "cron"@), "not set"@) + "\n"@
            + "  Retention: "@ + dec_str(or_u64(get_u64_spec(sch, "retention_days"@), 7) as nat)
            + " days\n"@,
        None => Seq::<char>::empty(),
    })
}

/// Formats a schedule-update reply.
pub fn format_schedule_response(data: &JsonVal) -> (r: String)
    ensures
        r@ == schedule_response_text(*data),
{
    let status: String = data.get_text_or("status", "updated");
    let message: String = data.get_text_or("message", "");
    let mut out: String = concat3("Schedule ", status.as_str(), "\n");
    if !message.as_str().is_empty() {
        let line: String = concat2(message.as_str(), "\n");
        out.append(line.as_str());
    }
    match data.get("schedule") {
        Some(sch) => {
            out.append("\nNew schedule:\n");
            let eb: String = bool_string(sch.get_bool_or("enabled", false));
            let line1: String = concat3("  Enabled: ", eb.as_str(), "\n");
            out.append(line1.as_str());
            let cron: String = sch.get_text_or("cron", "not set");
            let line2: String = concat3("  Cron: ", cron.as_str(), "\n");
            out.append(line2.as_str());
            let ret: String = u64_to_string(sch.get_u64_or("retention_days", 7));
            let line3: String = concat3("  Retention: ", ret.as_str(), " days\n");
            out.append(line3.as_str());
        },
        None => {},
    }
    proof {
        reveal_strlit("");
        assert(out@ =~= schedule_response_text(*data));
    }
    out
}

/// The configuration details shown for one destination, by its type.
pub open spec fn dest_config_block(v: JsonVal, ty: Seq<char>) -> Seq<char> {
    match get_spec(v, "config"@) {
        Some(cfg) => if ty == "s3"@ {
            (match get_text_spec(cfg, "bucket"@) {
                Some(b) => "  Bucket: "@ + b + "\n"@,
                None => Seq::<char>::empty(),
            }) + (match get_text_spec(cfg, "endpoint_url"@) {
                Some(e) => "  Endpoint: "@ + e + "\n"@,
                None => Seq::<char>::empty(),
            })
        } else if ty == "google_drive"@ {
            match get_text_spec(cfg, "folder_id"@) {
                Some(f) => "  Folder ID: "@ + f + "\n"@,
                None => Seq::<char>::empty(),
            }
        } else if ty == "ftp"@ {
            match get_text_spec(cfg, "host"@) {
                Some(h) => "  Host: "@ + h + ":"@ + dec_str(
                    or_u64(get_u64_spec(cfg, "port"@), 21) as nat,
                ) + " ("@ + (if or_bool(get_bool_spec(cfg, "use_sftp"@), false) {
                    "SFTP"@
                } else {
                    "FTP"@
                }) + ")\n"@,
                None => Seq::<char>::empty(),
            }
        } else {
            Seq::<char>::empty()
        },
        None => Seq::<char>::empty(),
    }
}

/// The block shown for one configured destination.
pub open spec fn dest_block(v: JsonVal) -> Seq<char> {
    let ty = or_text(get_text_spec(v, "type"@), "unknown"@);
    "- "@ + or_text(get_text_spec(v, "name"@), "unknown"@) + " ("@ + ty + ")"@ + (if or_bool(
        get_bool_spec(v, "is_default"@),
        false,
    ) {
        " [default]"@
    } else {
        Seq::<char>::empty()
    }) + "\n"@ + "  Status: "@ + or_text(get_text_spec(v, "status"@), "unknown"@) + "\n"@
        + dest_config_block(v, ty) + "\n"@
}

/// The blocks of a destination listing, in order.
pub open spec fn dest_blocks(xs: Seq<JsonVal>) -> Seq<char>
    decreases xs.len(),
{
    if xs.len() == 0 {
        Seq::<char>::empty()
    } else {
        dest_blocks(xs.drop_last()) + dest_block(xs.last())
    }
}

/// The destination listing text, or the fixed empty-listing text.
pub open spec fn destinations_text(data: JsonVal) -> Seq<char> {
    match get_spec(data, "destinations"@) {
        Some(JsonVal::Arr(ds)) => if ds@.len() > 0 {
            "Configured destinations ("@ + dec_str(ds@.len() as nat) + "):\n\n"@ + dest_blocks(
                ds@,
            )
        } else {
            "No destinations configured.\n\nUse backup_config to add a destination."@
        },
        _ => "No destinations configured.\n\nUse backup_config to add a destination."@,
    }
}

#[verifier::rlimit(100)]
#[verifier::spinoff_prover]
fn format_dest_config(v: &JsonVal, ty: &String) -> (r: String)
    ensures
        r@ == dest_config_block(*v, ty@),
{
    let mut out: String = String::new();
    match v.get("config") {
        Some(cfg) => {
            let mut s3_name: String = String::new();
            s3_name.append("s3");
            let mut gd_name: String = String::new();
            gd_name.append("google_drive");
            let mut ftp_name: String = String::new();
            ftp_name.append("ftp");
            if *ty == s3_name {
                match cfg.get_text("bucket") {
                    Some(b) => {
                        let line: String = concat3("  Bucket: ", b.as_str(), "\n");
                        out.append(line.as_str());
                    },
                    None => {},
                }
                match cfg.get_text("endpoint_url") {
                    Some(e) => {
                        let line: String = concat3("  Endpoint: ", e.as_str(), "\n");
                        out.append(line.as_str());
                    },
                    None => {},
                }
            } else if *ty == gd_name {
                match cfg.get_text("folder_id") {
                    Some(f) => {
                        let line: String = concat3("  Folder ID: ", f.as_str(), "\n");
                        out.append(line.as_str());
                    },
                    None => {},
                }
            } else if *ty == ftp_name {
                match cfg.get_text("host") {
                    Some(h) => {
                        let port: String = u64_to_string(cfg.get_u64_or("port", 21));
                        let sftp: bool = cfg.get_bool_or("use_sftp", false);
                        let mut line: String = String::new();
                        line.append("  Host: ");
                        line.append(h.as_str());
                        line.append(":");
                        line.append(port.as_str());
                        line.append(" (");
                        if sftp {
                            line.append("SFTP");
                        } else {
                            line.append("FTP");
                        }
                        line.append(")\n");
                        out.append(line.as_str());
                    },
                    None => {},
                }
            }
        },
        None => {},
    }
    proof {
        assert(out@ =~= dest_config_block(*v, ty@));
    }
    out
}

#[verifier::rlimit(60)]
fn format_dest_block(v: &JsonVal) -> (r: String)
    ensures
        r@ == dest_block(*v),
{
    let name: String = v.get_text_or("name", "unknown");
    let ty: String = v.get_text_or("type", "unknown");
    let status: String = v.get_text_or("status", "unknown");
    let is_default: bool = v.get_bool_or("is_default", false);
    let mut out: String = String::new();
    out.append("- ");
    out.append(name.as_str());
    out.append(" (");
    out.append(ty.as_str());
    out.append(")");
    if is_default {
        out.append(" [default]");
    }
    out.append("\n");
    out.append("  Status: ");
    out.append(status.as_str());
    out.append("\n");
    let cfg: String = format_dest_config(v, &ty);
    out.append(cfg.as_str());
    out.append("\n");
    proof {
        assert(out@ =~= dest_block(*v));
    }
    out
}

/// Formats a destination-listing reply.
#[verifier::loop_isolation(false)]
pub fn format_destinations(data: &JsonVal) -> (r: String)
    ensures
        r@ == destinations_text(*data),
{
    let list: Option<&Vec<JsonVal>> = match data.get("destinations") {
        Some(v) => v.as_arr(),
        None => None,
    };
    match list {
        Some(ds) if ds.len() > 0 => {
            let count: String = u64_to_string(ds.len() as u64);
            let mut out: String = concat3("Configured destinations (", count.as_str(), "):\n\n");
            let mut k: usize = 0;
            while k < ds.len()
                invariant
                    0 <= k <= ds@.len(),
                    out@ == "Configured destinations ("@ + dec_str(ds@.len() as nat) + "):\n\n"@
                        + dest_blocks(ds@.take(k as int)),
                decreases ds@.len() - k,
            {
                let block: String = format_dest_block(&ds[k]);
                out.append(block.as_str());
                proof {
                    assert(ds@.take((k + 1) as int).drop_last() =~= ds@.take(k as int));
                    assert(ds@.take((k + 1) as int).last() == ds@[k as int]);
                    assert(out@ =~= "Configured destinations ("@ + dec_str(ds@.len() as nat)
                        + "):\n\n"@ + dest_blocks(ds@.take((k + 1) as int)));
                }
                k = k + 1;
            }
            proof {
                assert(ds@.take(ds@.len() as int) =~= ds@);
            }
            out
        },
        _ => {
            let mut out: String = String::new();
            out.append("No destinations configured.\n\nUse backup_config to add a destination.");
            proof {
                assert(out@ =~= destinations_text(*data));
            }
            out
        },
    }
}

/// The body that configures a destination: its name, its type tag,
/// and its configuration object, in that order.
pub fn configure_destination_body(name: &str, dest_type: &str, config: JsonVal) -> (r: JsonVal)
    ensures
        match r {
            JsonVal::Obj(es) => es@.len() == 3 && es@[0].0@ == "name"@ && text_of(es@[0].1)
                == Some(name@) && es@[1].0@ == "type"@ && text_of(es@[1].1) == Some(dest_type@)
                && es@[2].0@ == "config"@ && es@[2].1 == config,
            _ => false,
        },
{
    let mut entries: Vec<(String, JsonVal)> = Vec::new();
    let mut k_name: String = String::new();
    k_name.append("name");
    entries.push((k_name, JsonVal::Text(name.to_owned())));
    let mut k_type: String = String::new();
    k_type.append("type");
    entries.push((k_type, JsonVal::Text(dest_type.to_owned())));
    let mut k_config: String = String::new();
    k_config.append("config");
    entries.push((k_config, config));
    JsonVal::Obj(entries)
}


/// Interprets the reply to an immediate-backup request: a formatted
/// report on success, a success note even when the confirmation body
/// could not be decoded, and an error text otherwise.
pub fn backup_now_response(f: JsonFetch) -> (r: Result<String, String>)
    ensures
        match f {
            JsonFetch::ConnectError(e) => r is Err && r->Err_0@
                == "Failed to connect to backup service: "@ + e@,
            JsonFetch::HttpError(status, body) => r is Err && r->Err_0@ == "Backup failed: "@
                + status@ + " - "@ + body@,
            JsonFetch::Parsed(Ok(data)) => r is Ok && r->Ok_0@ == backup_now_text(data),
            JsonFetch::Parsed(Err(pe)) => r is Ok && r->Ok_0@
                == "Backup triggered (response parse error: "@ + pe@ + ")"@,
        },
{
    match f {
        JsonFetch::ConnectError(e) => Err(
            concat2("Failed to connect to backup service: ", e.as_str()),
        ),
        JsonFetch::HttpError(status, body) => Err(
            concat4("Backup failed: ", status.as_str(), " - ", body.as_str()),
        ),
        JsonFetch::Parsed(Ok(data)) => Ok(format_backup_now(&data)),
        JsonFetch::Parsed(Err(pe)) => Ok(
            concat3("Backup triggered (response parse error: ", pe.as_str(), ")"),
        ),
    }
}

/// Interprets the reply to a listing request.
pub fn list_backups_response(f: JsonFetch) -> (r: Result<String, String>)
    ensures
        match f {
            JsonFetch::ConnectError(e) => r is Err && r->Err_0@
                == "Failed to connect to backup service: "@ + e@,
            JsonFetch::HttpError(status, body) => r is Err && r->Err_0@
                == "Failed to list backups: "@ + status@ + " - "@ + body@,
            JsonFetch::Parsed(Ok(data)) => r is Ok && r->Ok_0@ == backup_list_text(data),
            JsonFetch::Parsed(Err(pe)) => r is Err && r->Err_0@ == "Failed to parse backup list: "@
                + pe@,
        },
{
    match f {
        JsonFetch::ConnectError(e) => Err(
            concat2("Failed to connect to backup service: ", e.as_str()),
        ),
        JsonFetch::HttpError(status, body) => Err(
            concat4("Failed to list backups: ", status.as_str(), " - ", body.as_str()),
        ),
        JsonFetch::Parsed(Ok(data)) => Ok(format_backup_list(&data)),
        JsonFetch::Parsed(Err(pe)) => Err(concat2("Failed to parse backup list: ", pe.as_str())),
    }
}

/// Interprets the reply to a status request.
pub fn get_status_response(f: JsonFetch) -> (r: Result<String, String>)
    ensures
        match f {
            JsonFetch::ConnectError(e) => r is Err && r->Err_0@
                == "Failed to connect to backup service: "@ + e@,
            JsonFetch::HttpError(status, body) => r is Err && r->Err_0@ == "Failed to get status: "@
                + status@ + " - "@ + body@,
            JsonFetch::Parsed(Ok(data)) => r is Ok && r->Ok_0@ == status_text(data),
            JsonFetch::Parsed(Err(pe)) => r is Err && r->Err_0@ == "Failed to parse status: "@
                + pe@,
        },
{
    match f {
        JsonFetch::ConnectError(e) => Err(
            concat2("Failed to connect to backup service: ", e.as_str()),
        ),
        JsonFetch::HttpError(status, body) => Err(
            concat4("Failed to get status: ", status.as_str(), " - ", body.as_str()),
        ),
        JsonFetch::Parsed(Ok(data)) => Ok(format_status(&data)),
        JsonFetch::Parsed(Err(pe)) => Err(concat2("Failed to parse status: ", pe.as_str())),
    }
}

/// Interprets the reply to a schedule update: like the immediate
/// backup, a decode failure after a success status still reports the
/// update as made.
pub fn set_schedule_response(f: JsonFetch) -> (r: Result<String, String>)
    ensures
        match f {
            JsonFetch::ConnectError(e) => r is Err && r->Err_0@
                == "Failed to connect to backup service: "@ + e@,
            JsonFetch::HttpError(status, body) => r is Err && r->Err_0@
                == "Failed to update schedule: "@ + status@ + " - "@ + body@,
            JsonFetch::Parsed(Ok(data)) => r is Ok && r->Ok_0@ == schedule_response_text(data),
            JsonFetch::Parsed(Err(pe)) => r is Ok && r->Ok_0@
                == "Schedule updated (response parse error: "@ + pe@ + ")"@,
        },
{
    match f {
        JsonFetch::ConnectError(e) => Err(
            concat2("Failed to connect to backup service: ", e.as_str()),
        ),
        JsonFetch::HttpError(status, body) => Err(
            concat4("Failed to update schedule: ", status.as_str(), " - ", body.as_str()),
        ),
        JsonFetch::Parsed(Ok(data)) => Ok(format_schedule_response(&data)),
        JsonFetch::Parsed(Err(pe)) => Ok(
            concat3("Schedule updated (response parse error: ", pe.as_str(), ")"),
        ),
    }
}

/// Interprets the reply to a destination listing request.
pub fn list_destinations_response(f: JsonFetch) -> (r: Result<String, String>)
    ensures
        match f {
            JsonFetch::ConnectError(e) => r is Err && r->Err_0@
                == "Failed to connect to backup service: "@ + e@,
            JsonFetch::HttpError(status, body) => r is Err && r->Err_0@
                == "Failed to list destinations: "@ + status@ + " - "@ + body@,
            JsonFetch::Parsed(Ok(data)) => r is Ok && r->Ok_0@ == destinations_text(data),
            JsonFetch::Parsed(Err(pe)) => r is Err && r->Err_0@
                == "Failed to parse destinations: "@ + pe@,
        },
{
    match f {
        JsonFetch::ConnectError(e) => Err(
            concat2("Failed to connect to backup service: ", e.as_str()),
        ),
        JsonFetch::HttpError(status, body) => Err(
            concat4("Failed to list destinations: ", status.as_str(), " - ", body.as_str()),
        ),
        JsonFetch::Parsed(Ok(data)) => Ok(format_destinations(&data)),
        JsonFetch::Parsed(Err(pe)) => Err(concat2("Failed to parse destinations: ", pe.as_str())),
    }
}

/// Interprets the reply to a destination configuration request: only
/// the status matters.
pub fn configure_destination_response(name: &str, dest_type: &str, f: TextFetch) -> (r: Result<
    String,
    String,
>)
    ensures
        match f {
            TextFetch::ConnectError(e) => r is Err && r->Err_0@
                == "Failed to connect to backup service: "@ + e@,
            TextFetch::Response { ok, status, body } => if ok {
                r is Ok && r->Ok_0@ == "Destination '"@ + name@
                    + "' configured successfully as "@ + dest_type@ + " storage."@
            } else {
                r is Err && r->Err_0@ == "Failed to configure destination: "@ + status@ + " - "@
                    + body_or_empty(body)
            },
        },
{
    match f {
        TextFetch::ConnectError(e) => Err(
            concat2("Failed to connect to backup service: ", e.as_str()),
        ),
        TextFetch::Response { ok, status, body } => {
            if ok {
                Ok(
                    concat5(
                        "Destination '",
                        name,
                        "' configured successfully as ",
                        dest_type,
                        " storage.",
                    ),
                )
            } else {
                let b: String = body_text(body);
                Err(
                    concat4(
                        "Failed to configure destination: ",
                        status.as_str(),
                        " - ",
                        b.as_str(),
                    ),
                )
            }
        },
    }
}

/// Interprets the reply to a destination deletion request.
pub fn delete_destination_response(name: &str, f: TextFetch) -> (r: Result<String, String>)
    ensures
        match f {
            TextFetch::ConnectError(e) => r is Err && r->Err_0@
                == "Failed to connect to backup service: "@ + e@,
            TextFetch::Response { ok, status, body } => if ok {
                r is Ok && r->Ok_0@ == "Destination '"@ + name@ + "' deleted."@
            } else {
                r is Err && r->Err_0@ == "Failed to delete destination: "@ + status@ + " - "@
                    + body_or_empty(body)
            },
        },
{
    match f {
        TextFetch::ConnectError(e) => Err(
            concat2("Failed to connect to backup service: ", e.as_str()),
        ),
        TextFetch::Response { ok, status, body } => {
            if ok {
                Ok(concat3("Destination '", name, "' deleted."))
            } else {
                let b: String = body_text(body);
                Err(
                    concat4(
                        "Failed to delete destination: ",
                        status.as_str(),
                        " - ",
                        b.as_str(),
                    ),
                )
            }
        },
    }
}

impl BackupDestination {
    /// The service's tag for this destination kind.
    pub open spec fn kind_tag(&self) -> Seq<char> {
        match *self {
            BackupDestination::S3 { .. } => "s3"@,
            BackupDestination::GoogleDrive { .. } => "google_drive"@,
            BackupDestination::Ftp { .. } => "ftp"@,
        }
    }

    /// The tag under which the service files this destination kind.
    pub fn kind_name(&self) -> (r: String)
        ensures
            r@ == self.kind_tag(),
    {
        let mut t: String = String::new();
        match self {
            BackupDestination::S3 { .. } => t.append("s3"),
            BackupDestination::GoogleDrive { .. } => t.append("google_drive"),
            BackupDestination::Ftp { .. } => t.append("ftp"),
        }
        proof {
            assert(t@ =~= self.kind_tag());
        }
        t
    }
}

/// The texts among `xs`, in order; other values are dropped.
pub open spec fn text_items(xs: Seq<JsonVal>) -> Seq<Seq<char>>
    decreases xs.len(),
{
    if xs.len() == 0 {
        Seq::<Seq<char>>::empty()
    } else {
        text_items(xs.drop_last()) + (match xs.last() {
            JsonVal::Text(t) => seq![t@],
            _ => Seq::<Seq<char>>::empty(),
        })
    }
}

/// Whether `s` is the typed reading of the schedule object `v`, with
/// the defaults used for absent or mistyped fields: disabled, an empty
/// expression, no retention, and the textual destination names.
pub open spec fn schedule_matches(s: BackupSchedule, v: JsonVal) -> bool {
    &&& s.enabled == or_bool(get_bool_spec(v, "enabled"@), false)
    &&& s.cron@ == or_text(get_text_spec(v, "cron"@), Seq::<char>::empty())
    &&& s.retention_days as int == (match get_u64_spec(v, "retention_days"@) {
        Some(n) => if n <= 4294967295 {
            n as int
        } else {
            0
        },
        None => 0,
    })
    &&& str_views(s.destinations@) == (match get_spec(v, "destinations"@) {
        Some(JsonVal::Arr(xs)) => text_items(xs@),
        _ => Seq::<Seq<char>>::empty(),
    })
}

impl BackupSchedule {
    /// The typed reading of a schedule object.
    #[verifier::loop_isolation(false)]
    pub fn from_json(v: &JsonVal) -> (r: BackupSchedule)
        ensures
            schedule_matches(r, *v),
    {
        proof {
            reveal_strlit("");
        }
        let enabled: bool = v.get_bool_or("enabled", false);
        let cron: String = v.get_text_or("cron", "");
        let retention_days: u32 = match v.get_u64("retention_days") {
            Some(n) => if n <= 4294967295 {
                n as u32
            } else {
                0
            },
            None => 0,
        };
        let mut destinations: Vec<String> = Vec::new();
        match v.get("destinations") {
            Some(dv) => match dv.as_arr() {
                Some(xs) => {
                    let mut k: usize = 0;
                    proof {
                        assert(str_views(destinations@) =~~= text_items(xs@.take(0)));
                    }
                    while k < xs.len()
                        invariant
                            0 <= k <= xs@.len(),
                            str_views(destinations@) == text_items(xs@.take(k as int)),
                        decreases xs@.len() - k,
                    {
                        let ghost pre = destinations@;
                        match xs[k].as_text() {
                            Some(t) => destinations.push(t.clone()),
                            None => {},
                        }
                        proof {
                            assert(str_views(pre).len() == pre.len());
                            assert(xs@.take((k + 1) as int).drop_last() =~= xs@.take(k as int));
                            assert(xs@.take((k + 1) as int).last() == xs@[k as int]);
                            assert(str_views(destinations@) =~~= text_items(
                                xs@.take((k + 1) as int),
                            ));
                            assert(str_views(destinations@) == text_items(
                                xs@.take((k + 1) as int),
                            ));
                        }
                        k = k + 1;
                    }
                    proof {
                        assert(xs@.take(xs@.len() as int) =~= xs@);
                    }
                },
                None => {
                    proof {
                        assert(str_views(destinations@) =~~= Seq::<Seq<char>>::empty());
                    }
                },
            },
            None => {
                proof {
                    assert(str_views(destinations@) =~~= Seq::<Seq<char>>::empty());
                }
            },
        }
        let r = BackupSchedule { enabled, cron, retention_days, destinations };
        proof {
            assert(r.enabled == or_bool(get_bool_spec(*v, "enabled"@), false));
            assert(r.cron@ == or_text(get_text_spec(*v, "cron"@), Seq::<char>::empty()));
            assert(r.retention_days as int == (match get_u64_spec(*v, "retention_days"@) {
                Some(n) => if n <= 4294967295 {
                    n as int
                } else {
                    0
                },
                None => 0,
            }));
            assert(str_views(r.destinations@) == (match get_spec(*v, "destinations"@) {
                Some(JsonVal::Arr(xs)) => text_items(xs@),
                _ => Seq::<Seq<char>>::empty(),
            }));
        }
        r
    }
}

impl BackupStatus {
    /// The typed reading of a status reply: each field as reported, or
    /// absent, with the count clamped to its range.
    pub fn from_json(v: &JsonVal) -> (r: BackupStatus)
        ensures
            opt_text_view(r.last_backup) == get_text_spec(*v, "last_backup"@),
            r.last_backup_size == get_u64_spec(*v, "last_backup_size"@),
            opt_text_view(r.last_error) == get_text_spec(*v, "last_error"@),
            opt_text_view(r.next_scheduled) == get_text_spec(*v, "next_scheduled"@),
            r.total_backups as int == (match get_u64_spec(*v, "total_backups"@) {
                Some(n) => if n <= 4294967295 {
                    n as int
                } else {
                    0
                },
                None => 0,
            }),
            match get_spec(*v, "schedule"@) {
                Some(sch) => r.schedule is Some && schedule_matches(r.schedule->0, sch),
                None => r.schedule is None,
            },
    {
        let last_backup: Option<String> = match v.get_text("last_backup") {
            Some(t) => Some(t.clone()),
            None => None,
        };
        let last_error: Option<String> = match v.get_text("last_error") {
            Some(t) => Some(t.clone()),
            None => None,
        };
        let next_scheduled: Option<String> = match v.get_text("next_scheduled") {
            Some(t) => Some(t.clone()),
            None => None,
        };
        let total_backups: u32 = match v.get_u64("total_backups") {
            Some(n) => if n <= 4294967295 {
                n as u32
            } else {
                0
            },
            None => 0,
        };
        let schedule: Option<BackupSchedule> = match v.get("schedule") {
            Some(sch) => Some(BackupSchedule::from_json(sch)),
            None => None,
        };
        BackupStatus {
            last_backup,
            last_backup_size: v.get_u64("last_backup_size"),
            last_error,
            next_scheduled,
            total_backups,
            schedule,
        }
    }
}

} // verus!
