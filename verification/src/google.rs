//! The workspace tool group's decision logic: token-broker and API
//! URLs, event and sheet bodies, and the interpretation of the
//! services' replies.  OAuth and the transfers themselves happen at
//! the process edge.

use vstd::prelude::*;
use vstd::string::StringExecFns;
use crate::http::{TextFetch, body_or_empty, body_text};
use crate::json::{JsonVal, get_text_spec, text_of};
use crate::http::JsonFetch;
use crate::text::{concat2, concat3, concat4, concat5, dec_str_int, i32_to_string};

verus! {

/// The workspace tool group: the token broker's base URL.
pub struct GoogleTools {
    pub api_base: String,
}

/// What percent-encoding a string yields; the result depends on the
/// characters alone.
pub uninterp spec fn url_encoded_of(s: Seq<char>) -> Seq<char>;

/// Relies on urlencoding::encode: percent-encodes every character
/// outside unreserved ASCII, leaving the rest in place; a pure
/// function of its input.
#[verifier::external_body]
fn url_encode(q: &str) -> (r: String)
    ensures
        r@ == url_encoded_of(q@),
        q@.len() == 0 ==> r@.len() == 0,
{
    urlencoding::encode(q).into_owned()
}

/// Relies on chrono's Utc::now and to_rfc3339: the current UTC time
/// rendered in RFC 3339 form.  The result depends on the clock, so
/// nothing is promised of it.
#[verifier::external_body]
fn now_rfc3339() -> (r: String) {
    chrono::Utc::now().to_rfc3339()
}

/// The event-listing URL for a calendar, result limit and lower time
/// bound.
pub open spec fn calendar_list_url_spec(
    cal_id: Option<Seq<char>>,
    max_results: Option<i32>,
    time_min: Seq<char>,
) -> Seq<char> {
    "https://www.googleapis.com/calendar/v3/calendars/"@ + (match cal_id {
        Some(c) => c,
        None => "primary"@,
    }) + "/events?maxResults="@ + dec_str_int(
        match max_results {
            Some(m) => m as int,
            None => 10,
        },
    ) + "&singleEvents=true&orderBy=startTime&timeMin="@ + time_min
}

impl GoogleTools {
    /// A tool group whose token broker lives at `api_base`.
    pub fn new(api_base: String) -> (r: GoogleTools)
        ensures
            r.api_base == api_base,
    {
        GoogleTools { api_base }
    }

    /// The token broker URL for one user.
    pub fn token_url(&self, user_id: &str) -> (r: String)
        ensures
            r@ == self.api_base@ + "/oauth/google/token/"@ + user_id@,
    {
        concat3(self.api_base.as_str(), "/oauth/google/token/", user_id)
    }

    /// Interprets the token broker's reply: the access token, a fixed
    /// not-connected message on a non-success status, and decode
    /// failures as their own message.  A reply without a textual
    /// access token counts as undecodable.
    pub fn token_response(f: JsonFetch) -> (r: Result<String, String>)
        ensures
            match f {
                JsonFetch::ConnectError(e) => r is Err && r->Err_0@ == "Failed to get token: "@
                    + e@,
                JsonFetch::HttpError(_, _) => r is Err && r->Err_0@
                    == "Google account not connected. Use google_connect first."@,
                JsonFetch::Parsed(Err(pe)) => r is Err && r->Err_0@ == "Failed to parse token: "@
                    + pe@,
                JsonFetch::Parsed(Ok(data)) => match get_text_spec(data, "access_token"@) {
                    Some(t) => r is Ok && r->Ok_0@ == t,
                    None => r is Err && r->Err_0@
                        == "Failed to parse token: missing access token"@,
                },
            },
    {
        match f {
            JsonFetch::ConnectError(e) => Err(concat2("Failed to get token: ", e.as_str())),
            JsonFetch::HttpError(_, _) => {
                let mut msg: String = String::new();
                msg.append("Google account not connected. Use google_connect first.");
                proof {
                    assert(msg@ =~= "Google account not connected. Use google_connect first."@);
                }
                Err(msg)
            },
            JsonFetch::Parsed(Err(pe)) => Err(concat2("Failed to parse token: ", pe.as_str())),
            JsonFetch::Parsed(Ok(data)) => match data.get_text("access_token") {
                Some(t) => Ok(t.clone()),
                None => {
                    let mut msg: String = String::new();
                    msg.append("Failed to parse token: missing access token");
                    proof {
                        assert(msg@ =~= "Failed to parse token: missing access token"@);
                    }
                    Err(msg)
                },
            },
        }
    }

    /// The bearer header for an access token.
    pub fn auth_header(token: &str) -> (r: (String, String))
        ensures
            r.0@ == "Authorization"@,
            r.1@ == "Bearer "@ + token@,
    {
        let mut name: String = String::new();
        name.append("Authorization");
        proof {
            assert(name@ =~= "Authorization"@);
        }
        (name, concat2("Bearer ", token))
    }
}

/// The event-listing URL for an explicit lower time bound.
pub fn calendar_list_url_at(
    cal_id: &Option<String>,
    max_results: Option<i32>,
    time_min: &str,
) -> (r: String)
    ensures
        r@ == calendar_list_url_spec(
            crate::json::opt_text_view(*cal_id),
            max_results,
            time_min@,
        ),
{
    let cal: String = match cal_id {
        Some(c) => c.clone(),
        None => {
            let mut d: String = String::new();
            d.append("primary");
            proof {
                assert(d@ =~= "primary"@);
            }
            d
        },
    };
    let max: String = i32_to_string(
        match max_results {
            Some(m) => m,
            None => 10,
        },
    );
    concat5(
        "https://www.googleapis.com/calendar/v3/calendars/",
        cal.as_str(),
        "/events?maxResults=",
        max.as_str(),
        concat2("&singleEvents=true&orderBy=startTime&timeMin=", time_min).as_str(),
    )
}

/// The event-listing URL with the current time as lower bound; the
/// clock decides the bound, everything else is fixed by the inputs.
pub fn calendar_list_url(cal_id: &Option<String>, max_results: Option<i32>) -> (r: String)
    ensures
        exists|t: Seq<char>|
            r@ == calendar_list_url_spec(
                crate::json::opt_text_view(*cal_id),
                max_results,
                t,
            ),
{
    let now: String = now_rfc3339();
    let r: String = calendar_list_url_at(cal_id, max_results, now.as_str());
    proof {
        assert(r@ == calendar_list_url_spec(
            crate::json::opt_text_view(*cal_id),
            max_results,
            now@,
        ));
    }
    r
}

/// The fixed event-creation URL.
pub fn calendar_create_url() -> (r: String)
    ensures
        r@ == "https://www.googleapis.com/calendar/v3/calendars/primary/events"@,
{
    let mut url: String = String::new();
    url.append("https://www.googleapis.com/calendar/v3/calendars/primary/events");
    proof {
        assert(url@ =~= "https://www.googleapis.com/calendar/v3/calendars/primary/events"@);
    }
    url
}

/// The body creating one event: title, description or empty, and the
/// start and end times as nested objects.
pub fn calendar_create_body(
    title: String,
    start_time: String,
    end_time: String,
    description: Option<String>,
) -> (r: JsonVal)
    ensures
        match r {
            JsonVal::Obj(es) => es@.len() == 4 && es@[0].0@ == "summary"@ && es@[0].1
                == JsonVal::Text(title) && es@[1].0@ == "description"@ && text_of(es@[1].1)
                == Some(
                match description {
                    Some(d) => d@,
                    None => Seq::<char>::empty(),
                },
            ) && es@[2].0@ == "start"@ && (match es@[2].1 {
                JsonVal::Obj(st) => st@.len() == 1 && st@[0].0@ == "dateTime"@ && st@[0].1
                    == JsonVal::Text(start_time),
                _ => false,
            }) && es@[3].0@ == "end"@ && (match es@[3].1 {
                JsonVal::Obj(en) => en@.len() == 1 && en@[0].0@ == "dateTime"@ && en@[0].1
                    == JsonVal::Text(end_time),
                _ => false,
            }),
            _ => false,
        },
{
    let desc: String = match description {
        Some(d) => d,
        None => String::new(),
    };
    let mut start_entries: Vec<(String, JsonVal)> = Vec::new();
    let mut k_dt1: String = String::new();
    k_dt1.append("dateTime");
    start_entries.push((k_dt1, JsonVal::Text(start_time)));
    let mut end_entries: Vec<(String, JsonVal)> = Vec::new();
    let mut k_dt2: String = String::new();
    k_dt2.append("dateTime");
    end_entries.push((k_dt2, JsonVal::Text(end_time)));
    let mut entries: Vec<(String, JsonVal)> = Vec::new();
    let mut k_sum: String = String::new();
    k_sum.append("summary");
    entries.push((k_sum, JsonVal::Text(title)));
    let mut k_desc: String = String::new();
    k_desc.append("description");
    entries.push((k_desc, JsonVal::Text(desc)));
    let mut k_start: String = String::new();
    k_start.append("start");
    entries.push((k_start, JsonVal::Obj(start_entries)));
    let mut k_end: String = String::new();
    k_end.append("end");
    entries.push((k_end, JsonVal::Obj(end_entries)));
    proof {
        reveal_strlit("");
    }
    JsonVal::Obj(entries)
}

/// Interprets the reply to an event creation.
pub fn calendar_create_response(title: &str, f: TextFetch) -> (r: Result<String, String>)
    ensures
        match f {
            TextFetch::ConnectError(e) => r is Err && r->Err_0@ == "Calendar API failed: "@ + e@,
            TextFetch::Response { ok, status, body } => if ok {
                r is Ok && r->Ok_0@ == "Created event: "@ + title@
            } else {
                r is Err && r->Err_0@ == "Failed to create event: "@ + body_or_empty(body)
            },
        },
{
    match f {
        TextFetch::ConnectError(e) => Err(concat2("Calendar API failed: ", e.as_str())),
        TextFetch::Response { ok, status: _, body } => {
            if ok {
                Ok(concat2("Created event: ", title))
            } else {
                let b: String = body_text(body);
                Err(concat2("Failed to create event: ", b.as_str()))
            }
        },
    }
}

/// Interprets a reply passed through as text, with `prefix` naming
/// the API: the body text on a success status, and otherwise a
/// failure carrying the remote's status and body.
pub fn passthrough_response(prefix: &str, f: TextFetch) -> (r: Result<String, String>)
    ensures
        match f {
            TextFetch::ConnectError(e) => r is Err && r->Err_0@ == prefix@ + e@,
            TextFetch::Response { ok, status, body } => if ok {
                match body {
                    Ok(t) => r is Ok && r->Ok_0@ == t@,
                    Err(e) => r is Err && r->Err_0@ == e@,
                }
            } else {
                r is Err && r->Err_0@ == prefix@ + status@ + " - "@ + body_or_empty(body)
            },
        },
{
    match f {
        TextFetch::ConnectError(e) => Err(concat2(prefix, e.as_str())),
        TextFetch::Response { ok, status, body } => {
            if ok {
                match body {
                    Ok(t) => Ok(t),
                    Err(e) => Err(e),
                }
            } else {
                let b: String = body_text(body);
                Err(concat4(prefix, status.as_str(), " - ", b.as_str()))
            }
        },
    }
}

/// The sheet-range read URL.
pub fn sheets_read_url(spreadsheet_id: &str, range: &str) -> (r: String)
    ensures
        r@ == "https://sheets.googleapis.com/v4/spreadsheets/"@ + spreadsheet_id@ + "/values/"@
            + range@,
{
    concat4(
        "https://sheets.googleapis.com/v4/spreadsheets/",
        spreadsheet_id,
        "/values/",
        range,
    )
}

/// The sheet-range write URL.
pub fn sheets_write_url(spreadsheet_id: &str, range: &str) -> (r: String)
    ensures
        r@ == "https://sheets.googleapis.com/v4/spreadsheets/"@ + spreadsheet_id@ + "/values/"@
            + range@ + "?valueInputOption=USER_ENTERED"@,
{
    concat5(
        "https://sheets.googleapis.com/v4/spreadsheets/",
        spreadsheet_id,
        "/values/",
        range,
        "?valueInputOption=USER_ENTERED",
    )
}

/// The message rejecting an unparseable value payload.
pub fn invalid_values_message(e: &str) -> (r: String)
    ensures
        r@ == "Invalid JSON values: "@ + e@,
{
    concat2("Invalid JSON values: ", e)
}

/// The body of a sheet write: the decoded values under their key.
pub fn sheets_write_body(values: JsonVal) -> (r: JsonVal)
    ensures
        match r {
            JsonVal::Obj(es) => es@.len() == 1 && es@[0].0@ == "values"@ && es@[0].1 == values,
            _ => false,
        },
{
    let mut entries: Vec<(String, JsonVal)> = Vec::new();
    let mut k_values: String = String::new();
    k_values.append("values");
    entries.push((k_values, values));
    JsonVal::Obj(entries)
}

/// Interprets the reply to a sheet write.
pub fn sheets_write_response(range: &str, f: TextFetch) -> (r: Result<String, String>)
    ensures
        match f {
            TextFetch::ConnectError(e) => r is Err && r->Err_0@ == "Sheets API failed: "@ + e@,
            TextFetch::Response { ok, status, body } => if ok {
                r is Ok && r->Ok_0@ == "Wrote data to "@ + range@
            } else {
                r is Err && r->Err_0@ == "Failed to write: "@ + body_or_empty(body)
            },
        },
{
    match f {
        TextFetch::ConnectError(e) => Err(concat2("Sheets API failed: ", e.as_str())),
        TextFetch::Response { ok, status: _, body } => {
            if ok {
                Ok(concat2("Wrote data to ", range))
            } else {
                let b: String = body_text(body);
                Err(concat2("Failed to write: ", b.as_str()))
            }
        },
    }
}

/// The file-listing URL, with the search query percent-encoded when
/// given.
pub fn drive_list_url(query: &Option<String>) -> (r: String)
    ensures
        r@ == "https://www.googleapis.com/drive/v3/files?pageSize=20"@ + (match *query {
            Some(q) => "&q="@ + url_encoded_of(q@),
            None => Seq::<char>::empty(),
        }),
{
    let mut url: String = String::new();
    url.append("https://www.googleapis.com/drive/v3/files?pageSize=20");
    match query {
        Some(q) => {
            let enc: String = url_encode(q.as_str());
            url.append("&q=");
            url.append(enc.as_str());
        },
        None => {},
    }
    proof {
        assert(url@ =~= "https://www.googleapis.com/drive/v3/files?pageSize=20"@ + (
        match *query {
            Some(q) => "&q="@ + url_encoded_of(q@),
            None => Seq::<char>::empty(),
        }));
    }
    url
}

/// The file-download URL.
pub fn drive_download_url(file_id: &str) -> (r: String)
    ensures
        r@ == "https://www.googleapis.com/drive/v3/files/"@ + file_id@ + "?alt=media"@,
{
    concat3("https://www.googleapis.com/drive/v3/files/", file_id, "?alt=media")
}

} // verus!
