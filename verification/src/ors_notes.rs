//! The notes tool group's decision logic: URLs and bodies for the
//! notes service, and the interpretation of its replies.

use vstd::prelude::*;
use vstd::string::StringExecFns;
use crate::http::{TextFetch, body_or_empty, body_text};
use crate::json::{JsonVal, text_of};
use crate::text::{concat2, concat3};

verus! {

/// The notes tool group: the service's base URL.
pub struct OrsNotesTools {
    pub api_base: String,
}

impl OrsNotesTools {
    /// A tool group talking to the service at `api_base`.
    pub fn new(api_base: String) -> (r: OrsNotesTools)
        ensures
            r.api_base == api_base,
    {
        OrsNotesTools { api_base }
    }

    /// The URL listing one user's notes.
    pub fn list_url(&self, user_id: &str) -> (r: String)
        ensures
            r@ == self.api_base@ + "/ors/notes/"@ + user_id@,
    {
        concat3(self.api_base.as_str(), "/ors/notes/", user_id)
    }

    /// The URL of the note collection.
    pub fn add_url(&self) -> (r: String)
        ensures
            r@ == self.api_base@ + "/ors/notes"@,
    {
        concat2(self.api_base.as_str(), "/ors/notes")
    }

    /// The URL archiving one note.
    pub fn archive_url(&self, note_id: &str) -> (r: String)
        ensures
            r@ == self.api_base@ + "/ors/notes/"@ + note_id@ + "/archive"@,
    {
        let mut url: String = concat3(self.api_base.as_str(), "/ors/notes/", note_id);
        url.append("/archive");
        url
    }

    /// The body adding one note: user, content, and the category or
    /// its default.
    pub fn add_body(user_id: String, content: String, category: Option<String>) -> (r: JsonVal)
        ensures
            match r {
                JsonVal::Obj(es) => es@.len() == 3 && es@[0].0@ == "user_id"@ && es@[0].1
                    == JsonVal::Text(user_id) && es@[1].0@ == "content"@ && es@[1].1
                    == JsonVal::Text(content) && es@[2].0@ == "category"@ && text_of(es@[2].1)
                    == Some(
                    match category {
                        Some(c) => c@,
                        None => "general"@,
                    },
                ),
                _ => false,
            },
    {
        let cat: String = match category {
            Some(c) => c,
            None => {
                let mut d: String = String::new();
                d.append("general");
                proof {
                    assert(d@ =~= "general"@);
                }
                d
            },
        };
        let mut entries: Vec<(String, JsonVal)> = Vec::new();
        let mut k_user: String = String::new();
        k_user.append("user_id");
        entries.push((k_user, JsonVal::Text(user_id)));
        let mut k_content: String = String::new();
        k_content.append("content");
        entries.push((k_content, JsonVal::Text(content)));
        let mut k_cat: String = String::new();
        k_cat.append("category");
        entries.push((k_cat, JsonVal::Text(cat)));
        JsonVal::Obj(entries)
    }

    /// Interprets a listing reply: the body text on success, and
    /// otherwise a failure carrying the remote's status and body.
    pub fn list_response(f: TextFetch) -> (r: Result<String, String>)
        ensures
            match f {
                TextFetch::ConnectError(e) => r is Err && r->Err_0@ == "Failed to list notes: "@
                    + e@,
                TextFetch::Response { ok, status, body } => if ok {
                    match body {
                        Ok(t) => r is Ok && r->Ok_0@ == t@,
                        Err(e) => r is Err && r->Err_0@ == e@,
                    }
                } else {
                    r is Err && r->Err_0@ == "Failed to list notes: "@ + status@ + " - "@
                        + body_or_empty(body)
                },
            },
    {
        match f {
            TextFetch::ConnectError(e) => Err(concat2("Failed to list notes: ", e.as_str())),
            TextFetch::Response { ok, status, body } => {
                if ok {
                    match body {
                        Ok(t) => Ok(t),
                        Err(e) => Err(e),
                    }
                } else {
                    let b: String = crate::http::body_text(body);
                    Err(
                        crate::text::concat4(
                            "Failed to list notes: ",
                            status.as_str(),
                            " - ",
                            b.as_str(),
                        ),
                    )
                }
            },
        }
    }

    /// Interprets an addition reply.
    pub fn add_response(f: TextFetch) -> (r: Result<String, String>)
        ensures
            match f {
                TextFetch::ConnectError(e) => r is Err && r->Err_0@ == "Failed to add note: "@ + e@,
                TextFetch::Response { ok, status, body } => if ok {
                    r is Ok && r->Ok_0@ == "Note added successfully."@
                } else {
                    r is Err && r->Err_0@ == "Failed to add note: "@ + body_or_empty(body)
                },
            },
    {
        match f {
            TextFetch::ConnectError(e) => Err(concat2("Failed to add note: ", e.as_str())),
            TextFetch::Response { ok, status: _, body } => {
                if ok {
                    let mut msg: String = String::new();
                    msg.append("Note added successfully.");
                    proof {
                        assert(msg@ =~= "Note added successfully."@);
                    }
                    Ok(msg)
                } else {
                    let b: String = body_text(body);
                    Err(concat2("Failed to add note: ", b.as_str()))
                }
            },
        }
    }

    /// Interprets an archive reply.
    pub fn archive_response(f: TextFetch) -> (r: Result<String, String>)
        ensures
            match f {
                TextFetch::ConnectError(e) => r is Err && r->Err_0@ == "Failed to archive note: "@
                    + e@,
                TextFetch::Response { ok, status, body } => if ok {
                    r is Ok && r->Ok_0@ == "Note archived."@
                } else {
                    r is Err && r->Err_0@ == "Failed to archive note: "@ + body_or_empty(body)
                },
            },
    {
        match f {
            TextFetch::ConnectError(e) => Err(concat2("Failed to archive note: ", e.as_str())),
            TextFetch::Response { ok, status: _, body } => {
                if ok {
                    let mut msg: String = String::new();
                    msg.append("Note archived.");
                    proof {
                        assert(msg@ =~= "Note archived."@);
                    }
                    Ok(msg)
                } else {
                    let b: String = body_text(body);
                    Err(concat2("Failed to archive note: ", b.as_str()))
                }
            },
        }
    }
}

} // verus!
