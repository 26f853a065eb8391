//! The sandbox tool group's decision logic: request bodies and URLs
//! for the sandbox service's endpoints, and the interpretation of its
//! replies.  The service runs code elsewhere; here only plain values
//! are shaped and reshaped.

use vstd::prelude::*;
use vstd::string::StringExecFns;
use crate::http::{HttpPlan, JsonFetch, Method, headers_view};
use crate::json::{JsonVal, get_bool_spec, get_spec, text_of};
use crate::text::concat2;

verus! {

/// The sandbox tool group: the service's base URL and optional API
/// key, when configured.
pub struct SandboxTools {
    pub api_url: Option<String>,
    pub api_key: Option<String>,
}

fn key_string(k: &str) -> (r: String)
    ensures
        r@ == k@,
{
    k.to_owned()
}

/// The body of a code-execution request.
pub fn execute_python_body(code: String) -> (r: JsonVal)
    ensures
        match r {
            JsonVal::Obj(es) => es@.len() == 2 && es@[0].0@ == "code"@ && es@[0].1
                == JsonVal::Text(code) && es@[1].0@ == "language"@ && text_of(es@[1].1) == Some(
                "python"@,
            ),
            _ => false,
        },
{
    let mut entries: Vec<(String, JsonVal)> = Vec::new();
    entries.push((key_string("code"), JsonVal::Text(code)));
    entries.push((key_string("language"), JsonVal::Text(key_string("python"))));
    JsonVal::Obj(entries)
}

/// The body of a package-installation request.
pub fn install_package_body(package: String) -> (r: JsonVal)
    ensures
        match r {
            JsonVal::Obj(es) => es@.len() == 1 && es@[0].0@ == "package"@ && es@[0].1
                == JsonVal::Text(package),
            _ => false,
        },
{
    let mut entries: Vec<(String, JsonVal)> = Vec::new();
    entries.push((key_string("package"), JsonVal::Text(package)));
    JsonVal::Obj(entries)
}

/// The body of a file-read request.
pub fn read_file_body(path: String) -> (r: JsonVal)
    ensures
        match r {
            JsonVal::Obj(es) => es@.len() == 1 && es@[0].0@ == "path"@ && es@[0].1
                == JsonVal::Text(path),
            _ => false,
        },
{
    let mut entries: Vec<(String, JsonVal)> = Vec::new();
    entries.push((key_string("path"), JsonVal::Text(path)));
    JsonVal::Obj(entries)
}

/// The body of a file-write request.
pub fn write_file_body(path: String, content: String) -> (r: JsonVal)
    ensures
        match r {
            JsonVal::Obj(es) => es@.len() == 2 && es@[0].0@ == "path"@ && es@[0].1
                == JsonVal::Text(path) && es@[1].0@ == "content"@ && es@[1].1 == JsonVal::Text(
                content,
            ),
            _ => false,
        },
{
    let mut entries: Vec<(String, JsonVal)> = Vec::new();
    entries.push((key_string("path"), JsonVal::Text(path)));
    entries.push((key_string("content"), JsonVal::Text(content)));
    JsonVal::Obj(entries)
}

/// The body of a listing request: the given directory, or the home
/// directory.
pub fn list_files_body(path: Option<String>) -> (r: JsonVal)
    ensures
        match r {
            JsonVal::Obj(es) => es@.len() == 1 && es@[0].0@ == "path"@ && text_of(es@[0].1)
                == Some(
                match path {
                    Some(p) => p@,
                    None => "/home/user"@,
                },
            ),
            _ => false,
        },
{
    let dir: String = match path {
        Some(p) => p,
        None => key_string("/home/user"),
    };
    let mut entries: Vec<(String, JsonVal)> = Vec::new();
    entries.push((key_string("path"), JsonVal::Text(dir)));
    JsonVal::Obj(entries)
}

/// The body of a shell-command request.
pub fn run_shell_body(command: String) -> (r: JsonVal)
    ensures
        match r {
            JsonVal::Obj(es) => es@.len() == 1 && es@[0].0@ == "command"@ && es@[0].1
                == JsonVal::Text(command),
            _ => false,
        },
{
    let mut entries: Vec<(String, JsonVal)> = Vec::new();
    entries.push((key_string("command"), JsonVal::Text(command)));
    JsonVal::Obj(entries)
}

impl SandboxTools {
    /// A tool group for the service at `api_url` with the optional
    /// `api_key`.
    pub fn new(api_url: Option<String>, api_key: Option<String>) -> (r: SandboxTools)
        ensures
            r.api_url == api_url,
            r.api_key == api_key,
    {
        SandboxTools { api_url, api_key }
    }

    /// Plans one call to a sandbox endpoint: refused without a
    /// configured base URL, else a JSON POST with the configured key
    /// header when present.
    pub fn sandbox_request(&self, endpoint: &str, body: JsonVal) -> (r: Result<HttpPlan, String>)
        ensures
            match r {
                Err(t) => self.api_url is None && t@ == "SANDBOX_API_URL not configured"@,
                Ok(plan) => self.api_url is Some && plan.method == Method::Post && plan.url@
                    == self.api_url->0@ + endpoint@ && plan.body == Some(body) && headers_view(
                    plan.headers@,
                ) =~~= (seq![("Content-Type"@, "application/json"@)] + (match self.api_key {
                    Some(k) => seq![("X-API-Key"@, k@)],
                    None => Seq::<(Seq<char>, Seq<char>)>::empty(),
                })),
            },
    {
        let base: &String = match &self.api_url {
            Some(b) => b,
            None => {
                return Err(key_string("SANDBOX_API_URL not configured"));
            },
        };
        let url: String = concat2(base.as_str(), endpoint);
        let mut headers: Vec<(String, String)> = Vec::new();
        headers.push((key_string("Content-Type"), key_string("application/json")));
        match &self.api_key {
            Some(k) => {
                headers.push((key_string("X-API-Key"), k.clone()));
            },
            None => {},
        }
        proof {
            assert(headers_view(headers@) =~~= (seq![("Content-Type"@, "application/json"@)] + (
            match self.api_key {
                Some(k) => seq![("X-API-Key"@, k@)],
                None => Seq::<(Seq<char>, Seq<char>)>::empty(),
            })));
        }
        Ok(HttpPlan { method: Method::Post, url, headers, body: Some(body) })
    }

    /// Interprets a sandbox reply: the output on reported success, the
    /// reported error otherwise; transport, status and decode failures
    /// each carry their own message.  A reply without a boolean
    /// success flag, or whose output or error field is not text,
    /// counts as undecodable.
    pub fn sandbox_response(f: JsonFetch) -> (r: Result<String, String>)
        ensures
            match f {
                JsonFetch::ConnectError(e) => r is Err && r->Err_0@ == "Sandbox request failed: "@
                    + e@,
                JsonFetch::HttpError(status, body) => r is Err && r->Err_0@
                    == "Sandbox API error "@ + status@ + ": "@ + body@,
                JsonFetch::Parsed(Err(pe)) => r is Err && r->Err_0@ == "Failed to parse response: "@
                    + pe@,
                JsonFetch::Parsed(Ok(data)) => match get_bool_spec(data, "success"@) {
                    Some(true) => match get_spec(data, "output"@) {
                        None => r is Ok && r->Ok_0@ == Seq::<char>::empty(),
                        Some(v) => match text_of(v) {
                            Some(t) => r is Ok && r->Ok_0@ == t,
                            None => r is Err && r->Err_0@
                                == "Failed to parse response: unexpected shape"@,
                        },
                    },
                    Some(false) => match get_spec(data, "error"@) {
                        None => r is Err && r->Err_0@ == "Unknown error"@,
                        Some(v) => match text_of(v) {
                            Some(t) => r is Err && r->Err_0@ == t,
                            None => r is Err && r->Err_0@
                                == "Failed to parse response: unexpected shape"@,
                        },
                    },
                    None => r is Err && r->Err_0@
                        == "Failed to parse response: missing success flag"@,
                },
            },
    {
        match f {
            JsonFetch::ConnectError(e) => Err(concat2("Sandbox request failed: ", e.as_str())),
            JsonFetch::HttpError(status, body) => Err(
                crate::text::concat4("Sandbox API error ", status.as_str(), ": ", body.as_str()),
            ),
            JsonFetch::Parsed(Err(pe)) => Err(concat2("Failed to parse response: ", pe.as_str())),
            JsonFetch::Parsed(Ok(data)) => {
                match data.get_bool("success") {
                    Some(true) => match data.get("output") {
                        None => Ok(String::new()),
                        Some(v) => match v.as_text() {
                            Some(t) => Ok(t.clone()),
                            None => Err(
                                key_string("Failed to parse response: unexpected shape"),
                            ),
                        },
                    },
                    Some(false) => match data.get("error") {
                        None => Err(key_string("Unknown error")),
                        Some(v) => match v.as_text() {
                            Some(t) => Err(t.clone()),
                            None => Err(
                                key_string("Failed to parse response: unexpected shape"),
                            ),
                        },
                    },
                    None => Err(key_string("Failed to parse response: missing success flag")),
                }
            },
        }
    }
}

} // verus!
