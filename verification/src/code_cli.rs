//! The coding-CLI tool group's decision logic: planning the subprocess
//! invocation, interpreting its outcome, and the shared working
//! directory - the single piece of cross-request mutable state in the
//! whole catalog.  The process edge owns the lock around a value of
//! this type, runs the subprocess, and probes the filesystem; it hands
//! plain values in and takes plain values back.

use vstd::prelude::*;
use vstd::string::StringExecFns;
use crate::text::trim_spec;

verus! {

/// The shared working-directory state of the coding-CLI tool group.
pub struct CodeCliTools {
    pub workdir: Option<String>,
}

/// A planned subprocess invocation: program, arguments in order, and
/// the directory to run in, if any.
pub struct CliPlan {
    pub program: String,
    pub args: Vec<String>,
    pub dir: Option<String>,
}

/// The working-directory text shown to callers: the stored path, or
/// `Not set`.
pub open spec fn workdir_text(w: Option<String>) -> Seq<char> {
    match w {
        Some(d) => d@,
        None => "Not set"@,
    }
}

/// The state after an attempt to set the working directory to `path`
/// when the filesystem reports its existence as `path_exists`: updated
/// on success, untouched otherwise.
pub open spec fn workdir_after_set(
    w: Option<String>,
    path: String,
    path_exists: bool,
) -> Option<String> {
    if path_exists {
        Some(path)
    } else {
        w
    }
}

impl CodeCliTools {
    /// A fresh state holding the configured initial directory, if any.
    pub fn new(initial: Option<String>) -> (r: CodeCliTools)
        ensures
            r.workdir == initial,
    {
        CodeCliTools { workdir: initial }
    }

    /// The stored working directory for display, or `Not set`.
    pub fn get_workdir(&self) -> (r: String)
        ensures
            r@ == workdir_text(self.workdir),
    {
        match &self.workdir {
            Some(d) => d.clone(),
            None => {
                let mut s: String = String::new();
                s.append("Not set");
                proof {
                    assert(s@ =~= "Not set"@);
                }
                s
            },
        }
    }

    /// Sets the working directory when the path exists; otherwise the
    /// state stays exactly as it was and the caller gets the failure
    /// text.  `path_exists` is the filesystem's answer for `path`,
    /// probed by the process edge.
    pub fn set_workdir(&mut self, path: String, path_exists: bool) -> (r: Result<String, String>)
        ensures
            final(self).workdir == workdir_after_set(old(self).workdir, path, path_exists),
            match r {
                Ok(t) => path_exists && t@ == "Working directory set to: "@ + path@,
                Err(t) => !path_exists && t@ == "Path does not exist: "@ + path@,
            },
    {
        if !path_exists {
            let mut msg: String = String::new();
            msg.append("Path does not exist: ");
            msg.append(path.as_str());
            proof {
                assert(msg@ =~= "Path does not exist: "@ + path@);
            }
            return Err(msg);
        }
        let mut msg: String = String::new();
        msg.append("Working directory set to: ");
        msg.append(path.as_str());
        proof {
            assert(msg@ =~= "Working directory set to: "@ + path@);
        }
        self.workdir = Some(path);
        Ok(msg)
    }

    /// Plans one CLI run for `task`: the fixed program, `--print` and
    /// the task, the configured turn limit when present, in the
    /// requested directory or, failing that, the stored one.
    pub fn execute_plan(&self, task: &str, workdir: Option<String>, max_turns: Option<String>) -> (r:
        CliPlan)
        ensures
            r.program@ == "coder"@,
            r.args@.map_values(|a: String| a@) =~= seq!["--print"@, task@] + match max_turns {
                Some(t) => seq!["--max-turns"@, t@],
                None => Seq::<Seq<char>>::empty(),
            },
            r.dir == match workdir {
                Some(d) => Some(d),
                None => self.workdir,
            },
    {
        let mut args: Vec<String> = Vec::new();
        let mut flag: String = String::new();
        flag.append("--print");
        proof {
            assert(flag@ =~= "--print"@);
        }
        args.push(flag);
        args.push(task.to_owned());
        match &max_turns {
            Some(t) => {
                let mut turns_flag: String = String::new();
                turns_flag.append("--max-turns");
                proof {
                    assert(turns_flag@ =~= "--max-turns"@);
                }
                args.push(turns_flag);
                args.push(t.clone());
            },
            None => {},
        }
        let dir: Option<String> = match workdir {
            Some(d) => Some(d),
            None => match &self.workdir {
                Some(d) => Some(d.clone()),
                None => None,
            },
        };
        let mut program: String = String::new();
        program.append("coder");
        proof {
            assert(program@ =~= "coder"@);
            assert(args@.map_values(|a: String| a@) =~= seq!["--print"@, task@] + match max_turns {
                Some(t) => seq!["--max-turns"@, t@],
                None => Seq::<Seq<char>>::empty(),
            });
        }
        CliPlan { program, args, dir }
    }

    /// Interprets one CLI run.  `run` is what the process edge saw:
    /// the spawn error text, or the exit success flag with the standard
    /// output and error texts.
    pub fn execute_outcome(run: Result<(bool, String, String), String>) -> (r: Result<
        String,
        String,
    >)
        ensures
            match run {
                Err(e) => r is Err && r->Err_0@ == "Failed to run Code CLI: "@ + e@,
                Ok((true, out, _)) => r is Ok && r->Ok_0@ == out@,
                Ok((false, out, err)) => r is Err && r->Err_0@ == "Code CLI failed: "@ + out@
                    + "\n"@ + err@,
            },
    {
        match run {
            Err(e) => {
                let mut msg: String = String::new();
                msg.append("Failed to run Code CLI: ");
                msg.append(e.as_str());
                proof {
                    assert(msg@ =~= "Failed to run Code CLI: "@ + e@);
                }
                Err(msg)
            },
            Ok((success, out, err)) => {
                if success {
                    Ok(out)
                } else {
                    let mut msg: String = String::new();
                    msg.append("Code CLI failed: ");
                    msg.append(out.as_str());
                    msg.append("\n");
                    msg.append(err.as_str());
                    proof {
                        assert(msg@ =~= "Code CLI failed: "@ + out@ + "\n"@ + err@);
                    }
                    Err(msg)
                }
            },
        }
    }

    /// Interprets one availability probe of the CLI.  `probe` is the
    /// spawn error text, or the exit success flag with the version
    /// text the probe printed.
    pub fn status_report(&self, probe: Result<(bool, String), String>) -> (r: Result<
        String,
        String,
    >)
        ensures
            match probe {
                Err(_) => r is Err && r->Err_0@ == "Code CLI not installed"@,
                Ok((false, _)) => r is Err && r->Err_0@
                    == "Code CLI not authenticated or configured"@,
                Ok((true, version)) => r is Ok && r->Ok_0@ == "Code CLI: Available\nVersion: "@
                    + trim_spec(version@) + "\nWorkdir: "@ + workdir_text(self.workdir),
            },
    {
        match probe {
            Err(_) => {
                let mut msg: String = String::new();
                msg.append("Code CLI not installed");
                proof {
                    assert(msg@ =~= "Code CLI not installed"@);
                }
                Err(msg)
            },
            Ok((success, version)) => {
                if !success {
                    let mut msg: String = String::new();
                    msg.append("Code CLI not authenticated or configured");
                    proof {
                        assert(msg@ =~= "Code CLI not authenticated or configured"@);
                    }
                    return Err(msg);
                }
                let trimmed: String = crate::text::trim(version.as_str());
                let mut msg: String = String::new();
                msg.append("Code CLI: Available\nVersion: ");
                msg.append(trimmed.as_str());
                msg.append("\nWorkdir: ");
                let wd: String = self.get_workdir();
                msg.append(wd.as_str());
                proof {
                    assert(msg@ =~= "Code CLI: Available\nVersion: "@ + trim_spec(version@)
                        + "\nWorkdir: "@ + workdir_text(self.workdir));
                }
                Ok(msg)
            },
        }
    }
}

} // verus!
