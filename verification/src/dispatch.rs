//! The dispatcher: resolves an inbound request envelope against the
//! registry, validates its payload, and expresses every failure as a
//! response envelope.  Dispatch itself never fails outward: a request
//! either becomes a ready invocation of its handler or a failure
//! envelope, and the handler's eventual outcome is wrapped
//! unconditionally.

use vstd::prelude::*;
use vstd::string::StringExecFns;
use crate::envelope::{Response, failure_text, is_success, one_block};
use crate::json::{JsonVal, get_spec};
use crate::registry::{Descriptor, OpKind, Registry, lookup_spec};
use crate::schema::{ValidationError, payload_valid, type_matches, validate};

verus! {

/// One inbound call: the requested operation name and its parameter
/// payload.  A request that arrives without parameters enters as an
/// empty object.
pub struct RequestEnvelope {
    pub name: String,
    pub payload: JsonVal,
}

/// What resolving a request yields: the descriptor to invoke, or the
/// failure envelope to return at once.
pub enum RouteOutcome<'a> {
    Ready(&'a Descriptor),
    Rejected(Response),
}

/// The message reported for a name absent from the registry.
pub open spec fn unknown_op_text(name: Seq<char>) -> Seq<char> {
    "Unknown operation: "@ + name
}

/// The message reported for a payload that failed validation.
pub open spec fn validation_text(e: ValidationError) -> Seq<char> {
    match e {
        ValidationError::NotAnObject => "Invalid parameters: payload is not an object"@,
        ValidationError::MissingField(n) => "Invalid parameters: missing required field '"@ + n@
            + "'"@,
        ValidationError::WrongType(n) => "Invalid parameters: wrong type for field '"@ + n@ + "'"@,
    }
}

/// Whether `e` is a truthful account of why `p` fails `d`'s schema.
pub open spec fn describes_rejection(d: Descriptor, p: JsonVal, e: ValidationError) -> bool {
    match e {
        ValidationError::NotAnObject => !(p is Obj),
        ValidationError::MissingField(n) => p is Obj && exists|i: int|
            0 <= i < d.schema.fields@.len() && (#[trigger] d.schema.fields@[i]).name@ == n@
                && d.schema.fields@[i].required && get_spec(p, n@) is None,
        ValidationError::WrongType(n) => p is Obj && exists|i: int|
            0 <= i < d.schema.fields@.len() && (#[trigger] d.schema.fields@[i]).name@ == n@
                && match get_spec(p, n@) {
                Some(v) => !type_matches(v, d.schema.fields@[i].ty),
                None => false,
            },
    }
}

/// Whether `r` is a failure envelope whose single block reads `text`.
pub open spec fn rejected_with(r: Response, text: Seq<char>) -> bool {
    !is_success(r) && one_block(r, text)
}

fn validation_message(e: &ValidationError) -> (r: String)
    ensures
        r@ == validation_text(*e),
{
    match e {
        ValidationError::NotAnObject => {
            let mut msg: String = String::new();
            msg.append("Invalid parameters: payload is not an object");
            proof {
                assert(msg@ =~= validation_text(*e));
            }
            msg
        },
        ValidationError::MissingField(n) => {
            let mut msg: String = String::new();
            msg.append("Invalid parameters: missing required field '");
            msg.append(n.as_str());
            msg.append("'");
            proof {
                assert(msg@ =~= validation_text(*e));
            }
            msg
        },
        ValidationError::WrongType(n) => {
            let mut msg: String = String::new();
            msg.append("Invalid parameters: wrong type for field '");
            msg.append(n.as_str());
            msg.append("'");
            proof {
                assert(msg@ =~= validation_text(*e));
            }
            msg
        },
    }
}

/// Resolves and validates one request.  Dispatch is total: every
/// request - known or unknown name, valid or invalid payload - yields
/// either a ready invocation or a failure envelope, never anything
/// else; an unknown name reports exactly the unknown-operation message,
/// and an invalid payload reports a truthful account of its first
/// violation.
pub fn route<'a>(reg: &'a Registry, req: &RequestEnvelope) -> (r: RouteOutcome<'a>)
    ensures
        match lookup_spec(reg@, req.name@) {
            None => match r {
                RouteOutcome::Rejected(resp) => rejected_with(resp, unknown_op_text(req.name@)),
                _ => false,
            },
            Some(d) => if payload_valid(d.schema, req.payload) {
                match r {
                    RouteOutcome::Ready(rd) => *rd == d,
                    _ => false,
                }
            } else {
                match r {
                    RouteOutcome::Rejected(resp) => exists|e: ValidationError|
                        describes_rejection(d, req.payload, e) && rejected_with(
                            resp,
                            validation_text(e),
                        ),
                    _ => false,
                }
            },
        },
{
    match reg.lookup(req.name.as_str()) {
        None => {
            let mut msg: String = String::new();
            msg.append("Unknown operation: ");
            msg.append(req.name.as_str());
            proof {
                assert(msg@ =~= unknown_op_text(req.name@));
            }
            RouteOutcome::Rejected(failure_text(msg))
        },
        Some(d) => match validate(&d.schema, &req.payload) {
            Ok(()) => RouteOutcome::Ready(d),
            Err(e) => {
                let msg: String = validation_message(&e);
                proof {
                    assert(describes_rejection(*d, req.payload, e));
                }
                RouteOutcome::Rejected(failure_text(msg))
            },
        },
    }
}

/// Whether an operation writes the shared working directory - the only
/// cross-request mutable value in the whole catalog.
pub open spec fn writes_workdir(op: OpKind) -> bool {
    op == OpKind::CodeCliSetWorkdir
}

/// Whether an operation reads the shared working directory.
pub open spec fn reads_workdir(op: OpKind) -> bool {
    ||| op == OpKind::CodeCli
    ||| op == OpKind::CodeCliGetWorkdir
    ||| op == OpKind::CodeCliStatus
    ||| op == OpKind::CodeCliSetWorkdir
}

/// Two operations target disjoint resources when neither writes what
/// the other reads or writes.
pub open spec fn disjoint_ops(a: OpKind, b: OpKind) -> bool {
    &&& !(writes_workdir(a) && (reads_workdir(b) || writes_workdir(b)))
    &&& !(writes_workdir(b) && (reads_workdir(a) || writes_workdir(a)))
}

/// The shared working directory after one dispatched operation: only
/// the setter changes it, and only for an existing path.
pub open spec fn workdir_step(
    w: Option<String>,
    op: OpKind,
    path: String,
    path_exists: bool,
) -> Option<String> {
    if op == OpKind::CodeCliSetWorkdir {
        crate::code_cli::workdir_after_set(w, path, path_exists)
    } else {
        w
    }
}

/// Disjoint dispatches commute.  Routing and every handler's planning
/// and interpretation are pure functions of their inputs, the registry
/// is read-only, and the working directory is the only value shared
/// between requests: when two operations target disjoint resources,
/// running them in either order leaves the same state, and each one
/// observes the same working directory in both orders, so its result
/// is the same in both orders.
pub proof fn lemma_disjoint_dispatch_commutes(
    w: Option<String>,
    op1: OpKind,
    path1: String,
    exists1: bool,
    op2: OpKind,
    path2: String,
    exists2: bool,
)
    requires
        disjoint_ops(op1, op2),
    ensures
        workdir_step(workdir_step(w, op1, path1, exists1), op2, path2, exists2) == workdir_step(
            workdir_step(w, op2, path2, exists2),
            op1,
            path1,
            exists1,
        ),
        reads_workdir(op1) ==> workdir_step(w, op2, path2, exists2) == w,
        reads_workdir(op2) ==> workdir_step(w, op1, path1, exists1) == w,
{
}

} // verus!
