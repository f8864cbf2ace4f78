//! The plain-value model of script values crossing the adapter boundary.
//!
//! The virtual machine's own value representation is an external collaborator;
//! the dispatcher only ever hands it symbolic names, booleans and one-character
//! strings, and only ever reads back failure values through their rendering.
//! Compiled callbacks are carried as opaque handles.

use vstd::prelude::*;
use vstd::string::StringExecFns;
use crate::text::{decimal, push_decimal};

verus! {

/// A script value as the adapter sees it: an argument it builds for a
/// callback, or a failure value it renders for a diagnostic. A `Func` carries
/// the handle of a compiled unit held by the virtual machine.
#[derive(Debug, Clone, PartialEq, Eq)]
pub enum Value {
    Nil,
    Bool(bool),
    Str(String),
    Func(u64),
}

/// The human-readable rendering of a value, used for failure messages.
pub open spec fn render_spec(v: Value) -> Seq<char> {
    match v {
        Value::Nil => "nil"@,
        Value::Bool(b) => if b {
            "true"@
        } else {
            "false"@
        },
        Value::Str(s) => s@,
        Value::Func(id) => "<function "@ + decimal(id as nat) + ">"@,
    }
}

/// Renders a value for display in a diagnostic.
pub fn render(v: &Value) -> (r: String)
    ensures
        r@ == render_spec(*v),
{
    match v {
        Value::Nil => String::from_str("nil"),
        Value::Bool(b) => if *b {
            String::from_str("true")
        } else {
            String::from_str("false")
        },
        Value::Str(s) => s.clone(),
        Value::Func(id) => {
            let mut r = String::from_str("<function ");
            push_decimal(&mut r, *id);
            let r = r.concat(">");
            proof {
                assert(r@ =~= render_spec(Value::Func(*id)));
            }
            r
        },
    }
}

/// The message of the failure raised when a host-side operation is invoked
/// with the wrong number of arguments.
pub open spec fn arity_message(expected: nat, got: nat) -> Seq<char> {
    "Expected "@ + decimal(expected) + " args but got "@ + decimal(got)
}

/// Checks that a host-side operation received exactly `argc` arguments;
/// a mismatch is a script-visible failure value naming both counts.
pub fn checkargc(args: &Vec<Value>, argc: usize) -> (r: Result<(), Value>)
    ensures
        r is Ok <==> args@.len() == argc,
        r matches Err(v) ==> v matches Value::Str(m) && m@ == arity_message(
            argc as nat,
            args@.len(),
        ),
{
    if args.len() != argc {
        let mut m = String::from_str("Expected ");
        push_decimal(&mut m, argc as u64);
        let mut m = m.concat(" args but got ");
        push_decimal(&mut m, args.len() as u64);
        proof {
            assert(m@ =~= arity_message(argc as nat, args@.len()));
        }
        Err(Value::Str(m))
    } else {
        Ok(())
    }
}

/// Converts an external error, already rendered as text by the unverified
/// shell, into a script-visible failure value.
pub fn converr<T>(r: Result<T, String>) -> (res: Result<T, Value>)
    ensures
        r is Ok <==> res is Ok,
        r is Ok ==> res->Ok_0 == r->Ok_0,
        r matches Err(m) ==> res matches Err(v) && v matches Value::Str(s) && s == m,
{
    match r {
        Ok(t) => Ok(t),
        Err(m) => Err(Value::Str(m)),
    }
}

} // verus!
