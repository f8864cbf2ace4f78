//! The model of the virtual machine's top-level scope and the entry-point
//! resolver: global bindings looked up by name, and the convention-based
//! `<module>#<EventName>` names of the optional script hooks.

use vstd::prelude::*;
use vstd::string::StringExecFns;
use crate::diag::BasicError;
use crate::value::{render, render_spec, Value};

verus! {

/// The five host event kinds a script may hook.
#[derive(Clone, Copy, PartialEq, Eq, Structural, Debug)]
pub enum EventKind {
    Update,
    Draw,
    KeyDown,
    KeyUp,
    TextInput,
}

/// The conventional name suffix of a hook for event kind `k`.
pub open spec fn kind_suffix(k: EventKind) -> Seq<char> {
    match k {
        EventKind::Update => "Update"@,
        EventKind::Draw => "Draw"@,
        EventKind::KeyDown => "KeyDown"@,
        EventKind::KeyUp => "KeyUp"@,
        EventKind::TextInput => "TextInput"@,
    }
}

/// The conventional global name of module `module`'s hook for event kind
/// `k`: `<module>#<EventName>`, case-sensitive.
pub open spec fn hook_name(module: Seq<char>, k: EventKind) -> Seq<char> {
    module + "#"@ + kind_suffix(k)
}

/// Builds the conventional hook name as a fresh string.
pub fn hook_name_of(module: &String, k: EventKind) -> (r: String)
    ensures
        r@ == hook_name(module@, k),
{
    let suffix: &str = match k {
        EventKind::Update => "Update",
        EventKind::Draw => "Draw",
        EventKind::KeyDown => "KeyDown",
        EventKind::KeyUp => "KeyUp",
        EventKind::TextInput => "TextInput",
    };
    let r = module.clone().concat("#").concat(suffix);
    proof {
        assert(r@ =~= hook_name(module@, k));
    }
    r
}

/// The top-level scope of the virtual machine after the module's top-level
/// code has executed, as the resolver reads it: a set of named global
/// bindings, handed over as plain values.
pub struct Globals {
    pub vars: Vec<(String, Value)>,
}

impl Globals {
    /// Global names are unique, as in the scope they model.
    pub open spec fn wf(self) -> bool {
        forall|i: int, j: int|
            0 <= i < j < self.vars@.len() ==> (#[trigger] self.vars@[i]).0@ != (
            #[trigger] self.vars@[j]).0@
    }

    /// The value bound to `name`, if any.
    pub open spec fn lookup(self, name: Seq<char>) -> Option<Value> {
        if exists|i: int| 0 <= i < self.vars@.len() && (#[trigger] self.vars@[i]).0@ == name {
            Some(
                self.vars@[choose|i: int|
                    0 <= i < self.vars@.len() && (#[trigger] self.vars@[i]).0@ == name].1,
            )
        } else {
            None
        }
    }

    /// An empty scope.
    pub fn new() -> (g: Self)
        ensures
            g.wf(),
            g.vars@.len() == 0,
            forall|name: Seq<char>| g.lookup(name) is None,
    {
        Globals { vars: Vec::new() }
    }

    /// Adds a global binding. A name already bound is refused, so that the
    /// scope keeps one value per name.
    pub fn define(&mut self, name: String, value: Value) -> (ok: bool)
        requires
            old(self).wf(),
        ensures
            final(self).wf(),
            ok <==> old(self).lookup(name@) is None,
            !ok ==> *final(self) == *old(self),
            ok ==> final(self).vars@ == old(self).vars@.push((name, value)),
            ok ==> final(self).lookup(name@) == Some(value),
            forall|other: Seq<char>|
                other != name@ ==> final(self).lookup(other) == old(self).lookup(other),
    {
        if self.get_global_by_name(&name).is_some() {
            return false;
        }
        let ghost pre = *self;
        let ghost name_view = name@;
        self.vars.push((name, value));
        proof {
            let entry = self.vars@.last();
            assert(entry.0@ == name_view);
            lemma_lookup_push(pre, *self, entry, name_view);
            assert forall|other: Seq<char>| other != name_view implies #[trigger] self.lookup(other)
                == pre.lookup(other) by {
                lemma_lookup_push(pre, *self, entry, other);
            }
        }
        true
    }

    /// Finds the value bound to `name` in the scope, if any.
    pub fn get_global_by_name(&self, name: &String) -> (r: Option<&Value>)
        requires
            self.wf(),
        ensures
            match r {
                Some(v) => self.lookup(name@) == Some(*v),
                None => self.lookup(name@) is None,
            },
    {
        let mut i: usize = 0;
        while i < self.vars.len()
            invariant
                self.wf(),
                i <= self.vars@.len(),
                forall|j: int| 0 <= j < i ==> (#[trigger] self.vars@[j]).0@ != name@,
            decreases self.vars@.len() - i,
        {
            if self.vars[i].0.eq(name) {
                proof {
                    let w = choose|k: int|
                        0 <= k < self.vars@.len() && (#[trigger] self.vars@[k]).0@ == name@;
                    if w != i as int {
                        assert((self.vars@[w]).0@ == (self.vars@[i as int]).0@);
                    }
                }
                return Some(&self.vars[i].1);
            }
            i = i + 1;
        }
        None
    }
}

/// Pushing a fresh name binds exactly that name and changes no other lookup.
proof fn lemma_lookup_push(pre: Globals, post: Globals, entry: (String, Value), other: Seq<char>)
    requires
        pre.wf(),
        pre.lookup(entry.0@) is None,
        post.vars@ == pre.vars@.push(entry),
    ensures
        post.lookup(entry.0@) == Some(entry.1),
        other != entry.0@ ==> post.lookup(other) == pre.lookup(other),
{
    let name = entry.0@;
    let n = pre.vars@.len() as int;
    assert((post.vars@[n]).0@ == name);
    if other == name {
        let w = choose|i: int| 0 <= i < post.vars@.len() && (#[trigger] post.vars@[i]).0@ == name;
        if w != n {
            assert((pre.vars@[w]).0@ == name);
        }
    } else {
        if exists|i: int| 0 <= i < pre.vars@.len() && (#[trigger] pre.vars@[i]).0@ == other {
            let w = choose|i: int| 0 <= i < pre.vars@.len() && (#[trigger] pre.vars@[i]).0@ == other;
            assert((post.vars@[w]).0@ == other);
            let w2 = choose|i: int|
                0 <= i < post.vars@.len() && (#[trigger] post.vars@[i]).0@ == other;
            assert(w2 != n);
            if w != w2 {
                assert((pre.vars@[w2]).0@ == other);
            }
        } else {
            assert forall|i: int|
                0 <= i < post.vars@.len() implies (#[trigger] post.vars@[i]).0@ != other by {
                if i < n {
                    assert((pre.vars@[i]).0@ != other);
                }
            }
        }
    }
}

/// Whether module `module`'s hook for `k` is bound to a value that is not
/// callable — the fatal bind error of bootstrap.
pub open spec fn hook_misbound(g: Globals, module: Seq<char>, k: EventKind) -> bool {
    g.lookup(hook_name(module, k)) matches Some(v) && !(v is Func)
}

/// The callback handle bound for module `module`'s hook `k`: none when the
/// name is absent or not callable.
pub open spec fn hook_binding(g: Globals, module: Seq<char>, k: EventKind) -> Option<u64> {
    match g.lookup(hook_name(module, k)) {
        Some(v) => match v {
            Value::Func(id) => Some(id),
            _ => None,
        },
        None => None,
    }
}

/// The message of the bind error raised when a hook name is bound to a value
/// that is not callable.
pub open spec fn not_callable_message(v: Value) -> Seq<char> {
    "expected a function but got "@ + render_spec(v)
}

/// Whether `e` is exactly the bind error reported for non-callable value `v`
/// under call trace `trace`.
pub open spec fn is_bind_error(e: BasicError, trace: Seq<Seq<char>>, v: Value) -> bool {
    &&& e.marks.deep_view() == trace
    &&& e.message@ == not_callable_message(v)
    &&& e.help is None
}

/// Resolves one optional entry point in the scope. An absent name is no
/// callback (a silent no-op for that event); a name bound to a callable
/// yields its handle; a name bound to anything else is a fatal bind error
/// carrying the current call trace.
pub fn get_opt_callback(globals: &Globals, trace: &Vec<String>, name: &String) -> (r: Result<
    Option<u64>,
    BasicError,
>)
    requires
        globals.wf(),
    ensures
        match globals.lookup(name@) {
            None => r == Ok::<Option<u64>, BasicError>(None),
            Some(v) => match v {
                Value::Func(id) => r == Ok::<Option<u64>, BasicError>(Some(id)),
                _ => r matches Err(e) && is_bind_error(e, trace.deep_view(), v),
            },
        },
{
    match globals.get_global_by_name(name) {
        None => Ok(None),
        Some(v) => match v {
            Value::Func(id) => Ok(Some(*id)),
            other => {
                let mut message = String::from_str("expected a function but got ");
                let rendered = render(other);
                message.append(rendered.as_str());
                Err(BasicError { marks: crate::diag::clone_marks(trace), message, help: None })
            },
        },
    }
}

} // verus!
